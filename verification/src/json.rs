//! JSON objects as the records see them: a list of named slots.
//!
//! Parsing and printing of the text itself is `serde_json`'s work. This module
//! names what it returns and holds the lookups that the records are read with.

use vstd::prelude::*;
use vstd::string::StringExecFns;

verus! {

/// The value of one entry of a JSON object, as far as a record reads it.
#[derive(Clone, Debug)]
pub enum Slot {
    /// A JSON string.
    Text(String),
    /// The JSON `null`.
    Null,
    /// A boolean, a number, an array or a nested object.
    Other,
}

/// The mathematical value of a [`Slot`].
pub ghost enum SlotView {
    Text(Seq<char>),
    Null,
    Other,
}

impl View for Slot {
    type V = SlotView;

    open spec fn view(&self) -> SlotView {
        match self {
            Slot::Text(s) => SlotView::Text(s@),
            Slot::Null => SlotView::Null,
            Slot::Other => SlotView::Other,
        }
    }
}

/// The entries of a JSON object as a mathematical value: each a key and a
/// slot.
pub type Entries = Seq<(Seq<char>, SlotView)>;

/// A list of fields as a mathematical value: each a name and a text.
pub type Fields = Seq<(Seq<char>, Seq<char>)>;

/// A JSON object: its entries, each a key and a slot.
#[derive(Clone, Debug)]
pub struct Object {
    pub entries: Vec<(String, Slot)>,
}

impl View for Object {
    type V = Entries;

    open spec fn view(&self) -> Entries {
        Seq::new(self.entries@.len(), |i: int| (self.entries@[i].0@, self.entries@[i].1@))
    }
}

/// Why a text could not be read as a record.
#[derive(Clone, Debug, PartialEq, Eq)]
pub enum DecodeError {
    /// The text is not a JSON object, or a field of the record holds a value
    /// of the wrong kind.
    Malformed,
    /// The object has no entry for the named mandatory field.
    MissingField(String),
}

/// The mathematical value of a [`DecodeError`].
pub ghost enum DecodeErrorView {
    Malformed,
    MissingField(Seq<char>),
}

impl View for DecodeError {
    type V = DecodeErrorView;

    open spec fn view(&self) -> DecodeErrorView {
        match self {
            DecodeError::Malformed => DecodeErrorView::Malformed,
            DecodeError::MissingField(name) => DecodeErrorView::MissingField(name@),
        }
    }
}

impl DecodeErrorView {
    /// The cause in words.
    pub open spec fn message(self) -> Seq<char> {
        match self {
            DecodeErrorView::Malformed => "malformed text"@,
            DecodeErrorView::MissingField(name) => "missing field `"@ + name + "`"@,
        }
    }
}

/// The view of what a decoder returns.
pub open spec fn result_view<T: View>(r: Result<T, DecodeError>) -> Result<T::V, DecodeErrorView> {
    match r {
        Ok(v) => Ok(v@),
        Err(e) => Err(e@),
    }
}

impl DecodeError {
    /// The cause in words, with the name of the field where one is missing.
    pub fn message(&self) -> (r: String)
        ensures
            r@ == self@.message(),
    {
        match self {
            DecodeError::Malformed => "malformed text".to_owned(),
            DecodeError::MissingField(name) => {
                "missing field `".to_owned().concat(name.as_str()).concat("`")
            },
        }
    }

    /// The name of the mandatory field that was missing, if that is the cause.
    pub fn missing_field(&self) -> (r: Option<String>)
        ensures
            match r {
                Some(name) => self@ == DecodeErrorView::MissingField(name@),
                None => self@ == DecodeErrorView::Malformed,
            },
    {
        match self {
            DecodeError::Malformed => None,
            DecodeError::MissingField(name) => Some(name.clone()),
        }
    }
}

/// The slot of the first entry of `entries` whose key is `name`.
pub open spec fn lookup(entries: Entries, name: Seq<char>) -> Option<SlotView>
    decreases entries.len(),
{
    if entries.len() == 0 {
        None
    } else if entries[0].0 == name {
        Some(entries[0].1)
    } else {
        lookup(entries.drop_first(), name)
    }
}

/// The text of a slot that holds a string.
pub open spec fn text_of(slot: Option<SlotView>) -> Option<Seq<char>> {
    match slot {
        Some(SlotView::Text(t)) => Some(t),
        _ => None,
    }
}

/// Whether a mandatory field can be read from `slot`: the entry is a string,
/// or there is none.
pub open spec fn fits_mandatory(slot: Option<SlotView>) -> bool {
    slot is None || text_of(slot) is Some
}

/// Whether an optional field can be read from `slot`: the entry is a string or
/// `null`, or there is none.
pub open spec fn fits_optional(slot: Option<SlotView>) -> bool {
    slot != Some(SlotView::Other)
}

/// The view of an optional string.
pub open spec fn opt_view(value: Option<String>) -> Option<Seq<char>> {
    match value {
        Some(s) => Some(s@),
        None => None,
    }
}

/// The view of a list of fields: each a name and a text.
pub open spec fn fields_view(fields: Vec<(String, String)>) -> Fields {
    Seq::new(fields@.len(), |i: int| (fields@[i].0@, fields@[i].1@))
}

/// The object that a list of fields stands for: every entry a string.
pub open spec fn as_object(fields: Fields) -> Entries {
    Seq::new(fields.len(), |i: int| (fields[i].0, SlotView::Text(fields[i].1)))
}

/// The list of fields of a mandatory field: one entry.
pub open spec fn mandatory(name: Seq<char>, value: Seq<char>) -> Fields {
    seq![(name, value)]
}

/// The list of fields of an optional field: one entry if it is present, none
/// if it is absent.
pub open spec fn optional(name: Seq<char>, value: Option<Seq<char>>) -> Fields {
    match value {
        Some(t) => seq![(name, t)],
        None => Seq::empty(),
    }
}

/// The entries of the JSON object that `serde_json` reads from `text`, in the
/// order in which it hands them out; `None` where it reads no object.
pub uninterp spec fn json_object(text: Seq<char>) -> Option<Seq<(Seq<char>, SlotView)>>;

/// The compact JSON text that `serde_json` prints for the object whose entries
/// are the strings of `fields`.
pub uninterp spec fn json_text(fields: Seq<(Seq<char>, Seq<char>)>) -> Seq<char>;

/// Whether the text that is printed for `fields` is read back as it was
/// printed: as an object in which every name finds what `fields` holds under
/// it.
pub open spec fn reads_back(fields: Fields) -> bool {
    match json_object(json_text(fields)) {
        Some(obj) => forall|name: Seq<char>| #[trigger]
            lookup(obj, name) == lookup(as_object(fields), name),
        None => false,
    }
}

/// Parses `text` with `serde_json::from_str` into a `serde_json::Value` and
/// hands out the entries of the object that was read. Each entry's value is
/// kept as the string it holds, as `null`, or as something else.
///
/// Believed, not proved: the result is `json_object` of the text, that is,
/// parsing depends on the text alone. `None` stands for a text that the
/// parser refuses and for a value that is no object.
#[verifier::external_body]
fn parse_object(text: &str) -> (r: Option<Object>)
    ensures
        match r {
            Some(obj) => json_object(text@) == Some(obj@),
            None => json_object(text@) is None,
        },
{
    let mut entries = Vec::new();
    match serde_json::from_str::<serde_json::Value>(text) {
        Ok(serde_json::Value::Object(map)) => for (key, value) in map {
            entries.push((key, match value {
                serde_json::Value::String(s) => Slot::Text(s),
                serde_json::Value::Null => Slot::Null,
                serde_json::Value::Bool(_) | serde_json::Value::Number(_) => Slot::Other,
                serde_json::Value::Array(_) | serde_json::Value::Object(_) => Slot::Other,
            }));
        },
        _ => return None,
    }
    Some(Object { entries })
}

/// Prints the fields as one JSON object: `serde_json::Map::insert` puts each
/// field in as a `serde_json::Value::String`, and `to_string`, which goes by
/// the `Display` of `serde_json::Value`, prints the object.
///
/// Believed, not proved: the result is `json_text` of the fields, that is,
/// printing depends on the names and texts alone.
#[verifier::external_body]
pub(crate) fn print_object(fields: &Vec<(String, String)>) -> (text: String)
    ensures
        text@ == json_text(fields_view(*fields)),
{
    let mut map = serde_json::Map::new();
    for (name, value) in fields.iter() {
        map.insert(name.clone(), serde_json::Value::String(value.clone()));
    }
    serde_json::Value::Object(map).to_string()
}

impl Object {
    /// Reads `text` as a JSON object.
    pub fn parse(text: &str) -> (r: Result<Object, DecodeError>)
        ensures
            match r {
                Ok(obj) => json_object(text@) == Some(obj@),
                Err(e) => json_object(text@) is None && e@ == DecodeErrorView::Malformed,
            },
    {
        match parse_object(text) {
            Some(obj) => Ok(obj),
            None => Err(DecodeError::Malformed),
        }
    }

    /// The slot of the first entry whose key is `name`.
    pub fn find(&self, name: &str) -> (r: Option<&Slot>)
        ensures
            match r {
                Some(slot) => lookup(self@, name@) == Some(slot@),
                None => lookup(self@, name@) is None,
            },
    {
        let key = name.to_owned();
        let mut i: usize = 0;
        proof {
            assert(self@.skip(0) =~= self@);
        }
        while i < self.entries.len()
            invariant
                i <= self.entries.len(),
                key@ == name@,
                lookup(self@, name@) == lookup(self@.skip(i as int), name@),
            decreases self.entries.len() - i,
        {
            if self.entries[i].0 == key {
                return Some(&self.entries[i].1);
            }
            proof {
                assert(self@.skip(i as int).drop_first() =~= self@.skip(i + 1));
            }
            i += 1;
        }
        None
    }

    /// Reads a mandatory field: its text, `None` where the object has no entry
    /// for it, and an error where the entry is not a string.
    pub fn read_mandatory(&self, name: &str) -> (r: Result<Option<String>, DecodeError>)
        ensures
            match r {
                Ok(value) => fits_mandatory(lookup(self@, name@))
                    && opt_view(value) == text_of(lookup(self@, name@)),
                Err(e) => !fits_mandatory(lookup(self@, name@))
                    && e@ == DecodeErrorView::Malformed,
            },
    {
        match self.find(name) {
            None => Ok(None),
            Some(Slot::Text(s)) => Ok(Some(s.clone())),
            Some(_) => Err(DecodeError::Malformed),
        }
    }

    /// Reads an optional field: its text, `None` where the object has no entry
    /// for it or the entry is `null`, and an error where the entry is anything
    /// else.
    pub fn read_optional(&self, name: &str) -> (r: Result<Option<String>, DecodeError>)
        ensures
            match r {
                Ok(value) => fits_optional(lookup(self@, name@))
                    && opt_view(value) == text_of(lookup(self@, name@)),
                Err(e) => !fits_optional(lookup(self@, name@))
                    && e@ == DecodeErrorView::Malformed,
            },
    {
        match self.find(name) {
            None => Ok(None),
            Some(Slot::Text(s)) => Ok(Some(s.clone())),
            Some(Slot::Null) => Ok(None),
            Some(Slot::Other) => Err(DecodeError::Malformed),
        }
    }
}

/// The error for a mandatory field without an entry.
pub fn missing(name: &str) -> (e: DecodeError)
    ensures
        e@ == DecodeErrorView::MissingField(name@),
{
    DecodeError::MissingField(name.to_owned())
}

/// The first entry of a list of fields decides a lookup under its name; under
/// any other name the rest of the list does.
pub proof fn lemma_lookup_mandatory(
    name: Seq<char>,
    value: Seq<char>,
    rest: Fields,
    key: Seq<char>,
)
    ensures
        lookup(as_object(mandatory(name, value) + rest), key) == if name == key {
            Some(SlotView::Text(value))
        } else {
            lookup(as_object(rest), key)
        },
{
    let all = as_object(mandatory(name, value) + rest);
    assert(all[0] == (name, SlotView::Text(value)));
    assert(all.drop_first() =~= as_object(rest));
}

/// A present optional field at the head of a list of fields decides a lookup
/// under its name; an absent one decides nothing.
pub proof fn lemma_lookup_optional(
    name: Seq<char>,
    value: Option<Seq<char>>,
    rest: Fields,
    key: Seq<char>,
)
    ensures
        lookup(as_object(optional(name, value) + rest), key) == match value {
            Some(t) if name == key => Some(SlotView::Text(t)),
            _ => lookup(as_object(rest), key),
        },
{
    match value {
        Some(t) => {
            lemma_lookup_mandatory(name, t, rest, key);
        },
        None => {
            assert(optional(name, value) + rest =~= rest);
        },
    }
}

/// An entry put in under one name changes no lookup under another.
pub proof fn lemma_lookup_insert(
    obj: Entries,
    i: int,
    name: Seq<char>,
    slot: SlotView,
    key: Seq<char>,
)
    requires
        0 <= i <= obj.len(),
        name != key,
    ensures
        lookup(obj.insert(i, (name, slot)), key) == lookup(obj, key),
    decreases i,
{
    let put = obj.insert(i, (name, slot));
    if i == 0 {
        assert(put.drop_first() =~= obj);
    } else {
        assert(put[0] == obj[0]);
        assert(put.drop_first() =~= obj.drop_first().insert(i - 1, (name, slot)));
        lemma_lookup_insert(obj.drop_first(), i - 1, name, slot, key);
    }
}

/// Appends a mandatory field to a list of fields.
pub fn push_mandatory(fields: &mut Vec<(String, String)>, name: &str, value: &String)
    ensures
        fields_view(*final(fields)) == fields_view(*old(fields)) + mandatory(name@, value@),
{
    fields.push((name.to_owned(), value.clone()));
    proof {
        assert(fields_view(*fields) =~= fields_view(*old(fields)) + mandatory(name@, value@));
    }
}

/// Appends an optional field to a list of fields: nothing where it is absent.
pub fn push_optional(fields: &mut Vec<(String, String)>, name: &str, value: &Option<String>)
    ensures
        fields_view(*final(fields)) == fields_view(*old(fields)) + optional(
            name@,
            opt_view(*value),
        ),
{
    match value {
        Some(text) => {
            fields.push((name.to_owned(), text.clone()));
        },
        None => {},
    }
    proof {
        assert(fields_view(*fields) =~= fields_view(*old(fields)) + optional(
            name@,
            opt_view(*value),
        ));
    }
}

} // verus!
