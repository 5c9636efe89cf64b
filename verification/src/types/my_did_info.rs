//! `MyDidInfo`: the record, its value and its JSON form.

use crate::json::{
    as_object, fields_view, fits_optional, json_object, json_text, lemma_lookup_insert,
    lemma_lookup_optional, lookup, opt_view, optional, print_object, push_optional, reads_back,
    result_view, text_of, DecodeError, DecodeErrorView, Entries, Fields, Object, SlotView,
};
use crate::types::lemma_names_distinct;
use vstd::prelude::*;

verus! {

/// A request to create a local identity. A field that is left out is for the
/// key derivation to choose.
#[derive(Clone, Debug)]
pub struct MyDidInfo {
    pub did: Option<String>,
    pub seed: Option<String>,
    pub crypto_type: Option<String>,
}

/// The mathematical value of a [`MyDidInfo`].
pub ghost struct MyDidInfoView {
    pub did: Option<Seq<char>>,
    pub seed: Option<Seq<char>>,
    pub crypto_type: Option<Seq<char>>,
}

impl View for MyDidInfo {
    type V = MyDidInfoView;

    open spec fn view(&self) -> MyDidInfoView {
        MyDidInfoView {
            did: opt_view(self.did),
            seed: opt_view(self.seed),
            crypto_type: opt_view(self.crypto_type),
        }
    }
}

impl MyDidInfoView {
    /// The fields that are written: the present ones, in the order of declaration.
    pub open spec fn fields(self) -> Fields {
        optional("did"@, self.did)
            + optional("seed"@, self.seed)
            + optional("crypto_type"@, self.crypto_type)
    }

    /// Whether every field of the record can be read from `obj`: no entry under
    /// a field's name holds a value of the wrong kind.
    pub open spec fn well_shaped(obj: Entries) -> bool {
        &&& fits_optional(lookup(obj, "did"@))
        &&& fits_optional(lookup(obj, "seed"@))
        &&& fits_optional(lookup(obj, "crypto_type"@))
    }

    /// The record that `obj` holds, or why it holds none. A value of the wrong
    /// kind comes before a missing field, and of the missing fields the first
    /// in the order of declaration is named.
    pub open spec fn from_object(obj: Entries) -> Result<MyDidInfoView, DecodeErrorView> {
        if !Self::well_shaped(obj) {
            Err(DecodeErrorView::Malformed)
        } else {
            Ok(
                MyDidInfoView {
                    did: text_of(lookup(obj, "did"@)),
                    seed: text_of(lookup(obj, "seed"@)),
                    crypto_type: text_of(lookup(obj, "crypto_type"@)),
                },
            )
        }
    }

    /// What decoding returns for a text of which `parsed` was read.
    pub open spec fn decode(parsed: Option<Entries>) -> Result<MyDidInfoView, DecodeErrorView> {
        match parsed {
            Some(obj) => Self::from_object(obj),
            None => Err(DecodeErrorView::Malformed),
        }
    }

    /// What each field's name finds in the object of the written fields: the
    /// field's text where it is present, nothing where it is absent.
    pub proof fn lemma_fields_lookup(self)
        ensures
            lookup(as_object(self.fields()), "did"@) == match self.did {
                Some(t) => Some(SlotView::Text(t)),
                None => None,
            },
            lookup(as_object(self.fields()), "seed"@) == match self.seed {
                Some(t) => Some(SlotView::Text(t)),
                None => None,
            },
            lookup(as_object(self.fields()), "crypto_type"@) == match self.crypto_type {
                Some(t) => Some(SlotView::Text(t)),
                None => None,
            },
    {
        lemma_names_distinct();
        let end: Fields = Seq::empty();
        let from_crypto_type = optional("crypto_type"@, self.crypto_type) + end;
        let from_seed = optional("seed"@, self.seed) + from_crypto_type;
        let from_did = optional("did"@, self.did) + from_seed;
        assert(self.fields() =~= from_did);
        assert(as_object(end).len() == 0);
        lemma_lookup_optional("did"@, self.did, from_seed, "did"@);
        lemma_lookup_optional("seed"@, self.seed, from_crypto_type, "did"@);
        lemma_lookup_optional("crypto_type"@, self.crypto_type, end, "did"@);
        lemma_lookup_optional("did"@, self.did, from_seed, "seed"@);
        lemma_lookup_optional("seed"@, self.seed, from_crypto_type, "seed"@);
        lemma_lookup_optional("crypto_type"@, self.crypto_type, end, "seed"@);
        lemma_lookup_optional("did"@, self.did, from_seed, "crypto_type"@);
        lemma_lookup_optional("seed"@, self.seed, from_crypto_type, "crypto_type"@);
        lemma_lookup_optional("crypto_type"@, self.crypto_type, end, "crypto_type"@);
    }

    /// Reading the object of the fields that were written for a record gives
    /// that record back, absent fields included.
    pub proof fn lemma_round_trip(self)
        ensures
            Self::from_object(as_object(self.fields())) == Ok::<Self, DecodeErrorView>(self),
    {
        self.lemma_fields_lookup();
    }

    /// Decoding the encoded text gives the record back, wherever the text that
    /// is printed for the fields is read back as it was printed.
    pub proof fn lemma_round_trip_where_read_back(self)
        ensures
            reads_back(self.fields()) ==> Self::decode(json_object(json_text(self.fields())))
                == Ok::<Self, DecodeErrorView>(self),
    {
        self.lemma_round_trip();
        if reads_back(self.fields()) {
            let obj = json_object(json_text(self.fields())).unwrap();
            Self::lemma_same_lookups(obj, as_object(self.fields()));
        }
    }

    /// No entry is written for an absent field.
    pub proof fn lemma_absent_not_written(self, i: int)
        requires
            0 <= i < self.fields().len(),
        ensures
            self.did is None ==> self.fields()[i].0 != "did"@,
            self.seed is None ==> self.fields()[i].0 != "seed"@,
            self.crypto_type is None ==> self.fields()[i].0 != "crypto_type"@,
    {
        lemma_names_distinct();
    }

    /// A field for which the object has no entry is absent in the record that
    /// is read from it.
    pub proof fn lemma_absent_not_invented(obj: Entries)
        ensures
            Self::from_object(obj) matches Ok(r) ==> {
                &&& lookup(obj, "did"@) is None ==> r.did is None
                &&& lookup(obj, "seed"@) is None ==> r.seed is None
                &&& lookup(obj, "crypto_type"@) is None ==> r.crypto_type is None
            },
    {
    }

    /// Two objects in which the record's field names find the same slots hold
    /// the same record: neither the order of the entries nor an entry under
    /// another name counts.
    pub proof fn lemma_same_lookups(a: Entries, b: Entries)
        requires
            lookup(a, "did"@) == lookup(b, "did"@),
            lookup(a, "seed"@) == lookup(b, "seed"@),
            lookup(a, "crypto_type"@) == lookup(b, "crypto_type"@),
        ensures
            Self::from_object(a) == Self::from_object(b),
    {
    }

    /// An entry under a name that is none of the record's field names changes
    /// nothing, wherever it stands.
    pub proof fn lemma_unknown_ignored(
        obj: Entries,
        i: int,
        name: Seq<char>,
        slot: SlotView,
    )
        requires
            0 <= i <= obj.len(),
            name != "did"@,
            name != "seed"@,
            name != "crypto_type"@,
        ensures
            Self::from_object(obj.insert(i, (name, slot))) == Self::from_object(obj),
    {
        lemma_lookup_insert(obj, i, name, slot, "did"@);
        lemma_lookup_insert(obj, i, name, slot, "seed"@);
        lemma_lookup_insert(obj, i, name, slot, "crypto_type"@);
    }
}

impl MyDidInfo {
    /// The record with the given fields, as they are.
    pub fn new(
        did: Option<String>,
        seed: Option<String>,
        crypto_type: Option<String>,
    ) -> (r: MyDidInfo)
        ensures
            r == (MyDidInfo { did, seed, crypto_type }),
    {
        MyDidInfo { did, seed, crypto_type }
    }

    /// The fields to write: a name and a text for each present field.
    pub fn to_fields(&self) -> (fields: Vec<(String, String)>)
        ensures
            fields_view(fields) == self@.fields(),
    {
        let mut fields: Vec<(String, String)> = Vec::new();
        proof {
            assert(fields_view(fields) =~= Seq::empty());
        }
        push_optional(&mut fields, "did", &self.did);
        push_optional(&mut fields, "seed", &self.seed);
        push_optional(&mut fields, "crypto_type", &self.crypto_type);
        proof {
            assert(fields_view(fields) =~= self@.fields());
        }
        fields
    }

    /// The record as JSON text: one object, with a string entry for each
    /// present field and none for an absent one.
    pub fn encode(&self) -> (text: String)
        ensures
            text@ == json_text(self@.fields()),
    {
        print_object(&self.to_fields())
    }

    /// Reads the record from a parsed object.
    pub fn from_object(obj: &Object) -> (r: Result<MyDidInfo, DecodeError>)
        ensures
            result_view(r) == MyDidInfoView::from_object(obj@),
    {
        let did = match obj.read_optional("did") {
            Ok(value) => value,
            Err(e) => return Err(e),
        };
        let seed = match obj.read_optional("seed") {
            Ok(value) => value,
            Err(e) => return Err(e),
        };
        let crypto_type = match obj.read_optional("crypto_type") {
            Ok(value) => value,
            Err(e) => return Err(e),
        };
        Ok(MyDidInfo { did, seed, crypto_type })
    }

    /// Reads the record from JSON text.
    pub fn decode(text: &str) -> (r: Result<MyDidInfo, DecodeError>)
        ensures
            result_view(r) == MyDidInfoView::decode(json_object(text@)),
    {
        match Object::parse(text) {
            Ok(obj) => Self::from_object(&obj),
            Err(e) => Err(e),
        }
    }
}

} // verus!
