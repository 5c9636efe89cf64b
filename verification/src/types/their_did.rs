//! `TheirDid`: the record, its value and its JSON form.

use crate::json::{
    as_object, fields_view, fits_mandatory, fits_optional, json_object, json_text,
    lemma_lookup_insert, lemma_lookup_mandatory, lemma_lookup_optional, lookup, mandatory,
    missing, opt_view, optional, print_object, push_mandatory, push_optional, reads_back,
    result_view, text_of, DecodeError, DecodeErrorView, Entries, Fields, Object, SlotView,
};
use crate::types::lemma_names_distinct;
use vstd::prelude::*;

verus! {

/// A counterparty's identity as it is stored. The keys may be unknown.
#[derive(Clone, Debug)]
pub struct TheirDid {
    pub did: String,
    pub crypto_type: String,
    pub verkey: Option<String>,
    pub pk: Option<String>,
}

/// The mathematical value of a [`TheirDid`].
pub ghost struct TheirDidView {
    pub did: Seq<char>,
    pub crypto_type: Seq<char>,
    pub verkey: Option<Seq<char>>,
    pub pk: Option<Seq<char>>,
}

impl View for TheirDid {
    type V = TheirDidView;

    open spec fn view(&self) -> TheirDidView {
        TheirDidView {
            did: self.did@,
            crypto_type: self.crypto_type@,
            verkey: opt_view(self.verkey),
            pk: opt_view(self.pk),
        }
    }
}

impl TheirDidView {
    /// The fields that are written: the present ones, in the order of declaration.
    pub open spec fn fields(self) -> Fields {
        mandatory("did"@, self.did)
            + mandatory("crypto_type"@, self.crypto_type)
            + optional("verkey"@, self.verkey)
            + optional("pk"@, self.pk)
    }

    /// Whether every field of the record can be read from `obj`: no entry under
    /// a field's name holds a value of the wrong kind.
    pub open spec fn well_shaped(obj: Entries) -> bool {
        &&& fits_mandatory(lookup(obj, "did"@))
        &&& fits_mandatory(lookup(obj, "crypto_type"@))
        &&& fits_optional(lookup(obj, "verkey"@))
        &&& fits_optional(lookup(obj, "pk"@))
    }

    /// The record that `obj` holds, or why it holds none. A value of the wrong
    /// kind comes before a missing field, and of the missing fields the first
    /// in the order of declaration is named.
    pub open spec fn from_object(obj: Entries) -> Result<TheirDidView, DecodeErrorView> {
        if !Self::well_shaped(obj) {
            Err(DecodeErrorView::Malformed)
        } else if lookup(obj, "did"@) is None {
            Err(DecodeErrorView::MissingField("did"@))
        } else if lookup(obj, "crypto_type"@) is None {
            Err(DecodeErrorView::MissingField("crypto_type"@))
        } else {
            Ok(
                TheirDidView {
                    did: text_of(lookup(obj, "did"@)).unwrap(),
                    crypto_type: text_of(lookup(obj, "crypto_type"@)).unwrap(),
                    verkey: text_of(lookup(obj, "verkey"@)),
                    pk: text_of(lookup(obj, "pk"@)),
                },
            )
        }
    }

    /// What decoding returns for a text of which `parsed` was read.
    pub open spec fn decode(parsed: Option<Entries>) -> Result<TheirDidView, DecodeErrorView> {
        match parsed {
            Some(obj) => Self::from_object(obj),
            None => Err(DecodeErrorView::Malformed),
        }
    }

    /// What each field's name finds in the object of the written fields: the
    /// field's text where it is present, nothing where it is absent.
    pub proof fn lemma_fields_lookup(self)
        ensures
            lookup(as_object(self.fields()), "did"@) == Some(
                SlotView::Text(self.did),
            ),
            lookup(as_object(self.fields()), "crypto_type"@) == Some(
                SlotView::Text(self.crypto_type),
            ),
            lookup(as_object(self.fields()), "verkey"@) == match self.verkey {
                Some(t) => Some(SlotView::Text(t)),
                None => None,
            },
            lookup(as_object(self.fields()), "pk"@) == match self.pk {
                Some(t) => Some(SlotView::Text(t)),
                None => None,
            },
    {
        lemma_names_distinct();
        let end: Fields = Seq::empty();
        let from_pk = optional("pk"@, self.pk) + end;
        let from_verkey = optional("verkey"@, self.verkey) + from_pk;
        let from_crypto_type = mandatory("crypto_type"@, self.crypto_type) + from_verkey;
        let from_did = mandatory("did"@, self.did) + from_crypto_type;
        assert(self.fields() =~= from_did);
        assert(as_object(end).len() == 0);
        lemma_lookup_mandatory("did"@, self.did, from_crypto_type, "did"@);
        lemma_lookup_mandatory("did"@, self.did, from_crypto_type, "crypto_type"@);
        lemma_lookup_mandatory("crypto_type"@, self.crypto_type, from_verkey, "crypto_type"@);
        lemma_lookup_mandatory("did"@, self.did, from_crypto_type, "verkey"@);
        lemma_lookup_mandatory("crypto_type"@, self.crypto_type, from_verkey, "verkey"@);
        lemma_lookup_optional("verkey"@, self.verkey, from_pk, "verkey"@);
        lemma_lookup_optional("pk"@, self.pk, end, "verkey"@);
        lemma_lookup_mandatory("did"@, self.did, from_crypto_type, "pk"@);
        lemma_lookup_mandatory("crypto_type"@, self.crypto_type, from_verkey, "pk"@);
        lemma_lookup_optional("verkey"@, self.verkey, from_pk, "pk"@);
        lemma_lookup_optional("pk"@, self.pk, end, "pk"@);
    }

    /// Reading the object of the fields that were written for a record gives
    /// that record back, absent fields included.
    pub proof fn lemma_round_trip(self)
        ensures
            Self::from_object(as_object(self.fields())) == Ok::<Self, DecodeErrorView>(self),
    {
        self.lemma_fields_lookup();
    }

    /// Decoding the encoded text gives the record back, wherever the text that
    /// is printed for the fields is read back as it was printed.
    pub proof fn lemma_round_trip_where_read_back(self)
        ensures
            reads_back(self.fields()) ==> Self::decode(json_object(json_text(self.fields())))
                == Ok::<Self, DecodeErrorView>(self),
    {
        self.lemma_round_trip();
        if reads_back(self.fields()) {
            let obj = json_object(json_text(self.fields())).unwrap();
            Self::lemma_same_lookups(obj, as_object(self.fields()));
        }
    }

    /// No entry is written for an absent field.
    pub proof fn lemma_absent_not_written(self, i: int)
        requires
            0 <= i < self.fields().len(),
        ensures
            self.verkey is None ==> self.fields()[i].0 != "verkey"@,
            self.pk is None ==> self.fields()[i].0 != "pk"@,
    {
        lemma_names_distinct();
    }

    /// A field for which the object has no entry is absent in the record that
    /// is read from it.
    pub proof fn lemma_absent_not_invented(obj: Entries)
        ensures
            Self::from_object(obj) matches Ok(r) ==> {
                &&& lookup(obj, "verkey"@) is None ==> r.verkey is None
                &&& lookup(obj, "pk"@) is None ==> r.pk is None
            },
    {
    }

    /// An object without an entry for a mandatory field holds no record, and a
    /// record that is read holds the texts of the entries.
    pub proof fn lemma_mandatory_enforced(obj: Entries)
        ensures
            lookup(obj, "did"@) is None ==> Self::from_object(obj) is Err,
            lookup(obj, "crypto_type"@) is None ==> Self::from_object(obj) is Err,
            Self::from_object(obj) matches Ok(r) ==> {
                &&& lookup(obj, "did"@) == Some(SlotView::Text(r.did))
                &&& lookup(obj, "crypto_type"@) == Some(SlotView::Text(r.crypto_type))
            },
    {
    }

    /// Two objects in which the record's field names find the same slots hold
    /// the same record: neither the order of the entries nor an entry under
    /// another name counts.
    pub proof fn lemma_same_lookups(a: Entries, b: Entries)
        requires
            lookup(a, "did"@) == lookup(b, "did"@),
            lookup(a, "crypto_type"@) == lookup(b, "crypto_type"@),
            lookup(a, "verkey"@) == lookup(b, "verkey"@),
            lookup(a, "pk"@) == lookup(b, "pk"@),
        ensures
            Self::from_object(a) == Self::from_object(b),
    {
    }

    /// An entry under a name that is none of the record's field names changes
    /// nothing, wherever it stands.
    pub proof fn lemma_unknown_ignored(
        obj: Entries,
        i: int,
        name: Seq<char>,
        slot: SlotView,
    )
        requires
            0 <= i <= obj.len(),
            name != "did"@,
            name != "crypto_type"@,
            name != "verkey"@,
            name != "pk"@,
        ensures
            Self::from_object(obj.insert(i, (name, slot))) == Self::from_object(obj),
    {
        lemma_lookup_insert(obj, i, name, slot, "did"@);
        lemma_lookup_insert(obj, i, name, slot, "crypto_type"@);
        lemma_lookup_insert(obj, i, name, slot, "verkey"@);
        lemma_lookup_insert(obj, i, name, slot, "pk"@);
    }
}

impl TheirDid {
    /// The record with the given fields, as they are.
    pub fn new(
        did: String,
        crypto_type: String,
        verkey: Option<String>,
        pk: Option<String>,
    ) -> (r: TheirDid)
        ensures
            r == (TheirDid { did, crypto_type, verkey, pk }),
    {
        TheirDid { did, crypto_type, verkey, pk }
    }

    /// The fields to write: a name and a text for each present field.
    pub fn to_fields(&self) -> (fields: Vec<(String, String)>)
        ensures
            fields_view(fields) == self@.fields(),
    {
        let mut fields: Vec<(String, String)> = Vec::new();
        proof {
            assert(fields_view(fields) =~= Seq::empty());
        }
        push_mandatory(&mut fields, "did", &self.did);
        push_mandatory(&mut fields, "crypto_type", &self.crypto_type);
        push_optional(&mut fields, "verkey", &self.verkey);
        push_optional(&mut fields, "pk", &self.pk);
        proof {
            assert(fields_view(fields) =~= self@.fields());
        }
        fields
    }

    /// The record as JSON text: one object, with a string entry for each
    /// present field and none for an absent one.
    pub fn encode(&self) -> (text: String)
        ensures
            text@ == json_text(self@.fields()),
    {
        print_object(&self.to_fields())
    }

    /// Reads the record from a parsed object.
    pub fn from_object(obj: &Object) -> (r: Result<TheirDid, DecodeError>)
        ensures
            result_view(r) == TheirDidView::from_object(obj@),
    {
        let did = match obj.read_mandatory("did") {
            Ok(value) => value,
            Err(e) => return Err(e),
        };
        let crypto_type = match obj.read_mandatory("crypto_type") {
            Ok(value) => value,
            Err(e) => return Err(e),
        };
        let verkey = match obj.read_optional("verkey") {
            Ok(value) => value,
            Err(e) => return Err(e),
        };
        let pk = match obj.read_optional("pk") {
            Ok(value) => value,
            Err(e) => return Err(e),
        };
        let did = match did {
            Some(text) => text,
            None => return Err(missing("did")),
        };
        let crypto_type = match crypto_type {
            Some(text) => text,
            None => return Err(missing("crypto_type")),
        };
        Ok(TheirDid { did, crypto_type, verkey, pk })
    }

    /// Reads the record from JSON text.
    pub fn decode(text: &str) -> (r: Result<TheirDid, DecodeError>)
        ensures
            result_view(r) == TheirDidView::decode(json_object(text@)),
    {
        match Object::parse(text) {
            Ok(obj) => Self::from_object(&obj),
            Err(e) => Err(e),
        }
    }
}

} // verus!
