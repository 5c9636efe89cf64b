//! `MyDid`: the record, its value and its JSON form.

use crate::json::{
    as_object, fields_view, fits_mandatory, json_object, json_text, lemma_lookup_insert,
    lemma_lookup_mandatory, lookup, mandatory, missing, print_object, push_mandatory,
    reads_back, result_view, text_of, DecodeError, DecodeErrorView, Entries, Fields, Object,
    SlotView,
};
use crate::types::lemma_names_distinct;
use vstd::prelude::*;

verus! {

/// A local identity after its keys were derived. Every field is mandatory.
#[derive(Clone, Debug)]
pub struct MyDid {
    pub did: String,
    pub crypto_type: String,
    pub pk: String,
    pub sk: String,
    pub verkey: String,
    pub signkey: String,
}

/// The mathematical value of a [`MyDid`].
pub ghost struct MyDidView {
    pub did: Seq<char>,
    pub crypto_type: Seq<char>,
    pub pk: Seq<char>,
    pub sk: Seq<char>,
    pub verkey: Seq<char>,
    pub signkey: Seq<char>,
}

impl View for MyDid {
    type V = MyDidView;

    open spec fn view(&self) -> MyDidView {
        MyDidView {
            did: self.did@,
            crypto_type: self.crypto_type@,
            pk: self.pk@,
            sk: self.sk@,
            verkey: self.verkey@,
            signkey: self.signkey@,
        }
    }
}

impl MyDidView {
    /// The fields that are written: the present ones, in the order of declaration.
    pub open spec fn fields(self) -> Fields {
        mandatory("did"@, self.did)
            + mandatory("crypto_type"@, self.crypto_type)
            + mandatory("pk"@, self.pk)
            + mandatory("sk"@, self.sk)
            + mandatory("verkey"@, self.verkey)
            + mandatory("signkey"@, self.signkey)
    }

    /// Whether every field of the record can be read from `obj`: no entry under
    /// a field's name holds a value of the wrong kind.
    pub open spec fn well_shaped(obj: Entries) -> bool {
        &&& fits_mandatory(lookup(obj, "did"@))
        &&& fits_mandatory(lookup(obj, "crypto_type"@))
        &&& fits_mandatory(lookup(obj, "pk"@))
        &&& fits_mandatory(lookup(obj, "sk"@))
        &&& fits_mandatory(lookup(obj, "verkey"@))
        &&& fits_mandatory(lookup(obj, "signkey"@))
    }

    /// The record that `obj` holds, or why it holds none. A value of the wrong
    /// kind comes before a missing field, and of the missing fields the first
    /// in the order of declaration is named.
    pub open spec fn from_object(obj: Entries) -> Result<MyDidView, DecodeErrorView> {
        if !Self::well_shaped(obj) {
            Err(DecodeErrorView::Malformed)
        } else if lookup(obj, "did"@) is None {
            Err(DecodeErrorView::MissingField("did"@))
        } else if lookup(obj, "crypto_type"@) is None {
            Err(DecodeErrorView::MissingField("crypto_type"@))
        } else if lookup(obj, "pk"@) is None {
            Err(DecodeErrorView::MissingField("pk"@))
        } else if lookup(obj, "sk"@) is None {
            Err(DecodeErrorView::MissingField("sk"@))
        } else if lookup(obj, "verkey"@) is None {
            Err(DecodeErrorView::MissingField("verkey"@))
        } else if lookup(obj, "signkey"@) is None {
            Err(DecodeErrorView::MissingField("signkey"@))
        } else {
            Ok(
                MyDidView {
                    did: text_of(lookup(obj, "did"@)).unwrap(),
                    crypto_type: text_of(lookup(obj, "crypto_type"@)).unwrap(),
                    pk: text_of(lookup(obj, "pk"@)).unwrap(),
                    sk: text_of(lookup(obj, "sk"@)).unwrap(),
                    verkey: text_of(lookup(obj, "verkey"@)).unwrap(),
                    signkey: text_of(lookup(obj, "signkey"@)).unwrap(),
                },
            )
        }
    }

    /// What decoding returns for a text of which `parsed` was read.
    pub open spec fn decode(parsed: Option<Entries>) -> Result<MyDidView, DecodeErrorView> {
        match parsed {
            Some(obj) => Self::from_object(obj),
            None => Err(DecodeErrorView::Malformed),
        }
    }

    /// What each field's name finds in the object of the written fields: the
    /// field's text where it is present, nothing where it is absent.
    pub proof fn lemma_fields_lookup(self)
        ensures
            lookup(as_object(self.fields()), "did"@) == Some(
                SlotView::Text(self.did),
            ),
            lookup(as_object(self.fields()), "crypto_type"@) == Some(
                SlotView::Text(self.crypto_type),
            ),
            lookup(as_object(self.fields()), "pk"@) == Some(
                SlotView::Text(self.pk),
            ),
            lookup(as_object(self.fields()), "sk"@) == Some(
                SlotView::Text(self.sk),
            ),
            lookup(as_object(self.fields()), "verkey"@) == Some(
                SlotView::Text(self.verkey),
            ),
            lookup(as_object(self.fields()), "signkey"@) == Some(
                SlotView::Text(self.signkey),
            ),
    {
        lemma_names_distinct();
        let end: Fields = Seq::empty();
        let from_signkey = mandatory("signkey"@, self.signkey) + end;
        let from_verkey = mandatory("verkey"@, self.verkey) + from_signkey;
        let from_sk = mandatory("sk"@, self.sk) + from_verkey;
        let from_pk = mandatory("pk"@, self.pk) + from_sk;
        let from_crypto_type = mandatory("crypto_type"@, self.crypto_type) + from_pk;
        let from_did = mandatory("did"@, self.did) + from_crypto_type;
        assert(self.fields() =~= from_did);
        assert(as_object(end).len() == 0);
        lemma_lookup_mandatory("did"@, self.did, from_crypto_type, "did"@);
        lemma_lookup_mandatory("did"@, self.did, from_crypto_type, "crypto_type"@);
        lemma_lookup_mandatory("crypto_type"@, self.crypto_type, from_pk, "crypto_type"@);
        lemma_lookup_mandatory("did"@, self.did, from_crypto_type, "pk"@);
        lemma_lookup_mandatory("crypto_type"@, self.crypto_type, from_pk, "pk"@);
        lemma_lookup_mandatory("pk"@, self.pk, from_sk, "pk"@);
        lemma_lookup_mandatory("did"@, self.did, from_crypto_type, "sk"@);
        lemma_lookup_mandatory("crypto_type"@, self.crypto_type, from_pk, "sk"@);
        lemma_lookup_mandatory("pk"@, self.pk, from_sk, "sk"@);
        lemma_lookup_mandatory("sk"@, self.sk, from_verkey, "sk"@);
        lemma_lookup_mandatory("did"@, self.did, from_crypto_type, "verkey"@);
        lemma_lookup_mandatory("crypto_type"@, self.crypto_type, from_pk, "verkey"@);
        lemma_lookup_mandatory("pk"@, self.pk, from_sk, "verkey"@);
        lemma_lookup_mandatory("sk"@, self.sk, from_verkey, "verkey"@);
        lemma_lookup_mandatory("verkey"@, self.verkey, from_signkey, "verkey"@);
        lemma_lookup_mandatory("did"@, self.did, from_crypto_type, "signkey"@);
        lemma_lookup_mandatory("crypto_type"@, self.crypto_type, from_pk, "signkey"@);
        lemma_lookup_mandatory("pk"@, self.pk, from_sk, "signkey"@);
        lemma_lookup_mandatory("sk"@, self.sk, from_verkey, "signkey"@);
        lemma_lookup_mandatory("verkey"@, self.verkey, from_signkey, "signkey"@);
        lemma_lookup_mandatory("signkey"@, self.signkey, end, "signkey"@);
    }

    /// Reading the object of the fields that were written for a record gives
    /// that record back, absent fields included.
    pub proof fn lemma_round_trip(self)
        ensures
            Self::from_object(as_object(self.fields())) == Ok::<Self, DecodeErrorView>(self),
    {
        self.lemma_fields_lookup();
    }

    /// Decoding the encoded text gives the record back, wherever the text that
    /// is printed for the fields is read back as it was printed.
    pub proof fn lemma_round_trip_where_read_back(self)
        ensures
            reads_back(self.fields()) ==> Self::decode(json_object(json_text(self.fields())))
                == Ok::<Self, DecodeErrorView>(self),
    {
        self.lemma_round_trip();
        if reads_back(self.fields()) {
            let obj = json_object(json_text(self.fields())).unwrap();
            Self::lemma_same_lookups(obj, as_object(self.fields()));
        }
    }

    /// An object without an entry for a mandatory field holds no record, and a
    /// record that is read holds the texts of the entries.
    pub proof fn lemma_mandatory_enforced(obj: Entries)
        ensures
            lookup(obj, "did"@) is None ==> Self::from_object(obj) is Err,
            lookup(obj, "crypto_type"@) is None ==> Self::from_object(obj) is Err,
            lookup(obj, "pk"@) is None ==> Self::from_object(obj) is Err,
            lookup(obj, "sk"@) is None ==> Self::from_object(obj) is Err,
            lookup(obj, "verkey"@) is None ==> Self::from_object(obj) is Err,
            lookup(obj, "signkey"@) is None ==> Self::from_object(obj) is Err,
            Self::from_object(obj) matches Ok(r) ==> {
                &&& lookup(obj, "did"@) == Some(SlotView::Text(r.did))
                &&& lookup(obj, "crypto_type"@) == Some(SlotView::Text(r.crypto_type))
                &&& lookup(obj, "pk"@) == Some(SlotView::Text(r.pk))
                &&& lookup(obj, "sk"@) == Some(SlotView::Text(r.sk))
                &&& lookup(obj, "verkey"@) == Some(SlotView::Text(r.verkey))
                &&& lookup(obj, "signkey"@) == Some(SlotView::Text(r.signkey))
            },
    {
    }

    /// Two objects in which the record's field names find the same slots hold
    /// the same record: neither the order of the entries nor an entry under
    /// another name counts.
    pub proof fn lemma_same_lookups(a: Entries, b: Entries)
        requires
            lookup(a, "did"@) == lookup(b, "did"@),
            lookup(a, "crypto_type"@) == lookup(b, "crypto_type"@),
            lookup(a, "pk"@) == lookup(b, "pk"@),
            lookup(a, "sk"@) == lookup(b, "sk"@),
            lookup(a, "verkey"@) == lookup(b, "verkey"@),
            lookup(a, "signkey"@) == lookup(b, "signkey"@),
        ensures
            Self::from_object(a) == Self::from_object(b),
    {
    }

    /// An entry under a name that is none of the record's field names changes
    /// nothing, wherever it stands.
    pub proof fn lemma_unknown_ignored(
        obj: Entries,
        i: int,
        name: Seq<char>,
        slot: SlotView,
    )
        requires
            0 <= i <= obj.len(),
            name != "did"@,
            name != "crypto_type"@,
            name != "pk"@,
            name != "sk"@,
            name != "verkey"@,
            name != "signkey"@,
        ensures
            Self::from_object(obj.insert(i, (name, slot))) == Self::from_object(obj),
    {
        lemma_lookup_insert(obj, i, name, slot, "did"@);
        lemma_lookup_insert(obj, i, name, slot, "crypto_type"@);
        lemma_lookup_insert(obj, i, name, slot, "pk"@);
        lemma_lookup_insert(obj, i, name, slot, "sk"@);
        lemma_lookup_insert(obj, i, name, slot, "verkey"@);
        lemma_lookup_insert(obj, i, name, slot, "signkey"@);
    }
}

impl MyDid {
    /// The record with the given fields, as they are.
    pub fn new(
        did: String,
        crypto_type: String,
        pk: String,
        sk: String,
        verkey: String,
        signkey: String,
    ) -> (r: MyDid)
        ensures
            r == (MyDid { did, crypto_type, pk, sk, verkey, signkey }),
    {
        MyDid { did, crypto_type, pk, sk, verkey, signkey }
    }

    /// The fields to write: a name and a text for each present field.
    pub fn to_fields(&self) -> (fields: Vec<(String, String)>)
        ensures
            fields_view(fields) == self@.fields(),
    {
        let mut fields: Vec<(String, String)> = Vec::new();
        proof {
            assert(fields_view(fields) =~= Seq::empty());
        }
        push_mandatory(&mut fields, "did", &self.did);
        push_mandatory(&mut fields, "crypto_type", &self.crypto_type);
        push_mandatory(&mut fields, "pk", &self.pk);
        push_mandatory(&mut fields, "sk", &self.sk);
        push_mandatory(&mut fields, "verkey", &self.verkey);
        push_mandatory(&mut fields, "signkey", &self.signkey);
        proof {
            assert(fields_view(fields) =~= self@.fields());
        }
        fields
    }

    /// The record as JSON text: one object, with a string entry for each
    /// present field and none for an absent one.
    pub fn encode(&self) -> (text: String)
        ensures
            text@ == json_text(self@.fields()),
    {
        print_object(&self.to_fields())
    }

    /// Reads the record from a parsed object.
    pub fn from_object(obj: &Object) -> (r: Result<MyDid, DecodeError>)
        ensures
            result_view(r) == MyDidView::from_object(obj@),
    {
        let did = match obj.read_mandatory("did") {
            Ok(value) => value,
            Err(e) => return Err(e),
        };
        let crypto_type = match obj.read_mandatory("crypto_type") {
            Ok(value) => value,
            Err(e) => return Err(e),
        };
        let pk = match obj.read_mandatory("pk") {
            Ok(value) => value,
            Err(e) => return Err(e),
        };
        let sk = match obj.read_mandatory("sk") {
            Ok(value) => value,
            Err(e) => return Err(e),
        };
        let verkey = match obj.read_mandatory("verkey") {
            Ok(value) => value,
            Err(e) => return Err(e),
        };
        let signkey = match obj.read_mandatory("signkey") {
            Ok(value) => value,
            Err(e) => return Err(e),
        };
        let did = match did {
            Some(text) => text,
            None => return Err(missing("did")),
        };
        let crypto_type = match crypto_type {
            Some(text) => text,
            None => return Err(missing("crypto_type")),
        };
        let pk = match pk {
            Some(text) => text,
            None => return Err(missing("pk")),
        };
        let sk = match sk {
            Some(text) => text,
            None => return Err(missing("sk")),
        };
        let verkey = match verkey {
            Some(text) => text,
            None => return Err(missing("verkey")),
        };
        let signkey = match signkey {
            Some(text) => text,
            None => return Err(missing("signkey")),
        };
        Ok(MyDid { did, crypto_type, pk, sk, verkey, signkey })
    }

    /// Reads the record from JSON text.
    pub fn decode(text: &str) -> (r: Result<MyDid, DecodeError>)
        ensures
            result_view(r) == MyDidView::decode(json_object(text@)),
    {
        match Object::parse(text) {
            Ok(obj) => Self::from_object(&obj),
            Err(e) => Err(e),
        }
    }
}

} // verus!
