use signus::{DecodeError, MyDid, MyDidInfo, MyKyesInfo, TheirDid, TheirDidInfo};

const DID: &str = "VsKV7grR1BUE29mG2Fm2kX";
const PK: &str = "GjZWsBLgZCR18aL468JAT7w9CZRiBnpxUPPgyQxh4voa";
const SK: &str = "4bGzdCpP2jmY9jRZ1zVbMR4tzc8EmicKrFdoD2QpS9hVnNDZ5YrH5vrDMsgRnJpFb6CxLAzrbbXvKcDxJ1tWbxMS";
const VERKEY: &str = "CnEDk9HrMnmiHXEV1WFgbVCRteYnPqsJwrTdcZaNhFVW";
const SIGNKEY: &str = "2mHJ3TnXrEq7RkYjWUTPHcRN8NQYsJXgKPPEJmHQXMYsHhnpDSaKVeZfMdmcBaeUBzkLsBtZvL7hXoGhXmBpw9Rv";

fn s(text: &str) -> String {
    text.to_string()
}

fn sample_my_did() -> MyDid {
    MyDid::new(s(DID), s("ed25519"), s(PK), s(SK), s(VERKEY), s(SIGNKEY))
}

#[test]
fn my_did_info_with_seed_only() {
    let info = MyDidInfo::new(None, Some(s("000000000000000000000000Steward1")), None);
    let text = info.encode();
    assert_eq!(text, "{\"seed\":\"000000000000000000000000Steward1\"}");
    let back = MyDidInfo::decode(&text).unwrap();
    assert_eq!(back.did, None);
    assert_eq!(back.seed, Some(s("000000000000000000000000Steward1")));
    assert_eq!(back.crypto_type, None);
}

#[test]
fn my_did_round_trips() {
    let did = sample_my_did();
    let text = did.encode();
    let expected = format!(
        "{{\"crypto_type\":\"ed25519\",\"did\":\"{}\",\"pk\":\"{}\",\"signkey\":\"{}\",\"sk\":\"{}\",\"verkey\":\"{}\"}}",
        DID, PK, SIGNKEY, SK, VERKEY
    );
    assert_eq!(text, expected);
    let back = MyDid::decode(&text).unwrap();
    assert_eq!(back.did, DID);
    assert_eq!(back.crypto_type, "ed25519");
    assert_eq!(back.pk, PK);
    assert_eq!(back.sk, SK);
    assert_eq!(back.verkey, VERKEY);
    assert_eq!(back.signkey, SIGNKEY);
}

#[test]
fn my_did_without_sk_names_sk() {
    let text = format!(
        "{{\"did\":\"{}\",\"crypto_type\":\"ed25519\",\"pk\":\"{}\",\"verkey\":\"{}\",\"signkey\":\"{}\"}}",
        DID, PK, VERKEY, SIGNKEY
    );
    let err = MyDid::decode(&text).unwrap_err();
    assert_eq!(err, DecodeError::MissingField(s("sk")));
    assert_eq!(err.missing_field(), Some(s("sk")));
}

#[test]
fn my_did_needs_every_field() {
    let names = ["did", "crypto_type", "pk", "sk", "verkey", "signkey"];
    for left_out in names.iter() {
        let mut parts: Vec<String> = Vec::new();
        for name in names.iter() {
            if name != left_out {
                parts.push(format!("\"{}\":\"v\"", name));
            }
        }
        let text = format!("{{{}}}", parts.join(","));
        let err = MyDid::decode(&text).unwrap_err();
        assert_eq!(err, DecodeError::MissingField(s(left_out)));
    }
}

#[test]
fn my_did_names_the_first_missing_field() {
    let err = MyDid::decode("{\"did\":\"d\",\"signkey\":\"k\"}").unwrap_err();
    assert_eq!(err, DecodeError::MissingField(s("crypto_type")));
    let err = MyDid::decode("{}").unwrap_err();
    assert_eq!(err, DecodeError::MissingField(s("did")));
}

#[test]
fn their_did_info_with_did_only() {
    let info = TheirDidInfo::new(s(DID), None, None);
    let text = info.encode();
    assert_eq!(text, "{\"did\":\"VsKV7grR1BUE29mG2Fm2kX\"}");
    let back = TheirDidInfo::decode(&text).unwrap();
    assert_eq!(back.did, DID);
    assert_eq!(back.crypto_type, None);
    assert_eq!(back.verkey, None);
}

#[test]
fn empty_and_malformed_text_fails_for_every_record() {
    let texts = ["", " ", "{", "}", "{\"did\"", "{\"did\":}", "did=x", "{\"did\":\"x\",}", "{} {}"];
    for text in texts.iter() {
        assert_eq!(MyDidInfo::decode(text).unwrap_err(), DecodeError::Malformed);
        assert_eq!(MyKyesInfo::decode(text).unwrap_err(), DecodeError::Malformed);
        assert_eq!(MyDid::decode(text).unwrap_err(), DecodeError::Malformed);
        assert_eq!(TheirDidInfo::decode(text).unwrap_err(), DecodeError::Malformed);
        assert_eq!(TheirDid::decode(text).unwrap_err(), DecodeError::Malformed);
    }
}

#[test]
fn text_that_is_no_object_fails_for_every_record() {
    let texts = ["null", "true", "17", "\"did\"", "[]", "[\"a\",\"b\",\"c\"]"];
    for text in texts.iter() {
        assert_eq!(MyDidInfo::decode(text).unwrap_err(), DecodeError::Malformed);
        assert_eq!(MyKyesInfo::decode(text).unwrap_err(), DecodeError::Malformed);
        assert_eq!(MyDid::decode(text).unwrap_err(), DecodeError::Malformed);
        assert_eq!(TheirDidInfo::decode(text).unwrap_err(), DecodeError::Malformed);
        assert_eq!(TheirDid::decode(text).unwrap_err(), DecodeError::Malformed);
    }
}

#[test]
fn my_did_info_round_trips_all_absent_and_all_present() {
    let none = MyDidInfo::new(None, None, None);
    assert_eq!(none.encode(), "{}");
    let back = MyDidInfo::decode(&none.encode()).unwrap();
    assert_eq!((back.did, back.seed, back.crypto_type), (None, None, None));

    let all = MyDidInfo::new(Some(s(DID)), Some(s("seed")), Some(s("ed25519")));
    let text = all.encode();
    assert_eq!(
        text,
        "{\"crypto_type\":\"ed25519\",\"did\":\"VsKV7grR1BUE29mG2Fm2kX\",\"seed\":\"seed\"}"
    );
    let back = MyDidInfo::decode(&text).unwrap();
    assert_eq!(back.did, Some(s(DID)));
    assert_eq!(back.seed, Some(s("seed")));
    assert_eq!(back.crypto_type, Some(s("ed25519")));
}

#[test]
fn my_keys_info_round_trips_all_absent_and_all_present() {
    let none = MyKyesInfo::new(None, None);
    assert_eq!(none.encode(), "{}");
    let back = MyKyesInfo::decode("{}").unwrap();
    assert_eq!((back.seed, back.crypto_type), (None, None));

    let all = MyKyesInfo::new(Some(s("seed")), Some(s("ed25519")));
    let text = all.encode();
    assert_eq!(text, "{\"crypto_type\":\"ed25519\",\"seed\":\"seed\"}");
    let back = MyKyesInfo::decode(&text).unwrap();
    assert_eq!(back.seed, Some(s("seed")));
    assert_eq!(back.crypto_type, Some(s("ed25519")));
}

#[test]
fn their_did_info_round_trips_all_present() {
    let all = TheirDidInfo::new(s(DID), Some(s("ed25519")), Some(s(VERKEY)));
    let back = TheirDidInfo::decode(&all.encode()).unwrap();
    assert_eq!(back.did, DID);
    assert_eq!(back.crypto_type, Some(s("ed25519")));
    assert_eq!(back.verkey, Some(s(VERKEY)));
}

#[test]
fn their_did_round_trips_all_absent_and_all_present() {
    let bare = TheirDid::new(s(DID), s("ed25519"), None, None);
    let text = bare.encode();
    assert_eq!(text, "{\"crypto_type\":\"ed25519\",\"did\":\"VsKV7grR1BUE29mG2Fm2kX\"}");
    let back = TheirDid::decode(&text).unwrap();
    assert_eq!(back.did, DID);
    assert_eq!(back.crypto_type, "ed25519");
    assert_eq!((back.verkey, back.pk), (None, None));

    let full = TheirDid::new(s(DID), s("ed25519"), Some(s(VERKEY)), Some(s(PK)));
    let back = TheirDid::decode(&full.encode()).unwrap();
    assert_eq!(back.did, DID);
    assert_eq!(back.crypto_type, "ed25519");
    assert_eq!(back.verkey, Some(s(VERKEY)));
    assert_eq!(back.pk, Some(s(PK)));
}

#[test]
fn their_records_need_their_mandatory_fields() {
    let err = TheirDidInfo::decode("{\"verkey\":\"k\"}").unwrap_err();
    assert_eq!(err, DecodeError::MissingField(s("did")));
    let err = TheirDid::decode("{\"crypto_type\":\"ed25519\"}").unwrap_err();
    assert_eq!(err, DecodeError::MissingField(s("did")));
    let err = TheirDid::decode("{\"did\":\"d\",\"verkey\":\"k\"}").unwrap_err();
    assert_eq!(err, DecodeError::MissingField(s("crypto_type")));
}

#[test]
fn an_empty_string_is_not_an_absent_field() {
    let info = MyDidInfo::new(Some(s("")), None, None);
    let text = info.encode();
    assert_eq!(text, "{\"did\":\"\"}");
    let back = MyDidInfo::decode(&text).unwrap();
    assert_eq!(back.did, Some(s("")));
    assert_eq!(back.seed, None);
}

#[test]
fn unknown_entries_are_passed_over() {
    let text = "{\"extra\":{\"did\":[1,2]},\"did\":\"d\",\"n\":5,\"crypto_type\":\"c\",\"z\":null}";
    let back = TheirDid::decode(text).unwrap();
    assert_eq!(back.did, "d");
    assert_eq!(back.crypto_type, "c");
    assert_eq!((back.verkey, back.pk), (None, None));
    let info = MyKyesInfo::decode("{\"did\":\"d\",\"pk\":7}").unwrap();
    assert_eq!((info.seed, info.crypto_type), (None, None));
}

#[test]
fn the_order_of_the_entries_does_not_count() {
    let a = TheirDidInfo::decode("{\"did\":\"d\",\"crypto_type\":\"c\",\"verkey\":\"k\"}").unwrap();
    let b = TheirDidInfo::decode(" { \"verkey\" : \"k\", \"did\" : \"d\",\n \"crypto_type\" : \"c\" } ").unwrap();
    assert_eq!((a.did, a.crypto_type, a.verkey), (b.did, b.crypto_type, b.verkey));
}

#[test]
fn null_stands_for_an_absent_optional_field_only() {
    let info = TheirDidInfo::decode("{\"did\":\"d\",\"verkey\":null}").unwrap();
    assert_eq!(info.verkey, None);
    let err = TheirDidInfo::decode("{\"did\":null}").unwrap_err();
    assert_eq!(err, DecodeError::Malformed);
}

#[test]
fn a_value_of_the_wrong_kind_is_malformed() {
    assert_eq!(MyDidInfo::decode("{\"seed\":5}").unwrap_err(), DecodeError::Malformed);
    assert_eq!(MyKyesInfo::decode("{\"crypto_type\":[]}").unwrap_err(), DecodeError::Malformed);
    assert_eq!(TheirDid::decode("{\"did\":true}").unwrap_err(), DecodeError::Malformed);
    // The wrong kind comes before a missing field.
    assert_eq!(MyDid::decode("{\"signkey\":{}}").unwrap_err(), DecodeError::Malformed);
    assert_eq!(DecodeError::Malformed.missing_field(), None);
}

#[test]
fn texts_with_special_characters_round_trip() {
    let seed = "quote \" backslash \\ newline \n tab \t unicode \u{00e9}\u{4e2d}\u{1f600} nul \u{0}";
    let info = MyKyesInfo::new(Some(s(seed)), Some(s("{\"seed\":null}")));
    let back = MyKyesInfo::decode(&info.encode()).unwrap();
    assert_eq!(back.seed, Some(s(seed)));
    assert_eq!(back.crypto_type, Some(s("{\"seed\":null}")));
}

#[test]
fn new_keeps_the_fields_as_given() {
    let did = sample_my_did();
    assert_eq!(did.did, DID);
    assert_eq!(did.crypto_type, "ed25519");
    assert_eq!(did.pk, PK);
    assert_eq!(did.sk, SK);
    assert_eq!(did.verkey, VERKEY);
    assert_eq!(did.signkey, SIGNKEY);
    let their = TheirDid::new(s("d"), s("c"), Some(s("v")), None);
    assert_eq!(their.did, "d");
    assert_eq!(their.crypto_type, "c");
    assert_eq!(their.verkey, Some(s("v")));
    assert_eq!(their.pk, None);
    let info = TheirDidInfo::new(s("d"), None, Some(s("v")));
    assert_eq!((info.did, info.crypto_type, info.verkey), (s("d"), None, Some(s("v"))));
    let mine = MyDidInfo::new(Some(s("d")), None, Some(s("c")));
    assert_eq!((mine.did, mine.seed, mine.crypto_type), (Some(s("d")), None, Some(s("c"))));
    let keys = MyKyesInfo::new(None, Some(s("c")));
    assert_eq!((keys.seed, keys.crypto_type), (None, Some(s("c"))));
}
