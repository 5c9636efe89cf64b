use signus::json::{missing, push_mandatory, push_optional};
use signus::{DecodeError, MyDid, MyDidInfo, Object, Slot, TheirDid, TheirDidInfo};

fn s(text: &str) -> String {
    text.to_string()
}

fn text(name: &str, value: &str) -> (String, Slot) {
    (s(name), Slot::Text(s(value)))
}

fn slot_text(slot: Option<&Slot>) -> Option<String> {
    match slot {
        Some(Slot::Text(t)) => Some(t.clone()),
        _ => None,
    }
}

#[test]
fn parse_hands_out_the_entries() {
    let obj = Object::parse("{\"b\":\"x\",\"a\":null,\"c\":[1],\"d\":{\"a\":\"y\"},\"e\":1.5,\"f\":false}").unwrap();
    assert_eq!(obj.entries.len(), 6);
    assert_eq!(slot_text(obj.find("b")), Some(s("x")));
    assert!(matches!(obj.find("a"), Some(Slot::Null)));
    assert!(matches!(obj.find("c"), Some(Slot::Other)));
    assert!(matches!(obj.find("d"), Some(Slot::Other)));
    assert!(matches!(obj.find("e"), Some(Slot::Other)));
    assert!(matches!(obj.find("f"), Some(Slot::Other)));
    assert!(obj.find("g").is_none());
    assert!(obj.find("").is_none());
}

#[test]
fn parse_fails_on_what_is_no_object() {
    assert_eq!(Object::parse("").unwrap_err(), DecodeError::Malformed);
    assert_eq!(Object::parse("[]").unwrap_err(), DecodeError::Malformed);
    assert_eq!(Object::parse("{\"a\":}").unwrap_err(), DecodeError::Malformed);
    assert_eq!(Object::parse("{}").unwrap().entries.len(), 0);
}

#[test]
fn find_takes_the_first_entry_of_a_name() {
    let obj = Object { entries: vec![text("a", "1"), text("b", "2"), text("a", "3")] };
    assert_eq!(slot_text(obj.find("a")), Some(s("1")));
    assert_eq!(slot_text(obj.find("b")), Some(s("2")));
    assert!(obj.find("c").is_none());
}

#[test]
fn read_mandatory_tells_the_three_cases_apart() {
    let obj = Object {
        entries: vec![text("a", "1"), (s("n"), Slot::Null), (s("o"), Slot::Other)],
    };
    assert_eq!(obj.read_mandatory("a"), Ok(Some(s("1"))));
    assert_eq!(obj.read_mandatory("x"), Ok(None));
    assert_eq!(obj.read_mandatory("n"), Err(DecodeError::Malformed));
    assert_eq!(obj.read_mandatory("o"), Err(DecodeError::Malformed));
}

#[test]
fn read_optional_takes_null_for_absent() {
    let obj = Object {
        entries: vec![text("a", "1"), (s("n"), Slot::Null), (s("o"), Slot::Other)],
    };
    assert_eq!(obj.read_optional("a"), Ok(Some(s("1"))));
    assert_eq!(obj.read_optional("x"), Ok(None));
    assert_eq!(obj.read_optional("n"), Ok(None));
    assert_eq!(obj.read_optional("o"), Err(DecodeError::Malformed));
}

#[test]
fn to_fields_lists_the_present_fields_in_order() {
    let did = MyDid::new(s("d"), s("c"), s("p"), s("s"), s("v"), s("g"));
    assert_eq!(
        did.to_fields(),
        vec![
            (s("did"), s("d")),
            (s("crypto_type"), s("c")),
            (s("pk"), s("p")),
            (s("sk"), s("s")),
            (s("verkey"), s("v")),
            (s("signkey"), s("g")),
        ]
    );
    let their = TheirDid::new(s("d"), s("c"), None, Some(s("p")));
    assert_eq!(
        their.to_fields(),
        vec![(s("did"), s("d")), (s("crypto_type"), s("c")), (s("pk"), s("p"))]
    );
    let info = MyDidInfo::new(None, None, None);
    assert_eq!(info.to_fields(), Vec::<(String, String)>::new());
}

#[test]
fn from_object_reads_what_to_fields_wrote() {
    let their = TheirDidInfo::new(s("d"), None, Some(s("v")));
    let mut entries = Vec::new();
    for (name, value) in their.to_fields() {
        entries.push((name, Slot::Text(value)));
    }
    let back = TheirDidInfo::from_object(&Object { entries }).unwrap();
    assert_eq!(back.did, "d");
    assert_eq!(back.crypto_type, None);
    assert_eq!(back.verkey, Some(s("v")));
}

#[test]
fn from_object_passes_over_an_entry_put_in_anywhere() {
    let base = vec![text("did", "d"), text("crypto_type", "c"), text("pk", "p")];
    for i in 0..=base.len() {
        let mut entries = base.clone();
        entries.insert(i, (s("seed"), Slot::Other));
        let back = TheirDid::from_object(&Object { entries }).unwrap();
        assert_eq!(back.did, "d");
        assert_eq!(back.crypto_type, "c");
        assert_eq!(back.verkey, None);
        assert_eq!(back.pk, Some(s("p")));
    }
}

#[test]
fn from_object_names_the_missing_field() {
    let obj = Object { entries: vec![text("did", "d"), text("crypto_type", "c"), text("pk", "p")] };
    assert_eq!(MyDid::from_object(&obj).unwrap_err(), DecodeError::MissingField(s("sk")));
    let obj = Object { entries: vec![(s("did"), Slot::Null)] };
    assert_eq!(MyDid::from_object(&obj).unwrap_err(), DecodeError::Malformed);
}

#[test]
fn push_helpers_append_present_fields() {
    let mut fields: Vec<(String, String)> = Vec::new();
    push_mandatory(&mut fields, "did", &s("d"));
    push_optional(&mut fields, "seed", &None);
    push_optional(&mut fields, "pk", &Some(s("p")));
    assert_eq!(fields, vec![(s("did"), s("d")), (s("pk"), s("p"))]);
    assert_eq!(missing("sk"), DecodeError::MissingField(s("sk")));
}

#[test]
fn message_names_the_missing_field() {
    assert_eq!(DecodeError::Malformed.message(), "malformed text");
    assert_eq!(DecodeError::MissingField(s("sk")).message(), "missing field `sk`");
    let err = MyDid::decode("{\"did\":\"d\"}").unwrap_err();
    assert_eq!(err.message(), "missing field `crypto_type`");
}
