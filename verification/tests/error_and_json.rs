use subathon_timer::error::Error;
use subathon_timer::json::JsonValue;

fn s(x: &str) -> String {
    x.to_string()
}

fn obj(members: Vec<(&str, JsonValue)>) -> JsonValue {
    JsonValue::Object(members.into_iter().map(|(k, v)| (k.to_string(), v)).collect())
}

#[test]
fn error_constructors_hold_their_arguments() {
    match Error::ftp("str", "f64") {
        Error::FailedToParse(a, b) => {
            assert_eq!(a, "str");
            assert_eq!(b, "f64");
        }
        other => panic!("unexpected {:?}", other),
    }
    match Error::knf("data") {
        Error::KeyNotFound(k) => assert_eq!(k, "data"),
        other => panic!("unexpected {:?}", other),
    }
    match Error::cne("obj") {
        Error::CouldNotExtract(t) => assert_eq!(t, "obj"),
        other => panic!("unexpected {:?}", other),
    }
}

#[test]
fn error_messages() {
    assert_eq!(Error::cne("obj").to_string(), "Could not extract as type \"obj\"");
    assert_eq!(Error::ftp("str", "f64").to_string(), "Failed to parse \"str\" to \"f64\"");
    assert_eq!(Error::knf("data").to_string(), "Key not found: \"data\"");
}

#[test]
fn get_finds_first_matching_member() {
    let v = obj(vec![("a", JsonValue::Bool(true)), ("b", JsonValue::Str(s("x"))), ("b", JsonValue::Null)]);
    assert!(matches!(v.get("a"), Some(JsonValue::Bool(true))));
    assert!(matches!(v.get("b"), Some(JsonValue::Str(t)) if t == "x"));
    assert!(v.get("c").is_none());
    assert!(JsonValue::Str(s("b")).get("b").is_none());
}

#[test]
fn extract_object_key_messages() {
    let v = obj(vec![("k", JsonValue::Null)]);
    assert!(matches!(v.extract_object_key("k"), Ok(JsonValue::Null)));
    assert_eq!(v.extract_object_key("z").unwrap_err(), "Value not found");
    assert_eq!(JsonValue::Null.extract_object_key("k").unwrap_err(), "Not an object");
}

#[test]
fn extract_typed_members() {
    let v = obj(vec![
        ("name", JsonValue::Str(s("kofi"))),
        ("n", JsonValue::Number(7.5f64.to_bits())),
        ("o", obj(vec![("x", JsonValue::Null)])),
    ]);
    assert_eq!(v.extract_object_str("name").unwrap(), "kofi");
    assert_eq!(v.extract_object_str("n").unwrap_err(), "Not a string");
    assert_eq!(v.extract_object_str("zz").unwrap_err(), "Value not found");
    assert_eq!(f64::from_bits(v.extract_object_f64("n").unwrap()), 7.5);
    assert_eq!(v.extract_object_f64("name").unwrap_err(), "Not a string");
    assert_eq!(v.extract_object_obj("o").unwrap().len(), 1);
    assert_eq!(v.extract_object_obj("name").unwrap_err(), "Not an object");
    assert_eq!(JsonValue::Bool(false).extract_object_obj("o").unwrap_err(), "Not an object");
}

#[test]
fn extract_plain_values() {
    assert_eq!(JsonValue::Str(s("hi")).extract_str().unwrap(), "hi");
    assert_eq!(JsonValue::Null.extract_str().unwrap_err(), "Not a string");
    assert_eq!(JsonValue::Number(3.0f64.to_bits()).extract_f64().unwrap(), 3.0f64.to_bits());
    assert_eq!(JsonValue::Array(vec![]).extract_f64().unwrap_err(), "Not a string");
    assert!(obj(vec![]).extract_obj().unwrap().is_empty());
    assert_eq!(JsonValue::Str(s("x")).extract_obj().unwrap_err(), "Not an object");
}
