use matrix_ids::delimited::RoomId;
use matrix_ids::error::Rule;
use matrix_ids::opaque::DeviceId;
use serde_json::Value;

#[test]
fn json_string_is_validated_in_place() {
    let value = Value::String("!abc:example.org".to_owned());
    assert_eq!(RoomId::try_from_json(&value).unwrap().as_str(), "!abc:example.org");
    assert_eq!(RoomId::try_from_opt_json(Some(&value)).unwrap().as_str(), "!abc:example.org");
    let value = Value::String("abc".to_owned());
    assert_eq!(RoomId::try_from_json(&value).unwrap_err().rule, Rule::MissingSigil);
}

#[test]
fn json_value_that_is_no_string_counts_as_empty_text() {
    for value in [Value::Null, Value::Bool(true), Value::from(17), Value::Array(Vec::new())] {
        assert_eq!(RoomId::try_from_json(&value).unwrap_err().rule, Rule::MissingSigil);
        assert_eq!(DeviceId::try_from_json(&value).unwrap().as_str(), "");
    }
    assert_eq!(RoomId::try_from_opt_json(None).unwrap_err().rule, Rule::MissingSigil);
    assert_eq!(DeviceId::try_from_opt_json(None).unwrap().as_str(), "");
}

#[test]
fn json_string_is_read_whatever_it_holds() {
    for text in ["", "JLAFKJWSCS", "r\u{f6}\u{f6}m \"quoted\""] {
        let value = Value::String(text.to_owned());
        assert_eq!(DeviceId::try_from_json(&value).unwrap().as_str(), text);
        assert_eq!(DeviceId::try_from_opt_json(Some(&value)).unwrap().as_str(), text);
    }
    let value = Value::String("!abc:exa mple.org".to_owned());
    assert_eq!(RoomId::try_from_json(&value).unwrap_err().rule, Rule::InvalidServerName);
    assert_eq!(RoomId::try_from_opt_json(Some(&value)).unwrap_err().rule, Rule::InvalidServerName);
}
