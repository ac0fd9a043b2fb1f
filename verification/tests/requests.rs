use matrix_ids::delimited::RoomId;
use matrix_ids::error::{IdParseError, Rule};
use matrix_ids::event_id::{check_event_id, EventId};

#[test]
fn event_id_with_a_server_name() {
    let id = EventId::parse("$h29iv0s8:example.com").unwrap();
    assert_eq!(id.as_str(), "$h29iv0s8:example.com");
    assert_eq!(EventId::parse("$a:[::1]:8448").unwrap().as_str(), "$a:[::1]:8448");
}

#[test]
fn event_id_without_a_server_name() {
    let text = "$Rqnc-F-dvnEYJTyHq_iKxU2bZ1CI92-kuZq3a5lr5Zg";
    assert_eq!(EventId::parse(text).unwrap().as_str(), text);
    assert_eq!(EventId::parse("$x").unwrap().as_str(), "$x");
}

#[test]
fn event_id_each_rule_has_an_input() {
    let rule = |text: &str| {
        let err = EventId::parse(text).unwrap_err();
        assert_eq!(err.kind, "EventId");
        err.rule
    };
    assert_eq!(rule(""), Rule::MissingSigil);
    assert_eq!(rule("!abc:example.org"), Rule::MissingSigil);
    assert_eq!(rule("h29iv0s8:example.com"), Rule::MissingSigil);
    assert_eq!(rule("$"), Rule::EmptySegment);
    assert_eq!(rule("$:example.com"), Rule::EmptySegment);
    assert_eq!(rule("$abc:"), Rule::EmptySegment);
    assert_eq!(rule("$abc:exa mple.com"), Rule::InvalidServerName);
    assert_eq!(check_event_id(b"$abc:example.com:x"), Some(Rule::InvalidServerName));
    assert_eq!(check_event_id(b"$abc"), None);
    assert_eq!(
        EventId::parse("abc").unwrap_err(),
        IdParseError { kind: "EventId", rule: Rule::MissingSigil }
    );
}

#[test]
fn room_event_request_keeps_its_arguments() {
    let request = matrix_ids::room_event::Request::new(
        RoomId::parse("!abc:example.org").unwrap(),
        EventId::parse("$h29iv0s8:example.com").unwrap(),
        Some(true),
    );
    assert_eq!(request.room_id.as_str(), "!abc:example.org");
    assert_eq!(request.event_id.as_str(), "$h29iv0s8:example.com");
    assert_eq!(request.include_unredacted_content, Some(true));
}

#[test]
fn federation_event_request_keeps_its_arguments() {
    let request = matrix_ids::federation_event::Request::new(
        EventId::parse("$h29iv0s8:example.com").unwrap(),
        None,
    );
    assert_eq!(request.event_id.as_str(), "$h29iv0s8:example.com");
    assert_eq!(request.include_unredacted_content, None);
}

#[test]
fn initial_sync_request_holds_a_room_and_a_limit() {
    let request = matrix_ids::initial_sync::Request {
        room_id: RoomId::parse("!abc:example.org").unwrap(),
        limit: Some(20),
    };
    assert_eq!(request.room_id.as_str(), "!abc:example.org");
    assert_eq!(request.limit, Some(20));
}
