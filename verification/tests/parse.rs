use matrix_ids::delimited::{OwnedRoomId, RoomAliasId, RoomId};
use matrix_ids::error::{IdParseError, Rule};
use matrix_ids::opaque::{DeviceId, DeviceIdKind, Tagged};
use matrix_ids::borrowed::Id;
use matrix_ids::shared::BoxedId;

#[derive(Debug)]
struct Signing;

#[test]
fn room_id_scenario() {
    let id = RoomId::parse("!abc:example.org").unwrap();
    assert_eq!(id.as_str(), "!abc:example.org");

    let err = RoomId::parse("abc:example.org").unwrap_err();
    assert_eq!(err, IdParseError { kind: "RoomId", rule: Rule::MissingSigil });

    let err = RoomId::parse("!abc:").unwrap_err();
    assert_eq!(err, IdParseError { kind: "RoomId", rule: Rule::EmptySegment });

    let err = RoomId::parse("!:example.org").unwrap_err();
    assert_eq!(err, IdParseError { kind: "RoomId", rule: Rule::EmptySegment });
}

#[test]
fn room_id_each_rule_has_an_input() {
    let rule = |text: &str| RoomId::parse(text).unwrap_err().rule;
    assert_eq!(rule(""), Rule::MissingSigil);
    assert_eq!(rule("#abc:example.org"), Rule::MissingSigil);
    assert_eq!(rule("!abc"), Rule::MissingDelimiter);
    assert_eq!(rule("!"), Rule::MissingDelimiter);
    assert_eq!(rule("!:"), Rule::EmptySegment);
    assert_eq!(rule("!abc:exa mple.org"), Rule::InvalidServerName);
    assert_eq!(rule("!abc:example.org:port"), Rule::InvalidServerName);
    assert_eq!(rule("!abc:[::1"), Rule::InvalidServerName);
    assert_eq!(rule("!abc::8448"), Rule::InvalidServerName);
}

#[test]
fn valid_text_parses_to_a_handle_with_that_text() {
    for text in [
        "!abc:example.org",
        "!a:b",
        "!n8f893n9:example.com",
        "!r\u{f6}\u{f6}m:example.org:8448",
        "!abc:[2001:db8::1]:8448",
        "!0123456789012345678901234567890123456789:a-very-long-server-name.example.org",
    ] {
        let owned = RoomId::parse(text).unwrap();
        assert_eq!(owned.as_str(), text);
        assert_eq!(owned.as_bytes(), text.as_bytes());
        assert_eq!(RoomId::parse_box(text).unwrap().as_str(), text);
        assert_eq!(RoomId::parse_rc(text).unwrap().as_str(), text);
        assert_eq!(RoomId::parse_arc(text).unwrap().as_str(), text);
        assert_eq!(RoomId::try_from_str(text).unwrap().as_str(), text);
    }
}

#[test]
fn invalid_text_gives_the_same_error_on_every_path() {
    for text in ["", "abc", "!abc", "!:x", "!abc:", "!abc:a b", "#abc:example.org"] {
        let err = RoomId::parse(text).unwrap_err();
        assert_eq!(err.kind, "RoomId");
        assert_eq!(RoomId::parse_box(text).unwrap_err(), err);
        assert_eq!(RoomId::parse_rc(text).unwrap_err(), err);
        assert_eq!(RoomId::parse_arc(text).unwrap_err(), err);
        assert_eq!(RoomId::try_from_str(text).unwrap_err(), err);
        assert_eq!(BoxedId::<matrix_ids::delimited::RoomIdKind>::try_from_string(text.to_owned())
            .unwrap_err(), err);
    }
}

#[test]
fn room_id_parts() {
    let id = RoomId::try_from_str("!abc:example.org:8448").unwrap();
    assert_eq!(id.localpart(), "abc");
    assert_eq!(id.server_name().as_str(), "example.org:8448");
    assert_eq!(id.server_name().host(), "example.org");
    assert_eq!(id.server_name().port(), Some(8448));

    let id = RoomId::try_from_str("!r\u{f6}\u{f6}m:[::1]").unwrap();
    assert_eq!(id.localpart(), "r\u{f6}\u{f6}m");
    assert_eq!(id.server_name().as_str(), "[::1]");
}

#[test]
fn room_alias_has_its_own_sigil_and_name() {
    let alias = RoomAliasId::parse("#lobby:example.org").unwrap();
    assert_eq!(alias.as_str(), "#lobby:example.org");
    assert_eq!(alias.as_id().alias(), "lobby");
    assert_eq!(alias.as_id().server_name().as_str(), "example.org");
    let err = RoomAliasId::parse("!lobby:example.org").unwrap_err();
    assert_eq!(err, IdParseError { kind: "RoomAliasId", rule: Rule::MissingSigil });
}

#[test]
fn optional_text_counts_as_empty_when_absent() {
    assert_eq!(RoomId::try_from_opt_str(Some("!abc:example.org")).unwrap().as_str(), "!abc:example.org");
    assert_eq!(RoomId::try_from_opt_str(None).unwrap_err().rule, Rule::MissingSigil);
    assert_eq!(DeviceId::try_from_opt_str(None).unwrap().as_str(), "");
}

#[test]
fn error_message_names_kind_and_rule() {
    let err = RoomId::parse("abc:example.org").unwrap_err();
    assert_eq!(err.message(), "invalid RoomId: missing leading sigil");
    let err = RoomId::parse("!abc").unwrap_err();
    assert_eq!(err.message(), "invalid RoomId: missing delimiter");
    let err = IdParseError { kind: "ServerName", rule: Rule::InvalidPort };
    assert_eq!(err.message(), "invalid ServerName: invalid port");
    assert_eq!(Rule::EmptySegment.description(), "empty segment");
    assert_eq!(Rule::IllegalCharacter.description(), "illegal character");
    assert_eq!(Rule::InvalidIpLiteral.description(), "invalid IP literal");
    assert_eq!(Rule::InvalidServerName.description(), "invalid server name");
}

#[test]
fn unchecked_kind_takes_any_text() {
    for text in ["", "JLAFKJWSCS", "any thing \u{1f600} at all"] {
        assert_eq!(DeviceId::parse(text).unwrap().as_str(), text);
        assert_eq!(DeviceId::from_borrowed(text).as_str(), text);
        assert_eq!(matrix_ids::opaque::OwnedDeviceId::from_text(text).as_str(), text);
        assert_eq!(matrix_ids::opaque::OwnedDeviceId::from_string(text.to_owned()).as_str(), text);
        assert_eq!(BoxedId::<DeviceIdKind>::from_text(text).as_str(), text);
        assert_eq!(BoxedId::<DeviceIdKind>::from_string(text.to_owned()).as_str(), text);
    }
}

#[test]
fn trusted_construction_of_a_checked_kind_keeps_the_text() {
    let id = RoomId::from_borrowed("!abc:example.org");
    assert_eq!(id.as_str(), "!abc:example.org");
    let owned = OwnedRoomId::from_string("!abc:example.org".to_owned());
    assert_eq!(owned.as_str(), "!abc:example.org");
}

#[test]
fn sub_kind_tag_changes_the_type_and_nothing_else() {
    let plain = RoomId::try_from_str("!abc:example.org").unwrap();
    let tagged: Id<'_, Tagged<matrix_ids::delimited::RoomIdKind, Signing>> = plain.tagged();
    assert_eq!(tagged.as_str(), "!abc:example.org");
    assert_eq!(tagged.untagged(), plain);
    let err = Id::<Tagged<matrix_ids::delimited::RoomIdKind, Signing>>::parse("abc").unwrap_err();
    assert_eq!(err, RoomId::parse("abc").unwrap_err());
}
