use matrix_ids::error::Rule;
use matrix_ids::ip::{check_ipv4, check_ipv6};
use matrix_ids::server_name::{check_server_name, ServerName};

fn broken(text: &str) -> Rule {
    let err = ServerName::parse(text).unwrap_err();
    assert_eq!(err.kind, "ServerName");
    err.rule
}

#[test]
fn server_name_dns_name() {
    let name = ServerName::parse("example.org").unwrap();
    assert_eq!(name.as_str(), "example.org");
    assert_eq!(name.as_id().host(), "example.org");
    assert_eq!(name.as_id().port(), None);
    assert!(!name.as_id().is_ip_literal());
}

#[test]
fn server_name_ipv6_literal() {
    let name = ServerName::parse("[2001:db8::1]").unwrap();
    assert_eq!(name.as_str(), "[2001:db8::1]");
    assert!(name.as_id().is_ip_literal());
    assert_eq!(name.as_id().host(), "[2001:db8::1]");
    assert_eq!(name.as_id().port(), None);
}

#[test]
fn server_name_illegal_character() {
    assert_eq!(broken("exa mple.org"), Rule::IllegalCharacter);
    assert_eq!(broken("ex\u{e4}mple.org"), Rule::IllegalCharacter);
    assert_eq!(broken("example_org"), Rule::IllegalCharacter);
}

#[test]
fn server_name_with_port() {
    let name = ServerName::parse("example.org:8448").unwrap();
    assert_eq!(name.as_id().host(), "example.org");
    assert_eq!(name.as_id().port(), Some(8448));
    let name = ServerName::parse("[::1]:65535").unwrap();
    assert_eq!(name.as_id().host(), "[::1]");
    assert_eq!(name.as_id().port(), Some(65535));
    let name = ServerName::parse("1.1.1.1:0").unwrap();
    assert_eq!(name.as_id().host(), "1.1.1.1");
    assert_eq!(name.as_id().port(), Some(0));
    assert!(name.as_id().is_ip_literal());
    let name = ServerName::parse("host:00080").unwrap();
    assert_eq!(name.as_id().port(), Some(80));
}

#[test]
fn server_name_ip_literals_are_told_from_names() {
    assert!(ServerName::try_from_str("192.0.2.1").unwrap().is_ip_literal());
    assert!(ServerName::try_from_str("[::]").unwrap().is_ip_literal());
    assert!(!ServerName::try_from_str("192.0.2").unwrap().is_ip_literal());
    assert!(!ServerName::try_from_str("192.0.2.256").unwrap().is_ip_literal());
    assert!(!ServerName::try_from_str("1.2.3.4.example.org").unwrap().is_ip_literal());
}

#[test]
fn server_name_empty_segments() {
    assert_eq!(broken(""), Rule::EmptySegment);
    assert_eq!(broken(":8448"), Rule::EmptySegment);
}

#[test]
fn server_name_invalid_ip_literal() {
    assert_eq!(broken("[::1"), Rule::InvalidIpLiteral);
    assert_eq!(broken("[zz]"), Rule::InvalidIpLiteral);
    assert_eq!(broken("[]"), Rule::InvalidIpLiteral);
    assert_eq!(broken("[1.2.3.4]"), Rule::InvalidIpLiteral);
    assert_eq!(broken("[1:2:3:4:5:6:7]"), Rule::InvalidIpLiteral);
}

#[test]
fn server_name_invalid_port() {
    assert_eq!(broken("example.org:"), Rule::InvalidPort);
    assert_eq!(broken("example.org:65536"), Rule::InvalidPort);
    assert_eq!(broken("example.org:123456"), Rule::InvalidPort);
    assert_eq!(broken("example.org:80a"), Rule::InvalidPort);
    assert_eq!(broken("example.org:+80"), Rule::InvalidPort);
    assert_eq!(broken("a:b:c"), Rule::InvalidPort);
    assert_eq!(broken("[::1]:"), Rule::InvalidPort);
}

#[test]
fn server_name_junk_after_bracket() {
    assert_eq!(broken("[::1]x"), Rule::IllegalCharacter);
    assert_eq!(broken("[::1]8448"), Rule::IllegalCharacter);
}

#[test]
fn server_name_validator_on_bytes() {
    assert_eq!(check_server_name(b"matrix.org"), None);
    assert_eq!(check_server_name(b"matrix-1.org:443"), None);
    assert_eq!(check_server_name(b"-"), None);
    assert_eq!(check_server_name(b"\xffmatrix.org"), Some(Rule::IllegalCharacter));
}

#[test]
fn ipv4_dotted_quads() {
    assert!(check_ipv4(b"0.0.0.0"));
    assert!(check_ipv4(b"255.255.255.255"));
    assert!(check_ipv4(b"192.0.2.1"));
    assert!(!check_ipv4(b"256.0.0.0"));
    assert!(!check_ipv4(b"01.0.0.0"));
    assert!(!check_ipv4(b"1.2.3"));
    assert!(!check_ipv4(b"1.2.3.4.5"));
    assert!(!check_ipv4(b"1..3.4"));
    assert!(!check_ipv4(b"1.2.3.4."));
    assert!(!check_ipv4(b".1.2.3.4"));
    assert!(!check_ipv4(b"a.b.c.d"));
    assert!(!check_ipv4(b"1.2.3.1234"));
    assert!(!check_ipv4(b""));
}

#[test]
fn ipv6_addresses() {
    assert!(check_ipv6(b"::"));
    assert!(check_ipv6(b"::1"));
    assert!(check_ipv6(b"1::"));
    assert!(check_ipv6(b"2001:db8::1"));
    assert!(check_ipv6(b"2001:DB8:1234::1"));
    assert!(check_ipv6(b"1:2:3:4:5:6:7:8"));
    assert!(check_ipv6(b"1:2:3:4:5:6:7::"));
    assert!(check_ipv6(b"::2:3:4:5:6:7:8"));
    assert!(check_ipv6(b"::ffff:1.2.3.4"));
    assert!(check_ipv6(b"1:2:3:4:5:6:1.2.3.4"));
    assert!(check_ipv6(b"1::1.2.3.4"));
    assert!(!check_ipv6(b""));
    assert!(!check_ipv6(b":"));
    assert!(!check_ipv6(b":::"));
    assert!(!check_ipv6(b"1:2:3:4:5:6:7"));
    assert!(!check_ipv6(b"1:2:3:4:5:6:7:8:9"));
    assert!(!check_ipv6(b"1:2:3:4:5:6:7:8::"));
    assert!(!check_ipv6(b"1::2::3"));
    assert!(!check_ipv6(b"1:::2"));
    assert!(!check_ipv6(b":1"));
    assert!(!check_ipv6(b"1:"));
    assert!(!check_ipv6(b"12345::"));
    assert!(!check_ipv6(b"g::"));
    assert!(!check_ipv6(b"1.2.3.4"));
    assert!(!check_ipv6(b"1.2.3.4::"));
    assert!(!check_ipv6(b"::1.2.3"));
    assert!(!check_ipv6(b"::1.2.3.4:5"));
    assert!(!check_ipv6(b"1:2:3:4:5:6:7:1.2.3.4"));
}
