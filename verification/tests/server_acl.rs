use matrix_ids::server_acl::RoomServerAclEventContent;
use matrix_ids::server_name::ServerName;

fn server_name(text: &str) -> ServerName<'_> {
    ServerName::try_from_str(text).unwrap()
}

#[test]
fn acl_ignores_port() {
    let acl_event = RoomServerAclEventContent {
        allow_ip_literals: true,
        allow: vec!["*".to_owned()],
        deny: vec!["1.1.1.1".to_owned()],
    };
    assert!(!acl_event.is_allowed(&server_name("1.1.1.1:8000")));
}

#[test]
fn acl_allow_ip_literal() {
    let acl_event = RoomServerAclEventContent {
        allow_ip_literals: true,
        allow: vec!["*".to_owned()],
        deny: Vec::new(),
    };
    assert!(acl_event.is_allowed(&server_name("1.1.1.1")));
}

#[test]
fn acl_deny_ip_literal() {
    let acl_event = RoomServerAclEventContent {
        allow_ip_literals: false,
        allow: vec!["*".to_owned()],
        deny: Vec::new(),
    };
    assert!(!acl_event.is_allowed(&server_name("1.1.1.1")));
}

#[test]
fn acl_deny() {
    let acl_event = RoomServerAclEventContent {
        allow_ip_literals: false,
        allow: vec!["*".to_owned()],
        deny: vec!["matrix.org".to_owned()],
    };
    assert!(!acl_event.is_allowed(&server_name("matrix.org")));
    assert!(acl_event.is_allowed(&server_name("conduit.rs")));
}

#[test]
fn acl_explicit_allow() {
    let acl_event = RoomServerAclEventContent {
        allow_ip_literals: false,
        allow: vec!["conduit.rs".to_owned()],
        deny: Vec::new(),
    };
    assert!(!acl_event.is_allowed(&server_name("matrix.org")));
    assert!(acl_event.is_allowed(&server_name("conduit.rs")));
}

#[test]
fn acl_explicit_glob_1() {
    let acl_event = RoomServerAclEventContent {
        allow_ip_literals: false,
        allow: vec!["*.matrix.org".to_owned()],
        deny: Vec::new(),
    };
    assert!(!acl_event.is_allowed(&server_name("matrix.org")));
    assert!(acl_event.is_allowed(&server_name("server.matrix.org")));
}

#[test]
fn acl_explicit_glob_2() {
    let acl_event = RoomServerAclEventContent {
        allow_ip_literals: false,
        allow: vec!["matrix??.org".to_owned()],
        deny: Vec::new(),
    };
    assert!(!acl_event.is_allowed(&server_name("matrix1.org")));
    assert!(acl_event.is_allowed(&server_name("matrix02.org")));
}

#[test]
fn acl_ipv6_glob() {
    let acl_event = RoomServerAclEventContent {
        allow_ip_literals: true,
        allow: vec!["[2001:db8:1234::1]".to_owned()],
        deny: Vec::new(),
    };
    assert!(!acl_event.is_allowed(&server_name("[2001:db8:1234::2]")));
    assert!(acl_event.is_allowed(&server_name("[2001:db8:1234::1]")));
}

#[test]
fn acl_lists_are_searched_for_patterns_and_for_entries() {
    let acl_event = RoomServerAclEventContent::new(
        false,
        vec!["*.example.org".to_owned(), "conduit.rs".to_owned()],
        Vec::new(),
    );
    assert!(acl_event.allow_matches("a.example.org"));
    assert!(!acl_event.allow_matches("example.org"));
    assert!(acl_event.allow_contains("*.example.org"));
    assert!(!acl_event.allow_contains("a.example.org"));
    assert!(!acl_event.deny_matches("conduit.rs"));
    assert!(!acl_event.deny_contains("conduit.rs"));
    assert!(!acl_event.allow_is_empty());
    assert!(acl_event.deny_is_empty());
}

#[test]
fn acl_with_empty_allow_list_allows_nothing() {
    let acl_event = RoomServerAclEventContent::new(true, Vec::new(), Vec::new());
    assert!(!acl_event.is_allowed(&server_name("example.org")));
    assert!(!acl_event.is_allowed(&server_name("[::1]:8448")));
}

fn reference_match(pattern: &[char], text: &[char]) -> bool {
    match pattern.split_first() {
        None => text.is_empty(),
        Some((&'*', rest)) => {
            reference_match(rest, text) || (!text.is_empty() && reference_match(pattern, &text[1..]))
        }
        Some((&p, rest)) => {
            !text.is_empty() && (p == '?' || p == text[0]) && reference_match(rest, &text[1..])
        }
    }
}

fn words(alphabet: &[char], max_len: usize) -> Vec<String> {
    let mut all = vec![String::new()];
    let mut last = vec![String::new()];
    for _ in 0..max_len {
        let mut next = Vec::new();
        for word in &last {
            for c in alphabet {
                let mut longer = word.clone();
                longer.push(*c);
                next.push(longer);
            }
        }
        all.extend(next.iter().cloned());
        last = next;
    }
    all
}

#[test]
fn patterns_match_as_wildcards_are_defined() {
    let texts = words(&['a', 'b'], 5);
    let patterns = words(&['a', 'b', '*', '?'], 4);
    assert_eq!(texts.len(), 63);
    assert_eq!(patterns.len(), 341);
    for pattern in &patterns {
        let acl = RoomServerAclEventContent::new(true, vec![pattern.clone()], Vec::new());
        let p: Vec<char> = pattern.chars().collect();
        for text in &texts {
            let t: Vec<char> = text.chars().collect();
            assert_eq!(acl.allow_matches(text), reference_match(&p, &t));
        }
    }
}

#[test]
fn wildcards_match_characters_not_bytes() {
    let acl = RoomServerAclEventContent::new(true, vec!["?".to_owned(), "a*\u{e9}".to_owned()], Vec::new());
    assert!(acl.allow_matches("\u{e9}"));
    assert!(acl.allow_matches("\u{1f600}"));
    assert!(!acl.allow_matches(""));
    assert!(!acl.allow_matches("ab"));
    assert!(acl.allow_matches("a\u{e9}"));
    assert!(acl.allow_matches("abc\u{e9}"));
    assert!(!acl.allow_matches("abc\u{e9}d"));
    assert!(acl.allow_contains("?"));
    assert!(!acl.allow_contains("\u{e9}"));
}
