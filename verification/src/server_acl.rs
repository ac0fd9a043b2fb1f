//! The content of a room's server access-control list, and the decision it
//! makes about a server name.
use vstd::prelude::*;
use vstd::utf8::*;
use wildmatch::WildMatch;
use crate::server_name::{
    host_bytes, is_ip_literal_name, is_server_name, lemma_host_ends, ServerName,
};
use crate::text::str_eq;

verus! {

/// Whether the wildcard `pattern` matches the whole of `text`: `*` stands for
/// any number of characters, none included, `?` for exactly one character, and
/// every other character for itself.
pub open spec fn glob_match(pattern: Seq<char>, text: Seq<char>) -> bool
    decreases pattern.len(), text.len(),
{
    if pattern.len() == 0 {
        text.len() == 0
    } else if pattern[0] == '*' {
        glob_match(pattern.drop_first(), text) || (text.len() > 0 && glob_match(
            pattern,
            text.drop_first(),
        ))
    } else {
        &&& text.len() > 0
        &&& (pattern[0] == '?' || pattern[0] == text[0])
        &&& glob_match(pattern.drop_first(), text.drop_first())
    }
}

/// `wildmatch::WildMatch::new(pattern).matches(text)`: whether the pattern,
/// with `*` for any run of characters and `?` for any one character, matches
/// the entire text, as the documentation of `wildmatch` defines it.
#[verifier::external_body]
fn wild_matches(pattern: &str, text: &str) -> (matched: bool)
    ensures
        matched == glob_match(pattern@, text@),
{
    WildMatch::new(pattern).matches(text)
}

/// Whether some pattern of `list` matches `host`.
pub open spec fn any_match(list: Seq<String>, host: Seq<char>) -> bool {
    exists|i: int| 0 <= i < list.len() && glob_match(#[trigger] list[i]@, host)
}

/// Whether some entry of `list` is exactly `host`.
pub open spec fn any_equal(list: Seq<String>, host: Seq<char>) -> bool {
    exists|i: int| 0 <= i < list.len() && #[trigger] list[i]@ == host
}

/// The content of an `m.room.server_acl` event: which servers may take part in
/// a room.
#[derive(Clone, Debug)]
pub struct RoomServerAclEventContent {
    /// Whether to allow server names that are IP address literals.
    pub allow_ip_literals: bool,
    /// The server names to allow in the room, without port. `*` matches zero or
    /// more characters and `?` matches exactly one. An empty list allows no
    /// server.
    pub allow: Vec<String>,
    /// The server names to disallow in the room, without port, with the same
    /// wildcards.
    pub deny: Vec<String>,
}

impl RoomServerAclEventContent {
    /// What [`RoomServerAclEventContent::is_allowed`] decides for the server
    /// name with the bytes `name`: IP literals pass only where they are
    /// allowed, and the host must match no pattern of the deny list and some
    /// pattern of the allow list.
    pub open spec fn allows(&self, name: Seq<u8>) -> bool {
        let host = decode_utf8(host_bytes(name));
        &&& self.allow_ip_literals || !is_ip_literal_name(name)
        &&& !any_match(self.deny@, host)
        &&& any_match(self.allow@, host)
    }

    /// Creates a new `RoomServerAclEventContent` with the given IP literal
    /// allowance flag, allowed and denied servers.
    pub fn new(allow_ip_literals: bool, allow: Vec<String>, deny: Vec<String>) -> (content: Self)
        ensures
            content.allow_ip_literals == allow_ip_literals,
            content.allow == allow,
            content.deny == deny,
    {
        Self { allow_ip_literals, allow, deny }
    }

    /// Returns true if and only if the server is allowed by the ACL rules.
    pub fn is_allowed(&self, server_name: &ServerName<'_>) -> (allowed: bool)
        ensures
            allowed == self.allows(server_name.spec_bytes()),
    {
        if !self.allow_ip_literals && server_name.is_ip_literal() {
            return false;
        }
        let host = server_name.host();
        proof {
            broadcast use group_utf8_lib;

            assert(host@ == decode_utf8(host_bytes(server_name.spec_bytes())));
        }
        !self.deny_matches(host) && self.allow_matches(host)
    }

    /// Returns true if the input matches a pattern in the allow list.
    pub fn allow_matches(&self, host: &str) -> (matched: bool)
        ensures
            matched == any_match(self.allow@, host@),
    {
        Self::matches(self.allow.as_slice(), host)
    }

    /// Returns true if the input matches a pattern in the deny list.
    pub fn deny_matches(&self, host: &str) -> (matched: bool)
        ensures
            matched == any_match(self.deny@, host@),
    {
        Self::matches(self.deny.as_slice(), host)
    }

    /// Returns true if the input is equal to a string in the allow list.
    pub fn allow_contains(&self, host: &str) -> (found: bool)
        ensures
            found == any_equal(self.allow@, host@),
    {
        Self::contains(self.allow.as_slice(), host)
    }

    /// Returns true if the input is equal to a string in the deny list.
    pub fn deny_contains(&self, host: &str) -> (found: bool)
        ensures
            found == any_equal(self.deny@, host@),
    {
        Self::contains(self.deny.as_slice(), host)
    }

    /// Returns true if the allow list is empty.
    pub fn allow_is_empty(&self) -> (empty: bool)
        ensures
            empty == (self.allow@.len() == 0),
    {
        self.allow.len() == 0
    }

    /// Returns true if the deny list is empty.
    pub fn deny_is_empty(&self) -> (empty: bool)
        ensures
            empty == (self.deny@.len() == 0),
    {
        self.deny.len() == 0
    }

    fn matches(a: &[String], s: &str) -> (matched: bool)
        ensures
            matched == any_match(a@, s@),
    {
        let mut i: usize = 0;
        while i < a.len()
            invariant
                i <= a@.len(),
                forall|j: int| 0 <= j < i ==> !glob_match(#[trigger] a@[j]@, s@),
            decreases a@.len() - i,
        {
            if wild_matches(a[i].as_str(), s) {
                return true;
            }
            i += 1;
        }
        false
    }

    fn contains(a: &[String], s: &str) -> (found: bool)
        ensures
            found == any_equal(a@, s@),
    {
        let mut i: usize = 0;
        while i < a.len()
            invariant
                i <= a@.len(),
                forall|j: int| 0 <= j < i ==> #[trigger] a@[j]@ != s@,
            decreases a@.len() - i,
        {
            if str_eq(a[i].as_str(), s) {
                return true;
            }
            i += 1;
        }
        false
    }
}

/// A pattern that is a single `*` matches every text.
pub proof fn lemma_star_matches_all(text: Seq<char>)
    ensures
        glob_match(seq!['*'], text),
    decreases text.len(),
{
    let star = seq!['*'];
    assert(star.len() == 1 && star[0] == '*');
    if text.len() == 0 {
        assert(star.drop_first().len() == 0);
        assert(glob_match(star.drop_first(), text));
    } else {
        lemma_star_matches_all(text.drop_first());
    }
}

/// A pattern without wildcards matches its own text and no other.
pub proof fn lemma_plain_pattern_matches_itself(pattern: Seq<char>, text: Seq<char>)
    requires
        forall|i: int| 0 <= i < pattern.len() ==> pattern[i] != '*' && pattern[i] != '?',
    ensures
        glob_match(pattern, text) <==> pattern == text,
    decreases pattern.len(),
{
    if pattern.len() == 0 {
        if text.len() == 0 {
            assert(pattern =~= text);
        }
    } else if text.len() > 0 {
        let p = pattern.drop_first();
        let t = text.drop_first();
        assert forall|i: int| 0 <= i < p.len() implies p[i] != '*' && p[i] != '?' by {
            assert(p[i] == pattern[i + 1]);
        }
        lemma_plain_pattern_matches_itself(p, t);
        if pattern[0] == text[0] && p == t {
            assert(pattern =~= seq![pattern[0]] + p);
            assert(text =~= seq![text[0]] + t);
        }
    }
}

/// An access-control list with an empty allow list allows no server.
pub proof fn lemma_empty_allow_list_allows_nothing(acl: RoomServerAclEventContent, name: Seq<u8>)
    requires
        acl.allow@.len() == 0,
    ensures
        !acl.allows(name),
{
}

/// The port of a server name has no part in the decision: two server names
/// with the same host are allowed or refused together.
pub proof fn lemma_port_is_ignored(acl: RoomServerAclEventContent, a: Seq<u8>, b: Seq<u8>)
    requires
        is_server_name(a),
        is_server_name(b),
        host_bytes(a) == host_bytes(b),
    ensures
        acl.allows(a) == acl.allows(b),
{
    lemma_host_ends(a);
    lemma_host_ends(b);
    assert(a[0] == host_bytes(a)[0]);
    assert(b[0] == host_bytes(b)[0]);
}

/// A server whose host matches a pattern of the deny list is not allowed,
/// whatever the allow list holds.
pub proof fn lemma_deny_overrides_allow(acl: RoomServerAclEventContent, name: Seq<u8>)
    requires
        any_match(acl.deny@, decode_utf8(host_bytes(name))),
    ensures
        !acl.allows(name),
{
}

} // verus!
