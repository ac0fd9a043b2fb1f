//! Identifiers made of a sigil, a local part, a `:` and a server name: room
//! identifiers and room aliases.
use vstd::prelude::*;
use vstd::slice::slice_subrange;
use vstd::string::StringSliceAdditionalSpecFns;
use vstd::utf8::*;
use crate::ascii::{find_byte, first_of, lemma_first_from, lemma_first_from_skip, COLON};
use crate::borrowed::Id;
use crate::error::{IdParseError, Rule};
use crate::kind::IdKind;
use crate::owned::OwnedId;
use crate::server_name::{
    check_server_name, is_server_name, lemma_server_name_is_ascii, ServerName,
    ServerNameKind,
};

verus! {

/// `!`, the sigil of room identifiers.
pub const ROOM_ID_SIGIL: u8 = 0x21;

/// `#`, the sigil of room aliases.
pub const ROOM_ALIAS_SIGIL: u8 = 0x23;

/// The first rule that `s` breaks as an identifier with the given sigil, if
/// any. Such an identifier is the sigil, a local part of one or more bytes
/// other than `:`, a `:`, and a server name.
pub open spec fn delimited_rule(s: Seq<u8>, sigil: u8) -> Option<Rule> {
    if s.len() == 0 || s[0] != sigil {
        Some(Rule::MissingSigil)
    } else {
        let colon = first_of(s, COLON);
        if !(0 <= colon < s.len()) {
            Some(Rule::MissingDelimiter)
        } else if colon <= 1 || colon + 1 == s.len() {
            Some(Rule::EmptySegment)
        } else if !is_server_name(s.subrange(colon + 1, s.len() as int)) {
            Some(Rule::InvalidServerName)
        } else {
            None
        }
    }
}

/// Whether `s` is an identifier with the given sigil.
pub open spec fn is_delimited(s: Seq<u8>, sigil: u8) -> bool {
    delimited_rule(s, sigil) is None
}

/// The local part of an identifier with a sigil: what stands between the sigil
/// and the first `:`.
pub open spec fn localpart_bytes(s: Seq<u8>) -> Seq<u8> {
    s.subrange(1, first_of(s, COLON))
}

/// The server name of an identifier with a sigil: what follows the first `:`.
pub open spec fn server_name_bytes(s: Seq<u8>) -> Seq<u8> {
    s.subrange(first_of(s, COLON) + 1, s.len() as int)
}

/// The grammar read forwards: a sigil, a local part of one or more bytes other
/// than `:`, a `:` and a server name, put together, are an identifier with
/// that sigil, and it splits into the parts it was made of.
pub proof fn lemma_delimited_from_parts(sigil: u8, local: Seq<u8>, server: Seq<u8>)
    requires
        sigil != COLON,
        local.len() > 0,
        forall|i: int| 0 <= i < local.len() ==> local[i] != COLON,
        is_server_name(server),
    ensures
        is_delimited(seq![sigil] + local + seq![COLON] + server, sigil),
        localpart_bytes(seq![sigil] + local + seq![COLON] + server) == local,
        server_name_bytes(seq![sigil] + local + seq![COLON] + server) == server,
{
    let s = seq![sigil] + local + seq![COLON] + server;
    let at: int = local.len() + 1int;
    assert(s[0] == sigil);
    assert(s[at] == COLON);
    assert forall|j: int| 0 <= j < at implies s[j] != COLON by {
        if j > 0 {
            assert(s[j] == local[j - 1]);
        }
    }
    lemma_first_from_skip(s, COLON, 0, at);
    assert(first_of(s, COLON) == at);
    assert(s.subrange(at + 1, s.len() as int) =~= server);
    assert(s.subrange(1, at) =~= local);
}

/// The grammar read backwards: an identifier with a sigil is the sigil, its
/// local part, a `:` and its server name; the local part is not empty and
/// holds no `:`, and the server name is one.
pub proof fn lemma_delimited_into_parts(s: Seq<u8>, sigil: u8)
    requires
        is_delimited(s, sigil),
    ensures
        s == seq![sigil] + localpart_bytes(s) + seq![COLON] + server_name_bytes(s),
        localpart_bytes(s).len() > 0,
        forall|i: int| 0 <= i < localpart_bytes(s).len() ==> localpart_bytes(s)[i] != COLON,
        is_server_name(server_name_bytes(s)),
{
    lemma_first_from(s, COLON, 0);
    let at = first_of(s, COLON);
    let local = localpart_bytes(s);
    assert forall|i: int| 0 <= i < local.len() implies local[i] != COLON by {
        assert(local[i] == s[i + 1]);
    }
    assert(s =~= seq![sigil] + local + seq![COLON] + server_name_bytes(s));
}

/// Computes [`delimited_rule`]: validates an identifier with a sigil.
pub fn check_delimited(s: &[u8], sigil: u8) -> (rule: Option<Rule>)
    ensures
        rule == delimited_rule(s@, sigil),
{
    if s.len() == 0 || s[0] != sigil {
        return Some(Rule::MissingSigil);
    }
    let colon = find_byte(s, COLON);
    if colon >= s.len() {
        Some(Rule::MissingDelimiter)
    } else if colon <= 1 || colon + 1 == s.len() {
        Some(Rule::EmptySegment)
    } else if check_server_name(slice_subrange(s, colon + 1, s.len())).is_some() {
        Some(Rule::InvalidServerName)
    } else {
        None
    }
}

/// The kind of room identifiers, such as `!abc:example.org`.
#[derive(Clone, Copy, Debug, PartialEq, Eq, PartialOrd, Ord, Hash)]
pub struct RoomIdKind;

impl IdKind for RoomIdKind {
    open spec fn spec_name() -> Seq<char> {
        "RoomId"@
    }

    open spec fn grammar(bytes: Seq<u8>) -> bool {
        is_delimited(bytes, ROOM_ID_SIGIL)
    }

    open spec fn broken_rule(bytes: Seq<u8>) -> Rule {
        delimited_rule(bytes, ROOM_ID_SIGIL).unwrap()
    }

    fn name() -> (name: &'static str) {
        "RoomId"
    }

    fn validate(text: &str) -> (verdict: Result<(), IdParseError>) {
        match check_delimited(text.as_bytes(), ROOM_ID_SIGIL) {
            None => Ok(()),
            Some(rule) => Err(IdParseError { kind: "RoomId", rule }),
        }
    }
}

/// The kind of room aliases, such as `#lobby:example.org`.
#[derive(Clone, Copy, Debug, PartialEq, Eq, PartialOrd, Ord, Hash)]
pub struct RoomAliasIdKind;

impl IdKind for RoomAliasIdKind {
    open spec fn spec_name() -> Seq<char> {
        "RoomAliasId"@
    }

    open spec fn grammar(bytes: Seq<u8>) -> bool {
        is_delimited(bytes, ROOM_ALIAS_SIGIL)
    }

    open spec fn broken_rule(bytes: Seq<u8>) -> Rule {
        delimited_rule(bytes, ROOM_ALIAS_SIGIL).unwrap()
    }

    fn name() -> (name: &'static str) {
        "RoomAliasId"
    }

    fn validate(text: &str) -> (verdict: Result<(), IdParseError>) {
        match check_delimited(text.as_bytes(), ROOM_ALIAS_SIGIL) {
            None => Ok(()),
            Some(rule) => Err(IdParseError { kind: "RoomAliasId", rule }),
        }
    }
}

/// A borrowed room identifier.
pub type RoomId<'a> = Id<'a, RoomIdKind>;

/// An owned room identifier.
pub type OwnedRoomId = OwnedId<RoomIdKind>;

/// A borrowed room alias.
pub type RoomAliasId<'a> = Id<'a, RoomAliasIdKind>;

/// An owned room alias.
pub type OwnedRoomAliasId = OwnedId<RoomAliasIdKind>;

/// Splits the text of an identifier with a sigil at its first `:`.
fn split_delimited<'a>(text: &'a str, sigil: u8) -> (parts: (&'a str, &'a str))
    requires
        is_delimited(text.spec_bytes(), sigil),
        sigil < 0x80,
    ensures
        parts.0.spec_bytes() == localpart_bytes(text.spec_bytes()),
        parts.1.spec_bytes() == server_name_bytes(text.spec_bytes()),
        is_server_name(parts.1.spec_bytes()),
{
    let bytes = text.as_bytes();
    let total = bytes.len();
    let colon = find_byte(bytes, COLON);
    assert(1 < colon < total);
    proof {
        broadcast use group_utf8_lib;

        let name = bytes@.subrange(colon + 1, bytes@.len() as int);
        lemma_server_name_is_ascii(name);
        assert(bytes@[colon + 1] == name[0]);
        is_char_boundary_iff_not_is_continuation_byte(bytes@, colon + 1);
    }
    let (head, server) = text.split_at(colon + 1);
    proof {
        broadcast use group_utf8_lib;

        assert(head.spec_bytes()[colon as int] == bytes@[colon as int]);
        is_char_boundary_iff_not_is_continuation_byte(head.spec_bytes(), colon as int);
    }
    let (sigil_and_local, _) = head.split_at(colon);
    proof {
        broadcast use group_utf8_lib;

        let front = sigil_and_local.spec_bytes();
        assert(front[0] == bytes@[0]);
        assert(is_char_boundary(pop_first_scalar(front), 0));
        assert(is_char_boundary(front, 1));
    }
    let (_, local) = sigil_and_local.split_at(1);
    proof {
        assert(local.spec_bytes() =~= localpart_bytes(text.spec_bytes()));
        assert(server.spec_bytes() =~= server_name_bytes(text.spec_bytes()));
    }
    (local, server)
}

impl<'a> Id<'a, RoomIdKind> {
    /// The local part of the room identifier: what stands between `!` and the
    /// first `:`.
    pub fn localpart(&self) -> (local: &'a str)
        ensures
            local.spec_bytes() == localpart_bytes(self.spec_bytes()),
    {
        split_delimited(self.as_str(), ROOM_ID_SIGIL).0
    }

    /// The server name of the room identifier, viewed in place.
    pub fn server_name(&self) -> (server: ServerName<'a>)
        ensures
            server.spec_bytes() == server_name_bytes(self.spec_bytes()),
    {
        proof {
            broadcast use group_utf8_lib;
        }
        Id::<ServerNameKind>::from_borrowed(split_delimited(self.as_str(), ROOM_ID_SIGIL).1)
    }
}

impl<'a> Id<'a, RoomAliasIdKind> {
    /// The local part of the alias: what stands between `#` and the first `:`.
    pub fn alias(&self) -> (local: &'a str)
        ensures
            local.spec_bytes() == localpart_bytes(self.spec_bytes()),
    {
        split_delimited(self.as_str(), ROOM_ALIAS_SIGIL).0
    }

    /// The server name of the alias, viewed in place.
    pub fn server_name(&self) -> (server: ServerName<'a>)
        ensures
            server.spec_bytes() == server_name_bytes(self.spec_bytes()),
    {
        proof {
            broadcast use group_utf8_lib;
        }
        Id::<ServerNameKind>::from_borrowed(split_delimited(self.as_str(), ROOM_ALIAS_SIGIL).1)
    }
}

} // verus!
