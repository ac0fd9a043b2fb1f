//! Server names: a host name or a bracketed IPv6 address, and an optional
//! port.
use vstd::prelude::*;
use vstd::slice::slice_subrange;
use vstd::string::StringSliceAdditionalSpecFns;
use vstd::utf8::*;
use crate::ascii::{
    all_host_bytes, decimal, find_byte, first_of, is_decimal_upto, is_digit, is_host_byte,
    lemma_first_from, lemma_first_from_skip, read_decimal, CLOSE_BRACKET, COLON, OPEN_BRACKET,
};
use crate::borrowed::Id;
use crate::error::{IdParseError, Rule};
use crate::ip::{check_ipv4, check_ipv6, is_address_byte, is_ipv4, is_ipv6, lemma_ipv6_bytes};
use crate::kind::IdKind;
use crate::owned::OwnedId;

verus! {

/// A port: one to five decimal digits that spell a number below 65536.
pub open spec fn is_port(s: Seq<u8>) -> bool {
    is_decimal_upto(s, 5, 65535)
}

/// The rule that the part of a server name behind its host breaks, if any. The
/// part is empty, or a `:` and a port.
pub open spec fn port_rule(rest: Seq<u8>) -> Option<Rule> {
    if rest.len() == 0 {
        None
    } else if rest[0] != COLON {
        Some(Rule::IllegalCharacter)
    } else if !is_port(rest.subrange(1, rest.len() as int)) {
        Some(Rule::InvalidPort)
    } else {
        None
    }
}

/// The first rule that `s` breaks as a server name, if any.
///
/// A server name is a host and an optional port. The host is either an IPv6
/// address between `[` and `]`, or one or more letters, digits, `-` and `.`,
/// which covers DNS names and dotted IPv4 addresses.
pub open spec fn server_name_rule(s: Seq<u8>) -> Option<Rule> {
    if s.len() == 0 {
        Some(Rule::EmptySegment)
    } else if s[0] == OPEN_BRACKET {
        let close = first_of(s, CLOSE_BRACKET);
        if !(0 <= close < s.len()) || !is_ipv6(s.subrange(1, close)) {
            Some(Rule::InvalidIpLiteral)
        } else {
            port_rule(s.subrange(close + 1, s.len() as int))
        }
    } else {
        let end = first_of(s, COLON);
        if end == 0 {
            Some(Rule::EmptySegment)
        } else if !all_host_bytes(s.subrange(0, end)) {
            Some(Rule::IllegalCharacter)
        } else {
            port_rule(s.subrange(end, s.len() as int))
        }
    }
}

/// Whether `s` is a server name.
pub open spec fn is_server_name(s: Seq<u8>) -> bool {
    server_name_rule(s) is None
}

/// The length of the host of a server name: up to and with the `]` of a
/// bracketed address, and otherwise up to the first `:`.
pub open spec fn host_len(s: Seq<u8>) -> int {
    if s.len() > 0 && s[0] == OPEN_BRACKET {
        first_of(s, CLOSE_BRACKET) + 1
    } else {
        first_of(s, COLON)
    }
}

/// The host of a server name: the name without its port.
pub open spec fn host_bytes(s: Seq<u8>) -> Seq<u8> {
    s.subrange(0, host_len(s))
}

/// The port of a server name, if it has one.
pub open spec fn port_number(s: Seq<u8>) -> Option<nat> {
    if host_len(s) < s.len() {
        Some(decimal(s.subrange(host_len(s) + 1, s.len() as int)))
    } else {
        None
    }
}

/// Whether the host of a server name is an IP address: a dotted quad, or an
/// address in brackets.
pub open spec fn is_ip_literal_name(s: Seq<u8>) -> bool {
    is_ipv4(host_bytes(s)) || (s.len() > 0 && s[0] == OPEN_BRACKET)
}

/// In a server name the host ends in range, and a `:` follows it unless the
/// name ends there.
pub proof fn lemma_host_ends(s: Seq<u8>)
    requires
        is_server_name(s),
    ensures
        0 < host_len(s) <= s.len(),
        host_len(s) < s.len() ==> s[host_len(s)] == COLON && is_port(
            s.subrange(host_len(s) + 1, s.len() as int),
        ),
{
    lemma_first_from(s, CLOSE_BRACKET, 0);
    lemma_first_from(s, COLON, 0);
    if s[0] == OPEN_BRACKET {
        let close = first_of(s, CLOSE_BRACKET);
        let rest = s.subrange(close + 1, s.len() as int);
        if rest.len() > 0 {
            assert(rest[0] == s[close + 1]);
            assert(rest.subrange(1, rest.len() as int) =~= s.subrange(
                close + 2,
                s.len() as int,
            ));
        }
    } else {
        let end = first_of(s, COLON);
        let rest = s.subrange(end, s.len() as int);
        if rest.len() > 0 {
            assert(rest.subrange(1, rest.len() as int) =~= s.subrange(end + 1, s.len() as int));
        }
    }
}

/// The grammar read backwards: a server name is its host, followed by nothing
/// or by a `:` and a port. The host is an IPv6 address in brackets, or one or
/// more host-name bytes.
pub proof fn lemma_server_name_into_parts(s: Seq<u8>)
    requires
        is_server_name(s),
    ensures
        port_number(s) is None ==> s == host_bytes(s),
        port_number(s) is Some ==> s == host_bytes(s) + seq![COLON] + s.subrange(
            host_len(s) + 1,
            s.len() as int,
        ) && is_port(s.subrange(host_len(s) + 1, s.len() as int)),
        s[0] == OPEN_BRACKET ==> host_bytes(s).last() == CLOSE_BRACKET && is_ipv6(
            host_bytes(s).subrange(1, host_len(s) - 1),
        ),
        s[0] != OPEN_BRACKET ==> all_host_bytes(host_bytes(s)),
{
    lemma_host_ends(s);
    lemma_first_from(s, CLOSE_BRACKET, 0);
    lemma_first_from(s, COLON, 0);
    let host = host_bytes(s);
    if host_len(s) < s.len() {
        assert(s =~= host + seq![COLON] + s.subrange(host_len(s) + 1, s.len() as int));
    } else {
        assert(s =~= host);
    }
    if s[0] == OPEN_BRACKET {
        assert(host.subrange(1, host_len(s) - 1) =~= s.subrange(1, first_of(s, CLOSE_BRACKET)));
    }
}

/// The grammar read forwards: one or more host-name bytes are a server name,
/// and so are they with a `:` and a port behind them.
pub proof fn lemma_server_name_from_host(host: Seq<u8>, port: Seq<u8>)
    requires
        host.len() > 0,
        all_host_bytes(host),
        is_port(port),
    ensures
        is_server_name(host),
        is_server_name(host + seq![COLON] + port),
        host_bytes(host + seq![COLON] + port) == host,
{
    assert(host[0] != OPEN_BRACKET && host[0] != COLON) by {
        assert(is_host_byte(host[0]));
    }
    assert forall|j: int| 0 <= j < host.len() implies host[j] != COLON by {
        assert(is_host_byte(host[j]));
    }
    lemma_first_from_skip(host, COLON, 0, host.len() as int);
    assert(host.subrange(0, host.len() as int) =~= host);
    assert(host.subrange(host.len() as int, host.len() as int).len() == 0);

    let s = host + seq![COLON] + port;
    assert(s[0] == host[0]);
    assert forall|j: int| 0 <= j < host.len() implies s[j] != COLON by {
        assert(s[j] == host[j]);
    }
    lemma_first_from_skip(s, COLON, 0, host.len() as int);
    assert(s[host.len() as int] == COLON);
    assert(first_of(s, COLON) == host.len());
    assert(s.subrange(0, host.len() as int) =~= host);
    let rest = s.subrange(host.len() as int, s.len() as int);
    assert(rest[0] == COLON);
    assert(rest.subrange(1, rest.len() as int) =~= port);
}

/// The grammar read forwards: an IPv6 address in brackets is a server name,
/// and so is it with a `:` and a port behind it.
pub proof fn lemma_server_name_from_ip_literal(address: Seq<u8>, port: Seq<u8>)
    requires
        is_ipv6(address),
        is_port(port),
    ensures
        is_server_name(seq![OPEN_BRACKET] + address + seq![CLOSE_BRACKET]),
        is_server_name(seq![OPEN_BRACKET] + address + seq![CLOSE_BRACKET, COLON] + port),
{
    lemma_ipv6_bytes(address);
    assert forall|i: int| 0 <= i < address.len() implies address[i] != CLOSE_BRACKET by {
        assert(is_address_byte(address[i]));
    }
    let host = seq![OPEN_BRACKET] + address + seq![CLOSE_BRACKET];
    let close: int = address.len() + 1int;
    assert(host[0] == OPEN_BRACKET);
    assert forall|j: int| 0 <= j < close implies host[j] != CLOSE_BRACKET by {
        if j > 0 {
            assert(host[j] == address[j - 1]);
        }
    }
    lemma_first_from_skip(host, CLOSE_BRACKET, 0, close);
    assert(host[close] == CLOSE_BRACKET);
    assert(first_of(host, CLOSE_BRACKET) == close);
    assert(host.subrange(1, close) =~= address);
    assert(host.subrange(close + 1, host.len() as int).len() == 0);

    let s = seq![OPEN_BRACKET] + address + seq![CLOSE_BRACKET, COLON] + port;
    assert(s[0] == OPEN_BRACKET);
    assert forall|j: int| 0 <= j < close implies s[j] != CLOSE_BRACKET by {
        if j > 0 {
            assert(s[j] == address[j - 1]);
        }
    }
    lemma_first_from_skip(s, CLOSE_BRACKET, 0, close);
    assert(s[close] == CLOSE_BRACKET);
    assert(first_of(s, CLOSE_BRACKET) == close);
    assert(s.subrange(1, close) =~= address);
    let rest = s.subrange(close + 1, s.len() as int);
    assert(rest[0] == COLON);
    assert(rest.subrange(1, rest.len() as int) =~= port);
}

/// A server name is ASCII text.
pub proof fn lemma_server_name_is_ascii(s: Seq<u8>)
    requires
        is_server_name(s),
    ensures
        forall|i: int| 0 <= i < s.len() ==> #[trigger] s[i] < 0x80,
{
    lemma_host_ends(s);
    lemma_first_from(s, CLOSE_BRACKET, 0);
    lemma_first_from(s, COLON, 0);
    let end = host_len(s);
    let host = host_bytes(s);
    let port = s.subrange(end + 1, s.len() as int);
    if s[0] == OPEN_BRACKET {
        let address = s.subrange(1, end - 1);
        lemma_ipv6_bytes(address);
        assert forall|i: int| 0 < i < end - 1 implies #[trigger] s[i] < 0x80 by {
            assert(is_address_byte(address[i - 1]));
        }
    } else {
        assert forall|i: int| 0 <= i < end implies #[trigger] s[i] < 0x80 by {
            assert(is_host_byte(host[i]));
        }
    }
    assert forall|i: int| end < i < s.len() implies #[trigger] s[i] < 0x80 by {
        assert(is_digit(port[i - end - 1]));
    }
}

/// Decides [`is_port`].
pub fn check_port(s: &[u8]) -> (ok: bool)
    ensures
        ok == is_port(s@),
{
    if s.len() == 0 || s.len() > 5 {
        return false;
    }
    match read_decimal(s) {
        Some(n) => n <= 65535,
        None => false,
    }
}

/// Computes [`port_rule`].
pub fn check_port_part(rest: &[u8]) -> (rule: Option<Rule>)
    ensures
        rule == port_rule(rest@),
{
    if rest.len() == 0 {
        None
    } else if rest[0] != COLON {
        Some(Rule::IllegalCharacter)
    } else if !check_port(slice_subrange(rest, 1, rest.len())) {
        Some(Rule::InvalidPort)
    } else {
        None
    }
}

/// Decides [`all_host_bytes`].
pub fn check_host_bytes(s: &[u8]) -> (ok: bool)
    ensures
        ok == all_host_bytes(s@),
{
    let mut i: usize = 0;
    while i < s.len()
        invariant
            i <= s@.len(),
            forall|j: int| 0 <= j < i ==> is_host_byte(#[trigger] s@[j]),
        decreases s@.len() - i,
    {
        let b = s[i];
        let digit = 0x30 <= b && b <= 0x39;
        let letter = (0x41 <= b && b <= 0x5a) || (0x61 <= b && b <= 0x7a);
        if !(digit || letter || b == 0x2d || b == 0x2e) {
            return false;
        }
        i += 1;
    }
    true
}

/// Computes [`server_name_rule`]: validates a server name.
pub fn check_server_name(s: &[u8]) -> (rule: Option<Rule>)
    ensures
        rule == server_name_rule(s@),
{
    if s.len() == 0 {
        return Some(Rule::EmptySegment);
    }
    if s[0] == OPEN_BRACKET {
        let close = find_byte(s, CLOSE_BRACKET);
        if close >= s.len() || !check_ipv6(slice_subrange(s, 1, close)) {
            Some(Rule::InvalidIpLiteral)
        } else {
            check_port_part(slice_subrange(s, close + 1, s.len()))
        }
    } else {
        let end = find_byte(s, COLON);
        if end == 0 {
            Some(Rule::EmptySegment)
        } else if !check_host_bytes(slice_subrange(s, 0, end)) {
            Some(Rule::IllegalCharacter)
        } else {
            check_port_part(slice_subrange(s, end, s.len()))
        }
    }
}

/// The kind of server names.
#[derive(Clone, Copy, Debug, PartialEq, Eq, PartialOrd, Ord, Hash)]
pub struct ServerNameKind;

impl IdKind for ServerNameKind {
    open spec fn spec_name() -> Seq<char> {
        "ServerName"@
    }

    open spec fn grammar(bytes: Seq<u8>) -> bool {
        is_server_name(bytes)
    }

    open spec fn broken_rule(bytes: Seq<u8>) -> Rule {
        server_name_rule(bytes).unwrap()
    }

    fn name() -> (name: &'static str) {
        "ServerName"
    }

    fn validate(text: &str) -> (verdict: Result<(), IdParseError>) {
        match check_server_name(text.as_bytes()) {
            None => Ok(()),
            Some(rule) => Err(IdParseError { kind: "ServerName", rule }),
        }
    }
}

/// A borrowed server name.
pub type ServerName<'a> = Id<'a, ServerNameKind>;

/// An owned server name.
pub type OwnedServerName = OwnedId<ServerNameKind>;

/// Finds where the host of a server name ends.
fn host_end(s: &[u8]) -> (end: usize)
    requires
        is_server_name(s@),
    ensures
        end == host_len(s@),
        0 < end <= s@.len(),
{
    proof {
        lemma_host_ends(s@);
    }
    if s[0] == OPEN_BRACKET {
        find_byte(s, CLOSE_BRACKET) + 1
    } else {
        find_byte(s, COLON)
    }
}

impl<'a> Id<'a, ServerNameKind> {
    /// The host of the server name: the name without its port, brackets
    /// included where the host is an IPv6 address.
    pub fn host(&self) -> (host: &'a str)
        ensures
            host.spec_bytes() == host_bytes(self.spec_bytes()),
    {
        let text = self.as_str();
        let bytes = text.as_bytes();
        let end = host_end(bytes);
        proof {
            broadcast use group_utf8_lib;

            lemma_host_ends(bytes@);
            if end < bytes.len() {
                is_char_boundary_iff_not_is_continuation_byte(bytes@, end as int);
            }
        }
        text.split_at(end).0
    }

    /// The port of the server name, if it has one.
    pub fn port(&self) -> (port: Option<u16>)
        ensures
            port is Some <==> port_number(self.spec_bytes()) is Some,
            port matches Some(n) ==> port_number(self.spec_bytes()) == Some(n as nat),
    {
        let bytes = self.as_bytes();
        let end = host_end(bytes);
        proof {
            lemma_host_ends(bytes@);
        }
        if end < bytes.len() {
            match read_decimal(slice_subrange(bytes, end + 1, bytes.len())) {
                Some(n) => Some(n as u16),
                None => unreached(),
            }
        } else {
            None
        }
    }

    /// Whether the host is an IP address rather than a DNS name.
    pub fn is_ip_literal(&self) -> (literal: bool)
        ensures
            literal == is_ip_literal_name(self.spec_bytes()),
    {
        let bytes = self.as_bytes();
        let end = host_end(bytes);
        bytes[0] == OPEN_BRACKET || check_ipv4(slice_subrange(bytes, 0, end))
    }
}

} // verus!
