//! The textual forms of IPv4 and IPv6 addresses.
use vstd::prelude::*;
use vstd::slice::slice_subrange;
use crate::ascii::{
    all_digits, all_hex_digits, decimal, find_byte, first_of, is_digit, is_hex_digit,
    lemma_first_from, read_decimal, COLON, DOT,
};

verus! {

/// One number of a dotted quad: one to three decimal digits that spell a
/// number up to 255, with no leading zero before another digit.
pub open spec fn is_octet(s: Seq<u8>) -> bool {
    &&& 1 <= s.len() <= 3
    &&& all_digits(s)
    &&& (s.len() > 1 ==> s[0] != 0x30)
    &&& decimal(s) <= 255
}

/// `parts` octets with a `.` between each two.
pub open spec fn is_dotted(s: Seq<u8>, parts: nat) -> bool
    decreases parts,
{
    if parts == 0 {
        false
    } else if parts == 1 {
        is_octet(s)
    } else {
        let dot = first_of(s, DOT);
        &&& 0 <= dot < s.len()
        &&& is_octet(s.subrange(0, dot))
        &&& is_dotted(s.subrange(dot + 1, s.len() as int), (parts - 1) as nat)
    }
}

/// An IPv4 address in dotted-quad form, such as `192.0.2.1`.
pub open spec fn is_ipv4(s: Seq<u8>) -> bool {
    is_dotted(s, 4)
}

/// One group of an IPv6 address: one to four hexadecimal digits.
pub open spec fn is_hex_group(s: Seq<u8>) -> bool {
    1 <= s.len() <= 4 && all_hex_digits(s)
}

/// The number of 16-bit groups that `s` spells as a list of items with a `:`
/// between each two, if it is such a list. An item is a hexadecimal group,
/// which counts one; the last item may instead, where `v4_allowed`, be a dotted
/// quad, which counts two.
pub open spec fn group_list_width(s: Seq<u8>, v4_allowed: bool) -> Option<nat>
    decreases s.len(),
{
    let colon = first_of(s, COLON);
    if 0 <= colon < s.len() {
        if is_hex_group(s.subrange(0, colon)) {
            match group_list_width(s.subrange(colon + 1, s.len() as int), v4_allowed) {
                Some(n) => Some(n + 1),
                None => None,
            }
        } else {
            None
        }
    } else if is_hex_group(s) {
        Some(1)
    } else if v4_allowed && is_ipv4(s) {
        Some(2)
    } else {
        None
    }
}

/// The width of one side of a `::`: nothing, or a list of groups.
pub open spec fn side_width(s: Seq<u8>, v4_allowed: bool) -> Option<nat> {
    if s.len() == 0 {
        Some(0)
    } else {
        group_list_width(s, v4_allowed)
    }
}

/// The least index at or after `from` at which `::` starts, or the length of
/// `s` if there is none.
pub open spec fn double_colon_from(s: Seq<u8>, from: int) -> int
    decreases s.len() - from,
{
    if from < 0 || from + 1 >= s.len() {
        s.len() as int
    } else if s[from] == COLON && s[from + 1] == COLON {
        from
    } else {
        double_colon_from(s, from + 1)
    }
}

/// An IPv6 address in text form. Without `::` it is a list of exactly eight
/// groups. With `::`, which may stand once, the lists before and after the
/// first `::` spell at most seven groups together, and either may be absent.
/// A dotted quad may take the place of the last two groups.
pub open spec fn is_ipv6(s: Seq<u8>) -> bool {
    let at = double_colon_from(s, 0);
    if 0 <= at < s.len() {
        match (
            side_width(s.subrange(0, at), false),
            side_width(s.subrange(at + 2, s.len() as int), true),
        ) {
            (Some(before), Some(after)) => before + after <= 7,
            _ => false,
        }
    } else {
        group_list_width(s, true) == Some(8nat)
    }
}

/// A byte that the text of an address can hold: a hexadecimal digit, `:` or
/// `.`.
pub open spec fn is_address_byte(b: u8) -> bool {
    is_hex_digit(b) || b == COLON || b == DOT
}

/// Dotted octets hold digits and dots only.
pub proof fn lemma_dotted_bytes(s: Seq<u8>, parts: nat)
    requires
        is_dotted(s, parts),
    ensures
        forall|i: int| 0 <= i < s.len() ==> is_address_byte(#[trigger] s[i]),
    decreases parts,
{
    if parts > 1 {
        lemma_first_from(s, DOT, 0);
        let dot = first_of(s, DOT);
        let head = s.subrange(0, dot);
        let rest = s.subrange(dot + 1, s.len() as int);
        lemma_dotted_bytes(rest, (parts - 1) as nat);
        assert forall|i: int| 0 <= i < s.len() implies is_address_byte(#[trigger] s[i]) by {
            if i < dot {
                assert(is_digit(head[i]));
            } else if i > dot {
                assert(s[i] == rest[i - dot - 1]);
            }
        }
    } else {
        assert forall|i: int| 0 <= i < s.len() implies is_address_byte(#[trigger] s[i]) by {
            assert(is_digit(s[i]));
        }
    }
}

/// A list of groups holds address bytes only.
pub proof fn lemma_group_list_bytes(s: Seq<u8>, v4_allowed: bool)
    requires
        group_list_width(s, v4_allowed) is Some,
    ensures
        forall|i: int| 0 <= i < s.len() ==> is_address_byte(#[trigger] s[i]),
    decreases s.len(),
{
    lemma_first_from(s, COLON, 0);
    let colon = first_of(s, COLON);
    if colon < s.len() {
        let head = s.subrange(0, colon);
        let rest = s.subrange(colon + 1, s.len() as int);
        lemma_group_list_bytes(rest, v4_allowed);
        assert forall|i: int| 0 <= i < s.len() implies is_address_byte(#[trigger] s[i]) by {
            if i < colon {
                assert(is_hex_digit(head[i]));
            } else if i > colon {
                assert(s[i] == rest[i - colon - 1]);
            }
        }
    } else if is_hex_group(s) {
    } else {
        lemma_dotted_bytes(s, 4);
    }
}

/// What [`double_colon_from`] finds: a place in range at which `::` stands.
pub proof fn lemma_double_colon_from(s: Seq<u8>, from: int)
    requires
        0 <= from <= s.len(),
    ensures
        from <= double_colon_from(s, from) <= s.len(),
        double_colon_from(s, from) < s.len() ==> double_colon_from(s, from) + 1 < s.len()
            && s[double_colon_from(s, from)] == COLON && s[double_colon_from(s, from) + 1]
            == COLON,
    decreases s.len() - from,
{
    if from + 1 < s.len() && !(s[from] == COLON && s[from + 1] == COLON) {
        lemma_double_colon_from(s, from + 1);
    }
}

/// The text of an IPv6 address holds address bytes only.
pub proof fn lemma_ipv6_bytes(s: Seq<u8>)
    requires
        is_ipv6(s),
    ensures
        forall|i: int| 0 <= i < s.len() ==> is_address_byte(#[trigger] s[i]),
{
    lemma_double_colon_from(s, 0);
    let at = double_colon_from(s, 0);
    if at < s.len() {
        let before = s.subrange(0, at);
        let after = s.subrange(at + 2, s.len() as int);
        if before.len() > 0 {
            lemma_group_list_bytes(before, false);
        }
        if after.len() > 0 {
            lemma_group_list_bytes(after, true);
        }
        assert forall|i: int| 0 <= i < s.len() implies is_address_byte(#[trigger] s[i]) by {
            if i < at {
                assert(s[i] == before[i]);
            } else if i >= at + 2 {
                assert(s[i] == after[i - at - 2]);
            }
        }
    } else {
        lemma_group_list_bytes(s, true);
    }
}

/// Decides [`is_octet`].
pub fn check_octet(s: &[u8]) -> (ok: bool)
    ensures
        ok == is_octet(s@),
{
    if s.len() == 0 || s.len() > 3 {
        return false;
    }
    if s.len() > 1 && s[0] == 0x30 {
        return false;
    }
    match read_decimal(s) {
        Some(n) => n <= 255,
        None => false,
    }
}

/// Decides [`is_ipv4`].
pub fn check_ipv4(s: &[u8]) -> (ok: bool)
    ensures
        ok == is_ipv4(s@),
{
    let mut rest = s;
    let mut parts: u8 = 4;
    while parts > 1
        invariant
            1 <= parts <= 4,
            is_ipv4(s@) == is_dotted(rest@, parts as nat),
        decreases parts,
    {
        let dot = find_byte(rest, DOT);
        if dot >= rest.len() {
            return false;
        }
        if !check_octet(slice_subrange(rest, 0, dot)) {
            return false;
        }
        rest = slice_subrange(rest, dot + 1, rest.len());
        parts -= 1;
    }
    check_octet(rest)
}

/// Decides [`is_hex_group`].
pub fn check_hex_group(s: &[u8]) -> (ok: bool)
    ensures
        ok == is_hex_group(s@),
{
    if s.len() == 0 || s.len() > 4 {
        return false;
    }
    let mut i: usize = 0;
    while i < s.len()
        invariant
            i <= s@.len(),
            forall|j: int| 0 <= j < i ==> is_hex_digit(#[trigger] s@[j]),
        decreases s@.len() - i,
    {
        let b = s[i];
        let hex = (0x30 <= b && b <= 0x39) || (0x41 <= b && b <= 0x46) || (0x61 <= b && b
            <= 0x66);
        if !hex {
            return false;
        }
        i += 1;
    }
    true
}

/// `count` more groups than `width`, where there is a width.
pub open spec fn widen(width: Option<nat>, count: nat) -> Option<nat> {
    match width {
        Some(n) => Some(n + count),
        None => None,
    }
}

/// Computes [`group_list_width`].
pub fn measure_group_list(s: &[u8], v4_allowed: bool) -> (width: Option<usize>)
    ensures
        width is Some <==> group_list_width(s@, v4_allowed) is Some,
        width matches Some(n) ==> group_list_width(s@, v4_allowed) == Some(n as nat),
{
    let total = s.len();
    let mut rest = s;
    let mut count: usize = 0;
    loop
        invariant
            s@.len() == total,
            2 * count + rest@.len() <= s@.len(),
            group_list_width(s@, v4_allowed) == widen(
                group_list_width(rest@, v4_allowed),
                count as nat,
            ),
        decreases rest@.len(),
    {
        let colon = find_byte(rest, COLON);
        if colon >= rest.len() {
            if check_hex_group(rest) {
                return Some(count + 1);
            } else if v4_allowed && check_ipv4(rest) {
                return Some(count + 2);
            } else {
                return None;
            }
        }
        if !check_hex_group(slice_subrange(rest, 0, colon)) {
            return None;
        }
        rest = slice_subrange(rest, colon + 1, rest.len());
        count += 1;
    }
}

/// Computes [`side_width`].
pub fn measure_side(s: &[u8], v4_allowed: bool) -> (width: Option<usize>)
    ensures
        width is Some <==> side_width(s@, v4_allowed) is Some,
        width matches Some(n) ==> side_width(s@, v4_allowed) == Some(n as nat),
{
    if s.len() == 0 {
        Some(0)
    } else {
        measure_group_list(s, v4_allowed)
    }
}

/// Finds the first `::` in `s`.
pub fn find_double_colon(s: &[u8]) -> (at: usize)
    ensures
        at == double_colon_from(s@, 0),
        at <= s@.len(),
        at < s@.len() ==> at + 2 <= s@.len(),
{
    let mut i: usize = 0;
    while i < s.len() && i + 1 < s.len() && !(s[i] == COLON && s[i + 1] == COLON)
        invariant
            i <= s@.len(),
            double_colon_from(s@, 0) == double_colon_from(s@, i as int),
        decreases s@.len() - i,
    {
        i += 1;
    }
    if s.len() - i < 2 {
        s.len()
    } else {
        i
    }
}

/// Decides [`is_ipv6`].
pub fn check_ipv6(s: &[u8]) -> (ok: bool)
    ensures
        ok == is_ipv6(s@),
{
    let at = find_double_colon(s);
    if at < s.len() {
        let before = measure_side(slice_subrange(s, 0, at), false);
        let after = measure_side(slice_subrange(s, at + 2, s.len()), true);
        match (before, after) {
            (Some(b), Some(a)) => b <= 7 && a <= 7 - b,
            _ => false,
        }
    } else {
        match measure_group_list(s, true) {
            Some(n) => n == 8,
            None => false,
        }
    }
}

} // verus!
