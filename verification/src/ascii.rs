//! Byte classes, searching and decimal numbers: the parts that the grammars
//! are made of.
use vstd::prelude::*;

verus! {

/// `-`
pub const HYPHEN: u8 = 0x2d;

/// `.`
pub const DOT: u8 = 0x2e;

/// `:`
pub const COLON: u8 = 0x3a;

/// `[`
pub const OPEN_BRACKET: u8 = 0x5b;

/// `]`
pub const CLOSE_BRACKET: u8 = 0x5d;

/// An ASCII decimal digit.
pub open spec fn is_digit(b: u8) -> bool {
    0x30 <= b <= 0x39
}

/// An ASCII letter.
pub open spec fn is_letter(b: u8) -> bool {
    0x41 <= b <= 0x5a || 0x61 <= b <= 0x7a
}

/// An ASCII hexadecimal digit, in either case.
pub open spec fn is_hex_digit(b: u8) -> bool {
    is_digit(b) || 0x41 <= b <= 0x46 || 0x61 <= b <= 0x66
}

/// A byte of a host name: a letter, a digit, `-` or `.`.
pub open spec fn is_host_byte(b: u8) -> bool {
    is_digit(b) || is_letter(b) || b == HYPHEN || b == DOT
}

/// Every byte is a decimal digit.
pub open spec fn all_digits(s: Seq<u8>) -> bool {
    forall|i: int| 0 <= i < s.len() ==> is_digit(#[trigger] s[i])
}

/// Every byte is a hexadecimal digit.
pub open spec fn all_hex_digits(s: Seq<u8>) -> bool {
    forall|i: int| 0 <= i < s.len() ==> is_hex_digit(#[trigger] s[i])
}

/// Every byte is a host-name byte.
pub open spec fn all_host_bytes(s: Seq<u8>) -> bool {
    forall|i: int| 0 <= i < s.len() ==> is_host_byte(#[trigger] s[i])
}

/// The least index at or after `from` at which `s` holds `b`, or the length of
/// `s` if there is none.
pub open spec fn first_from(s: Seq<u8>, b: u8, from: int) -> int
    decreases s.len() - from,
{
    if from < 0 || from >= s.len() {
        s.len() as int
    } else if s[from] == b {
        from
    } else {
        first_from(s, b, from + 1)
    }
}

/// The index of the first `b` in `s`, or the length of `s` if there is none.
pub open spec fn first_of(s: Seq<u8>, b: u8) -> int {
    first_from(s, b, 0)
}

/// What `first_from` finds: a place in range that holds `b`, with no `b`
/// before it.
pub proof fn lemma_first_from(s: Seq<u8>, b: u8, from: int)
    requires
        0 <= from <= s.len(),
    ensures
        from <= first_from(s, b, from) <= s.len(),
        first_from(s, b, from) < s.len() ==> s[first_from(s, b, from)] == b,
        forall|j: int| from <= j < first_from(s, b, from) ==> s[j] != b,
    decreases s.len() - from,
{
    if from < s.len() && s[from] != b {
        lemma_first_from(s, b, from + 1);
    }
}

/// The first `b` of a sequence that starts with `b`-free bytes lies where the
/// search from behind them finds it.
pub proof fn lemma_first_from_skip(s: Seq<u8>, b: u8, from: int, to: int)
    requires
        0 <= from <= to <= s.len(),
        forall|j: int| from <= j < to ==> s[j] != b,
    ensures
        first_from(s, b, from) == first_from(s, b, to),
    decreases to - from,
{
    if from < to {
        lemma_first_from_skip(s, b, from + 1, to);
    }
}

/// Finds the first `b` in `s`.
pub fn find_byte(s: &[u8], b: u8) -> (at: usize)
    ensures
        at == first_of(s@, b),
        at <= s@.len(),
        at < s@.len() ==> s@[at as int] == b,
        forall|j: int| 0 <= j < at ==> s@[j] != b,
{
    let mut i: usize = 0;
    while i < s.len() && s[i] != b
        invariant
            i <= s@.len(),
            forall|j: int| 0 <= j < i ==> s@[j] != b,
        decreases s@.len() - i,
    {
        i += 1;
    }
    proof {
        lemma_first_from_skip(s@, b, 0, i as int);
    }
    i
}

/// The number that a sequence of decimal digits spells, the first digit being
/// the most significant.
pub open spec fn decimal(s: Seq<u8>) -> nat
    decreases s.len(),
{
    if s.len() == 0 {
        0
    } else {
        decimal(s.drop_last()) * 10 + (s.last() - 0x30) as nat
    }
}

/// One to `max_len` decimal digits that spell a number up to `max`.
pub open spec fn is_decimal_upto(s: Seq<u8>, max_len: nat, max: nat) -> bool {
    &&& 1 <= s.len() <= max_len
    &&& all_digits(s)
    &&& decimal(s) <= max
}

/// Reads `s` as a decimal number of at most nine digits.
pub fn read_decimal(s: &[u8]) -> (value: Option<u32>)
    ensures
        value is Some <==> 1 <= s@.len() <= 9 && all_digits(s@),
        value matches Some(n) ==> n == decimal(s@),
{
    if s.len() == 0 || s.len() > 9 {
        return None;
    }
    let mut value: u32 = 0;
    let mut i: usize = 0;
    while i < s.len()
        invariant
            i <= s@.len() <= 9,
            all_digits(s@.subrange(0, i as int)),
            value == decimal(s@.subrange(0, i as int)),
            value < pow10(i as nat),
        decreases s@.len() - i,
    {
        let b = s[i];
        if b < 0x30 || b > 0x39 {
            assert(!is_digit(s@[i as int]));
            return None;
        }
        proof {
            let next = s@.subrange(0, i + 1);
            assert(next.drop_last() =~= s@.subrange(0, i as int));
            assert(next.last() == b);
            assert forall|j: int| 0 <= j < next.len() implies is_digit(#[trigger] next[j]) by {
                if j < i {
                    assert(next[j] == s@.subrange(0, i as int)[j]);
                }
            }
            lemma_pow10_bound(i as nat);
        }
        value = value * 10 + (b - 0x30) as u32;
        i += 1;
    }
    assert(s@.subrange(0, i as int) =~= s@);
    Some(value)
}

/// Ten to the power `n`.
pub open spec fn pow10(n: nat) -> nat
    decreases n,
{
    if n == 0 {
        1
    } else {
        10 * pow10((n - 1) as nat)
    }
}

/// Up to nine digits stay below a thousand millions.
pub proof fn lemma_pow10_bound(n: nat)
    requires
        n <= 9,
    ensures
        pow10(n) <= 1_000_000_000,
        n < 9 ==> pow10(n + 1) == 10 * pow10(n) && pow10(n + 1) <= 1_000_000_000,
    decreases n,
{
    reveal_with_fuel(pow10, 11);
}

} // verus!
