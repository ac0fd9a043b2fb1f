//! Text as bytes: the standard library's conversions between strings, boxes
//! and reference-counted strings, and what this crate proves about bytes.
use vstd::prelude::*;
use vstd::string::StringSliceAdditionalSpecFns;
use vstd::utf8::*;
use std::rc::Rc;
use std::sync::Arc;

verus! {

/// `core::str::from_utf8`: the bytes as text, if and only if they are
/// well-formed UTF-8; the text then encodes to exactly these bytes.
#[verifier::external_body]
pub(crate) fn utf8_text(bytes: &[u8]) -> (text: Option<&str>)
    ensures
        text is Some <==> valid_utf8(bytes@),
        text matches Some(s) ==> s.spec_bytes() == bytes@,
{
    std::str::from_utf8(bytes).ok()
}

/// `String::from_utf8`: the bytes as an owned string, if and only if they are
/// well-formed UTF-8; the string then encodes to exactly these bytes.
#[verifier::external_body]
pub(crate) fn utf8_string(bytes: Vec<u8>) -> (text: Option<String>)
    ensures
        text is Some <==> valid_utf8(bytes@),
        text matches Some(s) ==> encode_utf8(s@) == bytes@,
{
    String::from_utf8(bytes).ok()
}

/// `String::into_bytes`: the UTF-8 encoding of the string.
#[verifier::external_body]
pub(crate) fn string_bytes(text: String) -> (bytes: Vec<u8>)
    ensures
        bytes@ == encode_utf8(text@),
{
    text.into_bytes()
}

/// `String::into_boxed_str`: the same text in a box.
#[verifier::external_body]
pub(crate) fn string_boxed(text: String) -> (boxed: Box<str>)
    ensures
        boxed@ == text@,
{
    text.into_boxed_str()
}

/// `str::into_string`: the text of the box as an owned string.
#[verifier::external_body]
pub(crate) fn boxed_string(boxed: Box<str>) -> (text: String)
    ensures
        text@ == boxed@,
{
    boxed.into_string()
}

/// `Box<str>: From<&str>`: a box holding a copy of the text.
#[verifier::external_body]
pub(crate) fn box_from_str(text: &str) -> (boxed: Box<str>)
    ensures
        boxed@ == text@,
{
    Box::from(text)
}

/// `Rc<str>: From<&str>`: a single-thread reference-counted copy of the text.
#[verifier::external_body]
pub(crate) fn rc_from_str(text: &str) -> (shared: Rc<str>)
    ensures
        (*shared)@ == text@,
{
    Rc::from(text)
}

/// `Arc<str>: From<&str>`: an atomically reference-counted copy of the text.
#[verifier::external_body]
pub(crate) fn arc_from_str(text: &str) -> (shared: Arc<str>)
    ensures
        (*shared)@ == text@,
{
    Arc::from(text)
}

/// `Rc<str>: Clone`: one more holder of the same text.
#[verifier::external_body]
pub(crate) fn rc_share(shared: &Rc<str>) -> (other: Rc<str>)
    ensures
        (*other)@ == (**shared)@,
{
    Rc::clone(shared)
}

/// `Arc<str>: Clone`: one more holder of the same text.
#[verifier::external_body]
pub(crate) fn arc_share(shared: &Arc<str>) -> (other: Arc<str>)
    ensures
        (*other)@ == (**shared)@,
{
    Arc::clone(shared)
}

/// Whether two byte slices hold the same bytes.
pub fn bytes_eq(a: &[u8], b: &[u8]) -> (same: bool)
    ensures
        same == (a@ == b@),
{
    if a.len() != b.len() {
        return false;
    }
    let mut i: usize = 0;
    while i < a.len()
        invariant
            a@.len() == b@.len(),
            i <= a@.len(),
            forall|j: int| 0 <= j < i ==> a@[j] == b@[j],
        decreases a@.len() - i,
    {
        if a[i] != b[i] {
            return false;
        }
        i += 1;
    }
    assert(a@ =~= b@);
    true
}

/// Two texts are equal exactly when their encodings are.
pub proof fn lemma_same_text_same_bytes(a: Seq<char>, b: Seq<char>)
    ensures
        (a == b) <==> (encode_utf8(a) == encode_utf8(b)),
{
    broadcast use group_utf8_lib;

    if encode_utf8(a) == encode_utf8(b) {
        assert(decode_utf8(encode_utf8(a)) == a);
        assert(decode_utf8(encode_utf8(b)) == b);
    }
}

/// Whether two texts are equal.
pub fn str_eq(a: &str, b: &str) -> (same: bool)
    ensures
        same == (a@ == b@),
{
    proof {
        lemma_same_text_same_bytes(a@, b@);
    }
    bytes_eq(a.as_bytes(), b.as_bytes())
}

/// Something that can stand for an identifier of kind `K` in a comparison: a
/// handle of that kind in any form, or plain text, which has no kind and
/// stands for any. All of them compare by their text alone.
pub trait IdText<K> {
    /// The text.
    spec fn text(&self) -> Seq<char>;

    /// The text, read in place.
    fn as_text(&self) -> (text: &str)
        ensures
            text@ == self.text(),
    ;
}

impl<K> IdText<K> for str {
    open spec fn text(&self) -> Seq<char> {
        self@
    }

    fn as_text(&self) -> (text: &str) {
        self
    }
}

impl<K> IdText<K> for String {
    open spec fn text(&self) -> Seq<char> {
        self@
    }

    fn as_text(&self) -> (text: &str) {
        self.as_str()
    }
}

impl<'a, K, T: IdText<K> + ?Sized> IdText<K> for &'a T {
    open spec fn text(&self) -> Seq<char> {
        (**self).text()
    }

    fn as_text(&self) -> (text: &str) {
        (**self).as_text()
    }
}

/// How one text stands to another in the order of their bytes.
#[derive(Clone, Copy, Debug, PartialEq, Eq, Structural)]
pub enum TextOrder {
    /// The first text comes before the second.
    Before,
    /// The two texts are the same.
    Same,
    /// The first text comes after the second.
    After,
}

/// The lexicographic order of byte sequences: the first byte that differs
/// decides, and a proper prefix comes before what it is a prefix of.
pub open spec fn byte_order(a: Seq<u8>, b: Seq<u8>) -> TextOrder
    decreases a.len(),
{
    if a.len() == 0 {
        if b.len() == 0 {
            TextOrder::Same
        } else {
            TextOrder::Before
        }
    } else if b.len() == 0 {
        TextOrder::After
    } else if a[0] < b[0] {
        TextOrder::Before
    } else if a[0] > b[0] {
        TextOrder::After
    } else {
        byte_order(a.drop_first(), b.drop_first())
    }
}

/// The order of texts: the lexicographic order of their UTF-8 bytes.
pub open spec fn text_order(a: Seq<char>, b: Seq<char>) -> TextOrder {
    byte_order(encode_utf8(a), encode_utf8(b))
}

/// Two sequences with a common front stand to each other as what follows it.
pub proof fn lemma_byte_order_skip(a: Seq<u8>, b: Seq<u8>, n: int)
    requires
        0 <= n <= a.len(),
        n <= b.len(),
        forall|j: int| 0 <= j < n ==> a[j] == b[j],
    ensures
        byte_order(a, b) == byte_order(a.skip(n), b.skip(n)),
    decreases n,
{
    if n == 0 {
        assert(a.skip(0) =~= a);
        assert(b.skip(0) =~= b);
    } else {
        lemma_byte_order_skip(a.drop_first(), b.drop_first(), n - 1);
        assert(a.drop_first().skip(n - 1) =~= a.skip(n));
        assert(b.drop_first().skip(n - 1) =~= b.skip(n));
    }
}

/// Compares two byte slices lexicographically.
pub fn compare_bytes(a: &[u8], b: &[u8]) -> (order: TextOrder)
    ensures
        order == byte_order(a@, b@),
{
    let mut i: usize = 0;
    while i < a.len() && i < b.len() && a[i] == b[i]
        invariant
            i <= a@.len(),
            i <= b@.len(),
            forall|j: int| 0 <= j < i ==> a@[j] == b@[j],
        decreases a@.len() - i,
    {
        i += 1;
    }
    proof {
        lemma_byte_order_skip(a@, b@, i as int);
        if i < a@.len() {
            assert(a@.skip(i as int)[0] == a@[i as int]);
        }
        if i < b@.len() {
            assert(b@.skip(i as int)[0] == b@[i as int]);
        }
    }
    if i >= a.len() {
        if i >= b.len() {
            TextOrder::Same
        } else {
            TextOrder::Before
        }
    } else if i >= b.len() {
        TextOrder::After
    } else if a[i] < b[i] {
        TextOrder::Before
    } else {
        TextOrder::After
    }
}

/// Compares two texts by their bytes.
pub fn compare_str(a: &str, b: &str) -> (order: TextOrder)
    ensures
        order == text_order(a@, b@),
{
    compare_bytes(a.as_bytes(), b.as_bytes())
}

/// Byte sequences are the same in the order exactly when they are equal.
pub proof fn lemma_byte_order_same(a: Seq<u8>, b: Seq<u8>)
    ensures
        byte_order(a, b) == TextOrder::Same <==> a == b,
    decreases a.len(),
{
    if a.len() > 0 && b.len() > 0 {
        lemma_byte_order_same(a.drop_first(), b.drop_first());
        if a[0] == b[0] && a.drop_first() == b.drop_first() {
            assert(a =~= seq![a[0]] + a.drop_first());
            assert(b =~= seq![b[0]] + b.drop_first());
        }
    } else if a.len() == 0 && b.len() == 0 {
        assert(a =~= b);
    }
}

/// Swapping the two sides turns `Before` into `After` and back.
pub proof fn lemma_byte_order_flip(a: Seq<u8>, b: Seq<u8>)
    ensures
        byte_order(a, b) == TextOrder::Before <==> byte_order(b, a) == TextOrder::After,
        byte_order(a, b) == TextOrder::Same <==> byte_order(b, a) == TextOrder::Same,
    decreases a.len(),
{
    if a.len() > 0 && b.len() > 0 {
        lemma_byte_order_flip(a.drop_first(), b.drop_first());
    }
}

/// What comes before something that comes before a third comes before the
/// third.
pub proof fn lemma_byte_order_transitive(a: Seq<u8>, b: Seq<u8>, c: Seq<u8>)
    requires
        byte_order(a, b) != TextOrder::After,
        byte_order(b, c) != TextOrder::After,
    ensures
        byte_order(a, c) != TextOrder::After,
        byte_order(a, b) == TextOrder::Before || byte_order(b, c) == TextOrder::Before
            ==> byte_order(a, c) == TextOrder::Before,
    decreases a.len(),
{
    if a.len() > 0 && b.len() > 0 && c.len() > 0 {
        if a[0] == b[0] && b[0] == c[0] {
            lemma_byte_order_transitive(a.drop_first(), b.drop_first(), c.drop_first());
        }
    }
}

} // verus!
