//! The order of handles, as the standard comparison traits see it: the order
//! of their texts, whatever the form and the storage.
use vstd::prelude::*;
use vstd::std_specs::cmp::{PartialEqSpec, PartialOrdSpec};
use vstd::utf8::encode_utf8;
use std::cmp::Ordering;
use crate::borrowed::Id;
use crate::kind::IdKind;
use crate::owned::OwnedId;
use crate::shared::{ArcId, BoxedId, RcId};
use crate::text::{
    compare_str, lemma_byte_order_flip, lemma_byte_order_same, lemma_byte_order_transitive,
    lemma_same_text_same_bytes, text_order, TextOrder,
};

verus! {

/// The standard library's word for each order of texts.
pub open spec fn ordering_of(order: TextOrder) -> Ordering {
    match order {
        TextOrder::Before => Ordering::Less,
        TextOrder::Same => Ordering::Equal,
        TextOrder::After => Ordering::Greater,
    }
}

/// Turns an order of texts into the standard library's word for it.
pub fn to_ordering(order: TextOrder) -> (ordering: Ordering)
    ensures
        ordering == ordering_of(order),
{
    match order {
        TextOrder::Before => Ordering::Less,
        TextOrder::Same => Ordering::Equal,
        TextOrder::After => Ordering::Greater,
    }
}

impl<'a, K: IdKind> PartialOrd for Id<'a, K> {
    /// The order of the two texts by their bytes.
    fn partial_cmp(&self, other: &Self) -> (ordering: Option<Ordering>) {
        Some(to_ordering(compare_str(self.as_str(), other.as_str())))
    }
}

impl<'a, K: IdKind> vstd::std_specs::cmp::PartialOrdSpecImpl for Id<'a, K> {
    open spec fn obeys_partial_cmp_spec() -> bool {
        true
    }

    open spec fn partial_cmp_spec(&self, other: &Self) -> Option<Ordering> {
        Some(ordering_of(text_order(self@, other@)))
    }
}

impl<K: IdKind> PartialOrd for OwnedId<K> {
    /// The order of the two texts by their bytes.
    fn partial_cmp(&self, other: &Self) -> (ordering: Option<Ordering>) {
        Some(to_ordering(compare_str(self.as_str(), other.as_str())))
    }
}

impl<K: IdKind> vstd::std_specs::cmp::PartialOrdSpecImpl for OwnedId<K> {
    open spec fn obeys_partial_cmp_spec() -> bool {
        true
    }

    open spec fn partial_cmp_spec(&self, other: &Self) -> Option<Ordering> {
        Some(ordering_of(text_order(self@, other@)))
    }
}

impl<K: IdKind> PartialOrd for BoxedId<K> {
    /// The order of the two texts by their bytes.
    fn partial_cmp(&self, other: &Self) -> (ordering: Option<Ordering>) {
        Some(to_ordering(compare_str(self.as_str(), other.as_str())))
    }
}

impl<K: IdKind> vstd::std_specs::cmp::PartialOrdSpecImpl for BoxedId<K> {
    open spec fn obeys_partial_cmp_spec() -> bool {
        true
    }

    open spec fn partial_cmp_spec(&self, other: &Self) -> Option<Ordering> {
        Some(ordering_of(text_order(self@, other@)))
    }
}

impl<K: IdKind> PartialOrd for RcId<K> {
    /// The order of the two texts by their bytes.
    fn partial_cmp(&self, other: &Self) -> (ordering: Option<Ordering>) {
        Some(to_ordering(compare_str(self.as_str(), other.as_str())))
    }
}

impl<K: IdKind> vstd::std_specs::cmp::PartialOrdSpecImpl for RcId<K> {
    open spec fn obeys_partial_cmp_spec() -> bool {
        true
    }

    open spec fn partial_cmp_spec(&self, other: &Self) -> Option<Ordering> {
        Some(ordering_of(text_order(self@, other@)))
    }
}

impl<K: IdKind> PartialOrd for ArcId<K> {
    /// The order of the two texts by their bytes.
    fn partial_cmp(&self, other: &Self) -> (ordering: Option<Ordering>) {
        Some(to_ordering(compare_str(self.as_str(), other.as_str())))
    }
}

impl<K: IdKind> vstd::std_specs::cmp::PartialOrdSpecImpl for ArcId<K> {
    open spec fn obeys_partial_cmp_spec() -> bool {
        true
    }

    open spec fn partial_cmp_spec(&self, other: &Self) -> Option<Ordering> {
        Some(ordering_of(text_order(self@, other@)))
    }
}

/// The order of handles is total and agrees with equality: two handles are
/// always comparable, they compare as equal exactly when they hold the same
/// text, and swapping them swaps less and greater.
pub proof fn lemma_order_total<K: IdKind>(a: OwnedId<K>, b: OwnedId<K>)
    ensures
        a.partial_cmp_spec(&b) is Some,
        a.partial_cmp_spec(&b) == Some(Ordering::Equal) <==> a@ == b@,
        a.partial_cmp_spec(&b) == Some(Ordering::Less) <==> b.partial_cmp_spec(&a) == Some(
            Ordering::Greater,
        ),
{
    lemma_byte_order_same(encode_utf8(a@), encode_utf8(b@));
    lemma_byte_order_flip(encode_utf8(a@), encode_utf8(b@));
    lemma_same_text_same_bytes(a@, b@);
}

/// The order of handles is transitive.
pub proof fn lemma_order_transitive<K: IdKind>(a: OwnedId<K>, b: OwnedId<K>, c: OwnedId<K>)
    requires
        a.partial_cmp_spec(&b) != Some(Ordering::Greater),
        b.partial_cmp_spec(&c) != Some(Ordering::Greater),
    ensures
        a.partial_cmp_spec(&c) != Some(Ordering::Greater),
{
    lemma_byte_order_transitive(encode_utf8(a@), encode_utf8(b@), encode_utf8(c@));
}

/// The storage mode of a handle shows in no comparison: two handles with the
/// same text, one stored inline and one on the heap, are equal, compare as
/// equal, and stand in the same order to every third handle.
pub proof fn lemma_storage_mode_unobserved<K: IdKind>(
    inline: OwnedId<K>,
    spilled: OwnedId<K>,
    other: OwnedId<K>,
)
    requires
        inline@ == spilled@,
        inline.is_inline(),
        !spilled.is_inline(),
    ensures
        inline.eq_spec(&spilled),
        inline.partial_cmp_spec(&spilled) == Some(Ordering::Equal),
        inline.eq_spec(&other) == spilled.eq_spec(&other),
        inline.partial_cmp_spec(&other) == spilled.partial_cmp_spec(&other),
{
    lemma_byte_order_same(encode_utf8(inline@), encode_utf8(spilled@));
}

} // verus!
