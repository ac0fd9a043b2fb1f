//! The bridge between the forms: every form can be viewed in place, and every
//! owning form can be made from a view, so every form reaches every other.
//!
//! A conversion that crosses from one way of sharing to another, as from an
//! exclusive buffer or a single-thread shared one to a multi-thread shared
//! one, copies the text. The conversions that hand a buffer over without
//! copying are the methods named `into_` of the owning forms. No conversion
//! validates.
use vstd::prelude::*;
use vstd::std_specs::cmp::PartialEqSpec;
use crate::borrowed::Id;
use crate::kind::IdKind;
use crate::owned::OwnedId;
use crate::shared::{ArcId, BoxedId, RcId};
use crate::storage::INLINE_BYTES;
use crate::text::IdText;

verus! {

/// A handle of kind `K`, in any form: something that can be viewed in place
/// as an identifier of the kind.
pub trait AsId<K: IdKind>: IdText<K> {
    /// The identifier as a borrowed view of this handle's text.
    fn as_view(&self) -> (id: Id<'_, K>)
        ensures
            id@ == self.text(),
    ;
}

impl<'a, K: IdKind> AsId<K> for Id<'a, K> {
    fn as_view(&self) -> (id: Id<'_, K>) {
        *self
    }
}

impl<K: IdKind> AsId<K> for OwnedId<K> {
    fn as_view(&self) -> (id: Id<'_, K>) {
        self.as_id()
    }
}

impl<K: IdKind> AsId<K> for BoxedId<K> {
    fn as_view(&self) -> (id: Id<'_, K>) {
        self.as_id()
    }
}

impl<K: IdKind> AsId<K> for RcId<K> {
    fn as_view(&self) -> (id: Id<'_, K>) {
        self.as_id()
    }
}

impl<K: IdKind> AsId<K> for ArcId<K> {
    fn as_view(&self) -> (id: Id<'_, K>) {
        self.as_id()
    }
}

impl<K: IdKind> OwnedId<K> {
    /// Copies the text of a handle of any form into a compact owned handle.
    pub fn copy_of<H: AsId<K>>(handle: &H) -> (owned: Self)
        ensures
            owned@ == handle.text(),
            owned.is_inline() == (owned.spec_bytes().len() <= INLINE_BYTES),
    {
        handle.as_view().to_owned()
    }
}

impl<K: IdKind> BoxedId<K> {
    /// Copies the text of a handle of any form into an exclusively owned heap
    /// handle.
    pub fn copy_of<H: AsId<K>>(handle: &H) -> (boxed: Self)
        ensures
            boxed@ == handle.text(),
    {
        handle.as_view().to_boxed()
    }
}

impl<K: IdKind> RcId<K> {
    /// Copies the text of a handle of any form into a single-thread shared
    /// handle.
    pub fn copy_of<H: AsId<K>>(handle: &H) -> (shared: Self)
        ensures
            shared@ == handle.text(),
    {
        handle.as_view().to_rc()
    }
}

impl<K: IdKind> ArcId<K> {
    /// Copies the text of a handle of any form into a multi-thread shared
    /// handle.
    pub fn copy_of<H: AsId<K>>(handle: &H) -> (shared: Self)
        ensures
            shared@ == handle.text(),
    {
        handle.as_view().to_arc()
    }
}

/// Going from a handle to another form and back to a compact owned handle
/// gives a handle with the text of the first, equal to it. `there` is what a
/// conversion made of `handle`, in any form, and `back` what a conversion made
/// of `there`; every conversion keeps the text, which is all that is asked of
/// the two here.
pub proof fn lemma_round_trip_keeps_text<K: IdKind, H: AsId<K>>(
    handle: OwnedId<K>,
    there: H,
    back: OwnedId<K>,
)
    requires
        there.text() == handle@,
        back@ == there.text(),
    ensures
        back@ == handle@,
        back.spec_bytes() == handle.spec_bytes(),
        back.eq_spec(&handle),
{
}

} // verus!
