//! Equality across forms: a handle equals whatever holds the same text, be it
//! another handle of its kind in any form, a string slice or a string.
use vstd::prelude::*;
use vstd::std_specs::cmp::PartialEqSpec;
use crate::borrowed::Id;
use crate::kind::IdKind;
use crate::owned::OwnedId;
use crate::shared::{ArcId, BoxedId, RcId};
use crate::text::{str_eq, IdText};

verus! {

impl<'a, K: IdKind> IdText<K> for Id<'a, K> {
    open spec fn text(&self) -> Seq<char> {
        self@
    }

    fn as_text(&self) -> (text: &str) {
        self.as_str()
    }
}

impl<'a, K: IdKind, T: IdText<K> + ?Sized> PartialEq<T> for Id<'a, K> {
    /// Whether `other` holds the same text.
    fn eq(&self, other: &T) -> (same: bool) {
        str_eq(self.as_str(), other.as_text())
    }
}

impl<'a, K: IdKind> Eq for Id<'a, K> {

}

impl<'a, K: IdKind, T: IdText<K> + ?Sized> vstd::std_specs::cmp::PartialEqSpecImpl<T> for Id<'a, K> {
    open spec fn obeys_eq_spec() -> bool {
        true
    }

    open spec fn eq_spec(&self, other: &T) -> bool {
        self@ == other.text()
    }
}

impl<K: IdKind> IdText<K> for OwnedId<K> {
    open spec fn text(&self) -> Seq<char> {
        self@
    }

    fn as_text(&self) -> (text: &str) {
        self.as_str()
    }
}

impl<K: IdKind, T: IdText<K> + ?Sized> PartialEq<T> for OwnedId<K> {
    /// Whether `other` holds the same text.
    fn eq(&self, other: &T) -> (same: bool) {
        str_eq(self.as_str(), other.as_text())
    }
}

impl<K: IdKind> Eq for OwnedId<K> {

}

impl<K: IdKind, T: IdText<K> + ?Sized> vstd::std_specs::cmp::PartialEqSpecImpl<T> for OwnedId<K> {
    open spec fn obeys_eq_spec() -> bool {
        true
    }

    open spec fn eq_spec(&self, other: &T) -> bool {
        self@ == other.text()
    }
}

impl<K: IdKind> IdText<K> for BoxedId<K> {
    open spec fn text(&self) -> Seq<char> {
        self@
    }

    fn as_text(&self) -> (text: &str) {
        self.as_str()
    }
}

impl<K: IdKind, T: IdText<K> + ?Sized> PartialEq<T> for BoxedId<K> {
    /// Whether `other` holds the same text.
    fn eq(&self, other: &T) -> (same: bool) {
        str_eq(self.as_str(), other.as_text())
    }
}

impl<K: IdKind> Eq for BoxedId<K> {

}

impl<K: IdKind, T: IdText<K> + ?Sized> vstd::std_specs::cmp::PartialEqSpecImpl<T> for BoxedId<K> {
    open spec fn obeys_eq_spec() -> bool {
        true
    }

    open spec fn eq_spec(&self, other: &T) -> bool {
        self@ == other.text()
    }
}

impl<K: IdKind> IdText<K> for RcId<K> {
    open spec fn text(&self) -> Seq<char> {
        self@
    }

    fn as_text(&self) -> (text: &str) {
        self.as_str()
    }
}

impl<K: IdKind, T: IdText<K> + ?Sized> PartialEq<T> for RcId<K> {
    /// Whether `other` holds the same text.
    fn eq(&self, other: &T) -> (same: bool) {
        str_eq(self.as_str(), other.as_text())
    }
}

impl<K: IdKind> Eq for RcId<K> {

}

impl<K: IdKind, T: IdText<K> + ?Sized> vstd::std_specs::cmp::PartialEqSpecImpl<T> for RcId<K> {
    open spec fn obeys_eq_spec() -> bool {
        true
    }

    open spec fn eq_spec(&self, other: &T) -> bool {
        self@ == other.text()
    }
}

impl<K: IdKind> IdText<K> for ArcId<K> {
    open spec fn text(&self) -> Seq<char> {
        self@
    }

    fn as_text(&self) -> (text: &str) {
        self.as_str()
    }
}

impl<K: IdKind, T: IdText<K> + ?Sized> PartialEq<T> for ArcId<K> {
    /// Whether `other` holds the same text.
    fn eq(&self, other: &T) -> (same: bool) {
        str_eq(self.as_str(), other.as_text())
    }
}

impl<K: IdKind> Eq for ArcId<K> {

}

impl<K: IdKind, T: IdText<K> + ?Sized> vstd::std_specs::cmp::PartialEqSpecImpl<T> for ArcId<K> {
    open spec fn obeys_eq_spec() -> bool {
        true
    }

    open spec fn eq_spec(&self, other: &T) -> bool {
        self@ == other.text()
    }
}

impl<'a, K: IdKind> PartialEq<Id<'a, K>> for str {
    /// Whether `other` holds this text.
    fn eq(&self, other: &Id<'a, K>) -> (same: bool) {
        str_eq(self, other.as_str())
    }
}

impl<'a, K: IdKind> vstd::std_specs::cmp::PartialEqSpecImpl<Id<'a, K>> for str {
    open spec fn obeys_eq_spec() -> bool {
        true
    }

    open spec fn eq_spec(&self, other: &Id<'a, K>) -> bool {
        self@ == other@
    }
}

impl<K: IdKind> PartialEq<OwnedId<K>> for str {
    /// Whether `other` holds this text.
    fn eq(&self, other: &OwnedId<K>) -> (same: bool) {
        str_eq(self, other.as_str())
    }
}

impl<K: IdKind> vstd::std_specs::cmp::PartialEqSpecImpl<OwnedId<K>> for str {
    open spec fn obeys_eq_spec() -> bool {
        true
    }

    open spec fn eq_spec(&self, other: &OwnedId<K>) -> bool {
        self@ == other@
    }
}

impl<K: IdKind> PartialEq<BoxedId<K>> for str {
    /// Whether `other` holds this text.
    fn eq(&self, other: &BoxedId<K>) -> (same: bool) {
        str_eq(self, other.as_str())
    }
}

impl<K: IdKind> vstd::std_specs::cmp::PartialEqSpecImpl<BoxedId<K>> for str {
    open spec fn obeys_eq_spec() -> bool {
        true
    }

    open spec fn eq_spec(&self, other: &BoxedId<K>) -> bool {
        self@ == other@
    }
}

impl<'a, 'b, K: IdKind> PartialEq<Id<'b, K>> for &'a str {
    /// Whether `other` holds this text.
    fn eq(&self, other: &Id<'b, K>) -> (same: bool) {
        str_eq(*self, other.as_str())
    }
}

impl<'a, 'b, K: IdKind> vstd::std_specs::cmp::PartialEqSpecImpl<Id<'b, K>> for &'a str {
    open spec fn obeys_eq_spec() -> bool {
        true
    }

    open spec fn eq_spec(&self, other: &Id<'b, K>) -> bool {
        (*self)@ == other@
    }
}

impl<'a, K: IdKind> PartialEq<OwnedId<K>> for &'a str {
    /// Whether `other` holds this text.
    fn eq(&self, other: &OwnedId<K>) -> (same: bool) {
        str_eq(*self, other.as_str())
    }
}

impl<'a, K: IdKind> vstd::std_specs::cmp::PartialEqSpecImpl<OwnedId<K>> for &'a str {
    open spec fn obeys_eq_spec() -> bool {
        true
    }

    open spec fn eq_spec(&self, other: &OwnedId<K>) -> bool {
        (*self)@ == other@
    }
}

impl<'a, K: IdKind> PartialEq<BoxedId<K>> for &'a str {
    /// Whether `other` holds this text.
    fn eq(&self, other: &BoxedId<K>) -> (same: bool) {
        str_eq(*self, other.as_str())
    }
}

impl<'a, K: IdKind> vstd::std_specs::cmp::PartialEqSpecImpl<BoxedId<K>> for &'a str {
    open spec fn obeys_eq_spec() -> bool {
        true
    }

    open spec fn eq_spec(&self, other: &BoxedId<K>) -> bool {
        (*self)@ == other@
    }
}

impl<'a, K: IdKind> PartialEq<Id<'a, K>> for String {
    /// Whether `other` holds this text.
    fn eq(&self, other: &Id<'a, K>) -> (same: bool) {
        str_eq(self, other.as_str())
    }
}

impl<'a, K: IdKind> vstd::std_specs::cmp::PartialEqSpecImpl<Id<'a, K>> for String {
    open spec fn obeys_eq_spec() -> bool {
        true
    }

    open spec fn eq_spec(&self, other: &Id<'a, K>) -> bool {
        self@ == other@
    }
}

impl<K: IdKind> PartialEq<OwnedId<K>> for String {
    /// Whether `other` holds this text.
    fn eq(&self, other: &OwnedId<K>) -> (same: bool) {
        str_eq(self.as_str(), other.as_str())
    }
}

impl<K: IdKind> vstd::std_specs::cmp::PartialEqSpecImpl<OwnedId<K>> for String {
    open spec fn obeys_eq_spec() -> bool {
        true
    }

    open spec fn eq_spec(&self, other: &OwnedId<K>) -> bool {
        self@ == other@
    }
}

impl<K: IdKind> PartialEq<BoxedId<K>> for String {
    /// Whether `other` holds this text.
    fn eq(&self, other: &BoxedId<K>) -> (same: bool) {
        str_eq(self, other.as_str())
    }
}

impl<K: IdKind> vstd::std_specs::cmp::PartialEqSpecImpl<BoxedId<K>> for String {
    open spec fn obeys_eq_spec() -> bool {
        true
    }

    open spec fn eq_spec(&self, other: &BoxedId<K>) -> bool {
        self@ == other@
    }
}

/// Handles of one kind that hold the same text are equal to one another,
/// whichever forms they have: here a compact owned handle, a borrowed view and
/// a multi-thread shared handle, each compared with each.
pub proof fn lemma_forms_equal_by_text<K: IdKind>(
    owned: OwnedId<K>,
    view: Id<'_, K>,
    shared: ArcId<K>,
)
    requires
        owned@ == view@,
        view@ == shared@,
    ensures
        owned.eq_spec(&view),
        owned.eq_spec(&shared),
        view.eq_spec(&owned),
        view.eq_spec(&shared),
        shared.eq_spec(&owned),
        shared.eq_spec(&view),
{
}

/// Two things are equal only if they hold the same text: equality looks at
/// nothing else.
pub proof fn lemma_equal_only_by_text<K: IdKind, T: IdText<K> + ?Sized>(owned: OwnedId<K>, other: &T)
    ensures
        owned.eq_spec(other) <==> owned@ == other.text(),
{
}

} // verus!
