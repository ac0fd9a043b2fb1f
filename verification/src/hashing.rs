//! Hashing and borrowing as text, so that every form of a handle finds the
//! same entry of a hashed or ordered collection.
use vstd::prelude::*;
use std::borrow::Borrow;
use std::hash::{Hash, Hasher};
use crate::borrowed::Id;
use crate::kind::IdKind;
use crate::owned::OwnedId;
use crate::shared::{ArcId, BoxedId, RcId};

verus! {

/// `<str as Hash>::hash`: feeds the text to the hasher. What the hasher makes
/// of it is the hasher's affair; nothing is stated of it here.
#[verifier::external_body]
fn hash_text<H: Hasher>(text: &str, state: &mut H) {
    text.hash(state)
}

impl<'a, K: IdKind> Hash for Id<'a, K> {
    /// Hashes the text as a string slice is hashed.
    fn hash<H: Hasher>(&self, state: &mut H) {
        hash_text(self.as_str(), state)
    }
}

impl<K: IdKind> Hash for OwnedId<K> {
    /// Hashes the text as a string slice is hashed.
    fn hash<H: Hasher>(&self, state: &mut H) {
        hash_text(self.as_str(), state)
    }
}

impl<K: IdKind> Hash for BoxedId<K> {
    /// Hashes the text as a string slice is hashed.
    fn hash<H: Hasher>(&self, state: &mut H) {
        hash_text(self.as_str(), state)
    }
}

impl<K: IdKind> Hash for RcId<K> {
    /// Hashes the text as a string slice is hashed.
    fn hash<H: Hasher>(&self, state: &mut H) {
        hash_text(self.as_str(), state)
    }
}

impl<K: IdKind> Hash for ArcId<K> {
    /// Hashes the text as a string slice is hashed.
    fn hash<H: Hasher>(&self, state: &mut H) {
        hash_text(self.as_str(), state)
    }
}

impl<K: IdKind> Borrow<str> for OwnedId<K> {
    /// The text of the handle, read in place: what a collection keyed by the
    /// handle is searched with.
    fn borrow(&self) -> (text: &str)
        ensures
            <str as View>::view(text) == self@,
    {
        self.as_str()
    }
}

impl<K: IdKind> Borrow<str> for BoxedId<K> {
    /// The text of the handle, read in place: what a collection keyed by the
    /// handle is searched with.
    fn borrow(&self) -> (text: &str)
        ensures
            <str as View>::view(text) == self@,
    {
        self.as_str()
    }
}

impl<K: IdKind> Borrow<str> for RcId<K> {
    /// The text of the handle, read in place: what a collection keyed by the
    /// handle is searched with.
    fn borrow(&self) -> (text: &str)
        ensures
            <str as View>::view(text) == self@,
    {
        self.as_str()
    }
}

impl<K: IdKind> Borrow<str> for ArcId<K> {
    /// The text of the handle, read in place: what a collection keyed by the
    /// handle is searched with.
    fn borrow(&self) -> (text: &str)
        ensures
            <str as View>::view(text) == self@,
    {
        self.as_str()
    }
}

} // verus!
