//! Kinds without a grammar of their own: unchecked kinds, whose identifiers
//! are any text, and kinds that differ from another only by a sub-kind tag.
use vstd::prelude::*;
use std::marker::PhantomData;
use crate::borrowed::Id;
use crate::error::{IdParseError, Rule};
use crate::kind::IdKind;
use crate::owned::OwnedId;

verus! {

/// The kind of device identifiers: an unchecked kind. Every text is a device
/// identifier, so validation never fails and trusted construction asks
/// nothing of its caller.
#[derive(Clone, Copy, Debug, PartialEq, Eq, PartialOrd, Ord, Hash)]
pub struct DeviceIdKind;

impl IdKind for DeviceIdKind {
    open spec fn spec_name() -> Seq<char> {
        "DeviceId"@
    }

    open spec fn grammar(bytes: Seq<u8>) -> bool {
        true
    }

    open spec fn broken_rule(bytes: Seq<u8>) -> Rule {
        Rule::IllegalCharacter
    }

    fn name() -> (name: &'static str) {
        "DeviceId"
    }

    fn validate(text: &str) -> (verdict: Result<(), IdParseError>) {
        Ok(())
    }
}

/// A borrowed device identifier.
pub type DeviceId<'a> = Id<'a, DeviceIdKind>;

/// An owned device identifier.
pub type OwnedDeviceId = OwnedId<DeviceIdKind>;

/// The kind `K` under the sub-kind tag `Tag`. It has the name, the grammar and
/// the storage of `K`; the tag only keeps its handles apart, as types, from
/// those of `K` and of `K` under other tags, so that an operation can be
/// offered for some tags and not for others.
#[derive(Debug, PartialEq, Eq, PartialOrd, Ord, Hash)]
pub struct Tagged<K, Tag> {
    kind: PhantomData<K>,
    tag: PhantomData<Tag>,
}

impl<K: IdKind, Tag> IdKind for Tagged<K, Tag> {
    open spec fn spec_name() -> Seq<char> {
        K::spec_name()
    }

    open spec fn grammar(bytes: Seq<u8>) -> bool {
        K::grammar(bytes)
    }

    open spec fn broken_rule(bytes: Seq<u8>) -> Rule {
        K::broken_rule(bytes)
    }

    fn name() -> (name: &'static str) {
        K::name()
    }

    fn validate(text: &str) -> (verdict: Result<(), IdParseError>) {
        K::validate(text)
    }
}

impl<'a, K: IdKind, Tag> Id<'a, Tagged<K, Tag>> {
    /// The same identifier as one of the kind without the tag. This operation
    /// exists only for tagged kinds.
    pub fn untagged(&self) -> (plain: Id<'a, K>)
        ensures
            plain@ == self@,
    {
        Id::from_borrowed(self.as_str())
    }
}

impl<'a, K: IdKind> Id<'a, K> {
    /// The same identifier as one of this kind under the sub-kind tag `Tag`.
    /// No byte is looked at: the tag has no part in the grammar.
    pub fn tagged<Tag>(&self) -> (tagged: Id<'a, Tagged<K, Tag>>)
        ensures
            tagged@ == self@,
    {
        Id::from_borrowed(self.as_str())
    }
}

} // verus!
