//! The standard conversion traits between the forms, and from text. Each
//! conversion keeps the text; those from text validate it, and no other does.
//!
//! The outcome of a conversion is fixed as far as its text goes, and not, for
//! example, in where a handle stores it. So none of the impls here claims the
//! generic law of its trait, that the outcome is a function of the input; each
//! states what its own outcome is.
use vstd::prelude::*;
use vstd::std_specs::convert::{FromSpecImpl, TryFromSpecImpl};
use vstd::string::StringSliceAdditionalSpecFns;
use vstd::utf8::encode_utf8;
use std::str::FromStr;
use crate::borrowed::Id;
use crate::error::IdParseError;
use crate::kind::IdKind;
use crate::owned::OwnedId;
use crate::shared::{ArcId, BoxedId, RcId};

verus! {

impl<'a, K: IdKind> From<Id<'a, K>> for OwnedId<K> {
    /// Copies the text of a view into a compact owned handle.
    fn from(id: Id<'a, K>) -> (owned: Self)
        ensures
            owned@ == id@,
    {
        id.to_owned()
    }
}

impl<'a, K: IdKind> FromSpecImpl<Id<'a, K>> for OwnedId<K> {
    open spec fn obeys_from_spec() -> bool {
        false
    }

    open spec fn from_spec(id: Id<'a, K>) -> Self {
        arbitrary()
    }
}

impl<'a, K: IdKind> From<Id<'a, K>> for BoxedId<K> {
    /// Copies the text of a view into an exclusively owned heap handle.
    fn from(id: Id<'a, K>) -> (boxed: Self)
        ensures
            boxed@ == id@,
    {
        id.to_boxed()
    }
}

impl<'a, K: IdKind> FromSpecImpl<Id<'a, K>> for BoxedId<K> {
    open spec fn obeys_from_spec() -> bool {
        false
    }

    open spec fn from_spec(id: Id<'a, K>) -> Self {
        arbitrary()
    }
}

impl<'a, K: IdKind> From<Id<'a, K>> for RcId<K> {
    /// Copies the text of a view into a single-thread shared handle.
    fn from(id: Id<'a, K>) -> (shared: Self)
        ensures
            shared@ == id@,
    {
        id.to_rc()
    }
}

impl<'a, K: IdKind> FromSpecImpl<Id<'a, K>> for RcId<K> {
    open spec fn obeys_from_spec() -> bool {
        false
    }

    open spec fn from_spec(id: Id<'a, K>) -> Self {
        arbitrary()
    }
}

impl<'a, K: IdKind> From<Id<'a, K>> for ArcId<K> {
    /// Copies the text of a view into a multi-thread shared handle.
    fn from(id: Id<'a, K>) -> (shared: Self)
        ensures
            shared@ == id@,
    {
        id.to_arc()
    }
}

impl<'a, K: IdKind> FromSpecImpl<Id<'a, K>> for ArcId<K> {
    open spec fn obeys_from_spec() -> bool {
        false
    }

    open spec fn from_spec(id: Id<'a, K>) -> Self {
        arbitrary()
    }
}

impl<'a, K: IdKind> From<Id<'a, K>> for String {
    /// Copies the text of a view into a string.
    fn from(id: Id<'a, K>) -> (text: Self)
        ensures
            text@ == id@,
    {
        id.to_text()
    }
}

impl<'a, K: IdKind> FromSpecImpl<Id<'a, K>> for String {
    open spec fn obeys_from_spec() -> bool {
        false
    }

    open spec fn from_spec(id: Id<'a, K>) -> Self {
        arbitrary()
    }
}

impl<K: IdKind> From<BoxedId<K>> for OwnedId<K> {
    /// Hands the buffer of an exclusively owned heap handle to a compact owned
    /// handle.
    fn from(id: BoxedId<K>) -> (owned: Self)
        ensures
            owned@ == id@,
    {
        id.into_owned()
    }
}

impl<K: IdKind> FromSpecImpl<BoxedId<K>> for OwnedId<K> {
    open spec fn obeys_from_spec() -> bool {
        false
    }

    open spec fn from_spec(id: BoxedId<K>) -> Self {
        arbitrary()
    }
}

impl<K: IdKind> From<BoxedId<K>> for String {
    /// Hands the buffer of an exclusively owned heap handle to a string.
    fn from(id: BoxedId<K>) -> (text: Self)
        ensures
            text@ == id@,
    {
        id.into_string()
    }
}

impl<K: IdKind> FromSpecImpl<BoxedId<K>> for String {
    open spec fn obeys_from_spec() -> bool {
        false
    }

    open spec fn from_spec(id: BoxedId<K>) -> Self {
        arbitrary()
    }
}

impl<K: IdKind> From<BoxedId<K>> for Box<str> {
    /// Gives up an exclusively owned heap handle for the box it holds.
    fn from(id: BoxedId<K>) -> (text: Self)
        ensures
            text@ == id@,
    {
        id.into_box()
    }
}

impl<K: IdKind> FromSpecImpl<BoxedId<K>> for Box<str> {
    open spec fn obeys_from_spec() -> bool {
        false
    }

    open spec fn from_spec(id: BoxedId<K>) -> Self {
        arbitrary()
    }
}

impl<K: IdKind> From<ArcId<K>> for OwnedId<K> {
    /// Copies the text of a multi-thread shared handle into a compact owned
    /// handle.
    fn from(id: ArcId<K>) -> (owned: Self)
        ensures
            owned@ == id@,
    {
        OwnedId::from_arc(&id)
    }
}

impl<K: IdKind> FromSpecImpl<ArcId<K>> for OwnedId<K> {
    open spec fn obeys_from_spec() -> bool {
        false
    }

    open spec fn from_spec(id: ArcId<K>) -> Self {
        arbitrary()
    }
}

impl<K: IdKind> From<OwnedId<K>> for BoxedId<K> {
    /// Copies the text of a compact owned handle into an exclusively owned heap
    /// handle.
    fn from(id: OwnedId<K>) -> (boxed: Self)
        ensures
            boxed@ == id@,
    {
        id.into_boxed()
    }
}

impl<K: IdKind> FromSpecImpl<OwnedId<K>> for BoxedId<K> {
    open spec fn obeys_from_spec() -> bool {
        false
    }

    open spec fn from_spec(id: OwnedId<K>) -> Self {
        arbitrary()
    }
}

impl<K: IdKind> From<OwnedId<K>> for ArcId<K> {
    /// Copies the text of a compact owned handle into a multi-thread shared
    /// handle.
    fn from(id: OwnedId<K>) -> (shared: Self)
        ensures
            shared@ == id@,
    {
        id.into_arc()
    }
}

impl<K: IdKind> FromSpecImpl<OwnedId<K>> for ArcId<K> {
    open spec fn obeys_from_spec() -> bool {
        false
    }

    open spec fn from_spec(id: OwnedId<K>) -> Self {
        arbitrary()
    }
}

impl<K: IdKind> From<OwnedId<K>> for String {
    /// Gives up a compact owned handle for its text.
    fn from(id: OwnedId<K>) -> (text: Self)
        ensures
            text@ == id@,
    {
        id.into_string()
    }
}

impl<K: IdKind> FromSpecImpl<OwnedId<K>> for String {
    open spec fn obeys_from_spec() -> bool {
        false
    }

    open spec fn from_spec(id: OwnedId<K>) -> Self {
        arbitrary()
    }
}

impl<'a, K: IdKind> TryFrom<&'a str> for Id<'a, K> {
    type Error = IdParseError;

    /// Validates `text` and views it in place.
    fn try_from(text: &'a str) -> (outcome: Result<Self, IdParseError>)
        ensures
            Self::validated(text, outcome),
    {
        Id::try_from_str(text)
    }
}

impl<'a, K: IdKind> TryFromSpecImpl<&'a str> for Id<'a, K> {
    open spec fn obeys_try_from_spec() -> bool {
        false
    }

    open spec fn try_from_spec(text: &'a str) -> Result<Self, IdParseError> {
        arbitrary()
    }
}

impl<'a, K: IdKind> TryFrom<&'a str> for OwnedId<K> {
    type Error = IdParseError;

    /// Validates `text` and copies it into a compact owned handle.
    fn try_from(text: &'a str) -> (outcome: Result<Self, IdParseError>)
        ensures
            outcome is Ok <==> K::grammar(text.spec_bytes()),
            outcome matches Ok(id) ==> id@ == text@,
            outcome matches Err(e) ==> e.kind@ == K::spec_name() && e.rule == K::broken_rule(
                text.spec_bytes(),
            ),
    {
        Id::<K>::parse(text)
    }
}

impl<'a, K: IdKind> TryFromSpecImpl<&'a str> for OwnedId<K> {
    open spec fn obeys_try_from_spec() -> bool {
        false
    }

    open spec fn try_from_spec(text: &'a str) -> Result<Self, IdParseError> {
        arbitrary()
    }
}

impl<K: IdKind> TryFrom<String> for OwnedId<K> {
    type Error = IdParseError;

    /// Validates `text` and copies it into a compact owned handle.
    fn try_from(text: String) -> (outcome: Result<Self, IdParseError>)
        ensures
            outcome is Ok <==> K::grammar(encode_utf8(text@)),
            outcome matches Ok(id) ==> id@ == text@,
            outcome matches Err(e) ==> e.kind@ == K::spec_name() && e.rule == K::broken_rule(
                encode_utf8(text@),
            ),
    {
        Id::<K>::parse(text.as_str())
    }
}

impl<K: IdKind> TryFromSpecImpl<String> for OwnedId<K> {
    open spec fn obeys_try_from_spec() -> bool {
        false
    }

    open spec fn try_from_spec(text: String) -> Result<Self, IdParseError> {
        arbitrary()
    }
}

impl<'a, K: IdKind> TryFrom<&'a str> for BoxedId<K> {
    type Error = IdParseError;

    /// Validates `text` and copies it into an exclusively owned heap handle.
    fn try_from(text: &'a str) -> (outcome: Result<Self, IdParseError>)
        ensures
            outcome is Ok <==> K::grammar(text.spec_bytes()),
            outcome matches Ok(id) ==> id@ == text@,
            outcome matches Err(e) ==> e.kind@ == K::spec_name() && e.rule == K::broken_rule(
                text.spec_bytes(),
            ),
    {
        Id::<K>::parse_box(text)
    }
}

impl<'a, K: IdKind> TryFromSpecImpl<&'a str> for BoxedId<K> {
    open spec fn obeys_try_from_spec() -> bool {
        false
    }

    open spec fn try_from_spec(text: &'a str) -> Result<Self, IdParseError> {
        arbitrary()
    }
}

impl<K: IdKind> TryFrom<String> for BoxedId<K> {
    type Error = IdParseError;

    /// Validates `text` and, if it passes, keeps its buffer as the handle.
    fn try_from(text: String) -> (outcome: Result<Self, IdParseError>)
        ensures
            outcome is Ok <==> K::grammar(encode_utf8(text@)),
            outcome matches Ok(id) ==> id@ == text@,
            outcome matches Err(e) ==> e.kind@ == K::spec_name() && e.rule == K::broken_rule(
                encode_utf8(text@),
            ),
    {
        BoxedId::try_from_string(text)
    }
}

impl<K: IdKind> TryFromSpecImpl<String> for BoxedId<K> {
    open spec fn obeys_try_from_spec() -> bool {
        false
    }

    open spec fn try_from_spec(text: String) -> Result<Self, IdParseError> {
        arbitrary()
    }
}

impl<K: IdKind> FromStr for OwnedId<K> {
    type Err = IdParseError;

    /// Validates `text` and copies it into a compact owned handle.
    fn from_str(text: &str) -> (outcome: Result<Self, IdParseError>)
        ensures
            outcome is Ok <==> K::grammar(text.spec_bytes()),
            outcome matches Ok(id) ==> id@ == text@,
            outcome matches Err(e) ==> e.kind@ == K::spec_name() && e.rule == K::broken_rule(
                text.spec_bytes(),
            ),
    {
        Id::<K>::parse(text)
    }
}

impl<K: IdKind> FromStr for BoxedId<K> {
    type Err = IdParseError;

    /// Validates `text` and copies it into an exclusively owned heap handle.
    fn from_str(text: &str) -> (outcome: Result<Self, IdParseError>)
        ensures
            outcome is Ok <==> K::grammar(text.spec_bytes()),
            outcome matches Ok(id) ==> id@ == text@,
            outcome matches Err(e) ==> e.kind@ == K::spec_name() && e.rule == K::broken_rule(
                text.spec_bytes(),
            ),
    {
        Id::<K>::parse_box(text)
    }
}

} // verus!
