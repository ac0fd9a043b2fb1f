//! The borrowed view: validated text that is read in place.
use vstd::prelude::*;
use vstd::string::StringSliceAdditionalSpecFns;
use vstd::utf8::*;
use std::marker::PhantomData;
use crate::error::IdParseError;
use crate::kind::IdKind;
use crate::owned::OwnedId;
use crate::shared::{ArcId, BoxedId, RcId};
use crate::storage::{buf_from_slice, INLINE_BYTES};
use crate::text::{arc_from_str, box_from_str, rc_from_str, str_eq};

verus! {

/// A read-only view of an identifier of kind `K`, borrowed from the text it
/// was made of. It holds a string slice and nothing else, so making one never
/// copies or allocates, and it cannot outlive its source.
///
/// Every view that executable code holds satisfies the grammar of `K`.
#[derive(Debug, Ord)]
pub struct Id<'a, K: IdKind> {
    text: &'a str,
    kind: PhantomData<K>,
}

impl<'a, K: IdKind> View for Id<'a, K> {
    type V = Seq<char>;

    /// The text of the identifier.
    closed spec fn view(&self) -> Seq<char> {
        self.text@
    }
}

impl<'a, K: IdKind> Clone for Id<'a, K> {
    fn clone(&self) -> (copy: Self)
        ensures
            copy@ == self@,
    {
        proof {
            use_type_invariant(self);
        }
        Id { text: self.text, kind: PhantomData }
    }
}

impl<'a, K: IdKind> Copy for Id<'a, K> {

}

impl<'a, K: IdKind> Id<'a, K> {
    #[verifier::type_invariant]
    spec fn well_formed(&self) -> bool {
        K::grammar(encode_utf8(self.text@))
    }

    /// The UTF-8 bytes of the text.
    pub open spec fn spec_bytes(&self) -> Seq<u8> {
        encode_utf8(self@)
    }

    /// Whether `outcome` is what validating `text` as an identifier of the kind
    /// gives: a view of exactly that text if it satisfies the grammar, and
    /// otherwise the error that names the kind and the broken rule.
    pub open spec fn validated(text: &str, outcome: Result<Self, IdParseError>) -> bool {
        &&& outcome is Ok <==> K::grammar(text.spec_bytes())
        &&& outcome matches Ok(id) ==> id@ == text@
        &&& outcome matches Err(e) ==> e.kind@ == K::spec_name() && e.rule == K::broken_rule(
            text.spec_bytes(),
        )
    }

    /// Takes `text` for an identifier without running the validator. The caller
    /// answers for the grammar; for an unchecked kind there is nothing to
    /// answer for.
    pub fn from_borrowed(text: &'a str) -> (id: Self)
        requires
            K::grammar(text.spec_bytes()),
        ensures
            id@ == text@,
    {
        Id { text, kind: PhantomData }
    }

    /// Validates `text` and views it in place as an identifier.
    pub fn try_from_str(text: &'a str) -> (outcome: Result<Self, IdParseError>)
        ensures
            Self::validated(text, outcome),
    {
        match K::validate(text) {
            Ok(()) => Ok(Id { text, kind: PhantomData }),
            Err(e) => Err(e),
        }
    }

    /// Validates an optional text, an absent one counting as the empty text.
    pub fn try_from_opt_str(text: Option<&'a str>) -> (outcome: Result<Self, IdParseError>)
        ensures
            Self::validated(opt_text(text), outcome),
    {
        match text {
            Some(t) => Self::try_from_str(t),
            None => Self::try_from_str(""),
        }
    }

    /// Validates `text` and copies it into a compact owned handle.
    pub fn parse(text: &str) -> (outcome: Result<OwnedId<K>, IdParseError>)
        ensures
            outcome is Ok <==> K::grammar(text.spec_bytes()),
            outcome matches Ok(id) ==> id@ == text@ && id.is_inline() == (text.spec_bytes().len()
                <= INLINE_BYTES),
            outcome matches Err(e) ==> e.kind@ == K::spec_name() && e.rule == K::broken_rule(
                text.spec_bytes(),
            ),
    {
        match K::validate(text) {
            Ok(()) => Ok(Id::<K>::from_borrowed(text).to_owned()),
            Err(e) => Err(e),
        }
    }

    /// Validates `text` and copies it into an exclusively owned heap handle.
    pub fn parse_box(text: &str) -> (outcome: Result<BoxedId<K>, IdParseError>)
        ensures
            outcome is Ok <==> K::grammar(text.spec_bytes()),
            outcome matches Ok(id) ==> id@ == text@,
            outcome matches Err(e) ==> e.kind@ == K::spec_name() && e.rule == K::broken_rule(
                text.spec_bytes(),
            ),
    {
        match K::validate(text) {
            Ok(()) => Ok(BoxedId::from_box(box_from_str(text))),
            Err(e) => Err(e),
        }
    }

    /// Validates `text` and copies it into a single-thread shared handle.
    pub fn parse_rc(text: &str) -> (outcome: Result<RcId<K>, IdParseError>)
        ensures
            outcome is Ok <==> K::grammar(text.spec_bytes()),
            outcome matches Ok(id) ==> id@ == text@,
            outcome matches Err(e) ==> e.kind@ == K::spec_name() && e.rule == K::broken_rule(
                text.spec_bytes(),
            ),
    {
        match K::validate(text) {
            Ok(()) => Ok(RcId::from_rc(rc_from_str(text))),
            Err(e) => Err(e),
        }
    }

    /// Validates `text` and copies it into a multi-thread shared handle.
    pub fn parse_arc(text: &str) -> (outcome: Result<ArcId<K>, IdParseError>)
        ensures
            outcome is Ok <==> K::grammar(text.spec_bytes()),
            outcome matches Ok(id) ==> id@ == text@,
            outcome matches Err(e) ==> e.kind@ == K::spec_name() && e.rule == K::broken_rule(
                text.spec_bytes(),
            ),
    {
        match K::validate(text) {
            Ok(()) => Ok(ArcId::from_arc(arc_from_str(text))),
            Err(e) => Err(e),
        }
    }

    /// The text, borrowed for as long as the source lives. It satisfies the
    /// grammar of `K`.
    pub fn as_str(&self) -> (text: &'a str)
        ensures
            text@ == self@,
            K::grammar(text.spec_bytes()),
    {
        proof {
            use_type_invariant(self);
        }
        self.text
    }

    /// The UTF-8 bytes of the text.
    pub fn as_bytes(&self) -> (bytes: &'a [u8])
        ensures
            bytes@ == self.spec_bytes(),
            valid_utf8(bytes@),
            K::grammar(bytes@),
    {
        proof {
            use_type_invariant(self);
            broadcast use group_utf8_lib;
        }
        self.text.as_bytes()
    }

    /// Copies the text into a compact owned handle: inline when it has at most
    /// [`INLINE_BYTES`] bytes, in a heap buffer of its own otherwise.
    pub fn to_owned(&self) -> (owned: OwnedId<K>)
        ensures
            owned@ == self@,
            owned.is_inline() == (self.spec_bytes().len() <= INLINE_BYTES),
    {
        proof {
            use_type_invariant(self);
            broadcast use group_utf8_lib;
        }
        OwnedId::new(buf_from_slice(self.text.as_bytes()))
    }

    /// Copies the text into an exclusively owned heap handle.
    pub fn to_boxed(&self) -> (boxed: BoxedId<K>)
        ensures
            boxed@ == self@,
    {
        proof {
            use_type_invariant(self);
        }
        BoxedId::from_box(box_from_str(self.text))
    }

    /// Copies the text into a single-thread shared handle.
    pub fn to_rc(&self) -> (shared: RcId<K>)
        ensures
            shared@ == self@,
    {
        proof {
            use_type_invariant(self);
        }
        RcId::from_rc(rc_from_str(self.text))
    }

    /// Copies the text into a multi-thread shared handle.
    pub fn to_arc(&self) -> (shared: ArcId<K>)
        ensures
            shared@ == self@,
    {
        proof {
            use_type_invariant(self);
        }
        ArcId::from_arc(arc_from_str(self.text))
    }

    /// Copies the text into a string.
    pub fn to_text(&self) -> (text: String)
        ensures
            text@ == self@,
    {
        self.text.to_owned()
    }

    /// Whether the identifier has exactly the text `other`.
    pub fn eq_str(&self, other: &str) -> (same: bool)
        ensures
            same == (self@ == other@),
    {
        str_eq(self.text, other)
    }
}

/// The text that an optional text stands for: itself, or the empty text.
pub open spec fn opt_text(text: Option<&str>) -> &str {
    match text {
        Some(t) => t,
        None => "",
    }
}

} // verus!
