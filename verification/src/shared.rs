//! The heap forms: exclusively owned, shared within one thread, and shared
//! among threads.
use vstd::prelude::*;
use vstd::string::StringSliceAdditionalSpecFns;
use vstd::utf8::*;
use std::marker::PhantomData;
use std::rc::Rc;
use std::sync::Arc;
use crate::borrowed::Id;
use crate::error::IdParseError;
use crate::kind::IdKind;
use crate::owned::OwnedId;
use crate::text::{arc_share, box_from_str, boxed_string, rc_share, string_boxed};

verus! {

/// An identifier of kind `K` in a heap buffer with one owner.
#[derive(Debug, Ord)]
pub struct BoxedId<K: IdKind> {
    text: Box<str>,
    kind: PhantomData<K>,
}

impl<K: IdKind> View for BoxedId<K> {
    type V = Seq<char>;

    /// The text of the identifier.
    closed spec fn view(&self) -> Seq<char> {
        self.text@
    }
}

impl<K: IdKind> BoxedId<K> {
    #[verifier::type_invariant]
    spec fn well_formed(&self) -> bool {
        K::grammar(encode_utf8(self.text@))
    }

    /// The UTF-8 bytes of the text.
    pub open spec fn spec_bytes(&self) -> Seq<u8> {
        encode_utf8(self@)
    }

    /// Takes a boxed text for an identifier without copying it and without
    /// running the validator. The caller answers for the grammar.
    pub fn from_box(text: Box<str>) -> (id: Self)
        requires
            K::grammar(encode_utf8(text@)),
        ensures
            id@ == text@,
    {
        BoxedId { text, kind: PhantomData }
    }

    /// Takes a string for an identifier without running the validator. The
    /// caller answers for the grammar.
    pub fn from_string(text: String) -> (id: Self)
        requires
            K::grammar(encode_utf8(text@)),
        ensures
            id@ == text@,
    {
        BoxedId::from_box(string_boxed(text))
    }

    /// Takes `text` for an identifier without running the validator, and copies
    /// it. The caller answers for the grammar.
    pub fn from_text(text: &str) -> (id: Self)
        requires
            K::grammar(text.spec_bytes()),
        ensures
            id@ == text@,
    {
        BoxedId::from_box(box_from_str(text))
    }

    /// Validates a string and, if it passes, keeps its buffer as the handle.
    pub fn try_from_string(text: String) -> (outcome: Result<Self, IdParseError>)
        ensures
            outcome is Ok <==> K::grammar(encode_utf8(text@)),
            outcome matches Ok(id) ==> id@ == text@,
            outcome matches Err(e) ==> e.kind@ == K::spec_name() && e.rule == K::broken_rule(
                encode_utf8(text@),
            ),
    {
        match K::validate(text.as_str()) {
            Ok(()) => Ok(BoxedId::from_box(string_boxed(text))),
            Err(e) => Err(e),
        }
    }

    /// The identifier as a borrowed view of this handle's text.
    pub fn as_id(&self) -> (id: Id<'_, K>)
        ensures
            id@ == self@,
    {
        proof {
            use_type_invariant(self);
        }
        Id::from_borrowed(&*self.text)
    }

    /// The text, read in place. It satisfies the grammar of `K`.
    pub fn as_str(&self) -> (text: &str)
        ensures
            text@ == self@,
            K::grammar(text.spec_bytes()),
    {
        self.as_id().as_str()
    }

    /// The UTF-8 bytes of the text, read in place.
    pub fn as_bytes(&self) -> (bytes: &[u8])
        ensures
            bytes@ == self.spec_bytes(),
            valid_utf8(bytes@),
            K::grammar(bytes@),
    {
        self.as_id().as_bytes()
    }

    /// Gives up the handle for the box it holds, without copying.
    pub fn into_box(self) -> (text: Box<str>)
        ensures
            text@ == self@,
    {
        self.text
    }

    /// Gives up the handle for its text as a string, without copying.
    pub fn into_string(self) -> (text: String)
        ensures
            text@ == self@,
    {
        boxed_string(self.text)
    }

    /// Hands the bytes over to a compact owned handle. The storage mode of the
    /// result follows the capacity of the buffer that is handed over.
    pub fn into_owned(self) -> (owned: OwnedId<K>)
        ensures
            owned@ == self@,
    {
        proof {
            use_type_invariant(&self);
        }
        OwnedId::from_string(boxed_string(self.text))
    }

    /// Whether the identifier has exactly the text `other`.
    pub fn eq_str(&self, other: &str) -> (same: bool)
        ensures
            same == (self@ == other@),
    {
        self.as_id().eq_str(other)
    }
}

impl<K: IdKind> Clone for BoxedId<K> {
    /// Copies the text into a new heap buffer.
    fn clone(&self) -> (copy: Self)
        ensures
            copy@ == self@,
    {
        self.as_id().to_boxed()
    }
}

/// An identifier of kind `K` behind a reference count that one thread keeps.
/// Its holders share one buffer, which lives as long as the last of them.
#[derive(Debug, Ord)]
pub struct RcId<K: IdKind> {
    text: Rc<str>,
    kind: PhantomData<K>,
}

impl<K: IdKind> View for RcId<K> {
    type V = Seq<char>;

    /// The text of the identifier.
    closed spec fn view(&self) -> Seq<char> {
        (*self.text)@
    }
}

impl<K: IdKind> RcId<K> {
    #[verifier::type_invariant]
    spec fn well_formed(&self) -> bool {
        K::grammar(encode_utf8((*self.text)@))
    }

    /// The UTF-8 bytes of the text.
    pub open spec fn spec_bytes(&self) -> Seq<u8> {
        encode_utf8(self@)
    }

    /// Takes a shared text for an identifier without copying it and without
    /// running the validator. The caller answers for the grammar.
    pub fn from_rc(text: Rc<str>) -> (id: Self)
        requires
            K::grammar(encode_utf8((*text)@)),
        ensures
            id@ == (*text)@,
    {
        RcId { text, kind: PhantomData }
    }

    /// The identifier as a borrowed view of the shared text.
    pub fn as_id(&self) -> (id: Id<'_, K>)
        ensures
            id@ == self@,
    {
        proof {
            use_type_invariant(self);
        }
        Id::from_borrowed(&*self.text)
    }

    /// The text, read in place. It satisfies the grammar of `K`.
    pub fn as_str(&self) -> (text: &str)
        ensures
            text@ == self@,
            K::grammar(text.spec_bytes()),
    {
        self.as_id().as_str()
    }

    /// The UTF-8 bytes of the text, read in place.
    pub fn as_bytes(&self) -> (bytes: &[u8])
        ensures
            bytes@ == self.spec_bytes(),
            valid_utf8(bytes@),
            K::grammar(bytes@),
    {
        self.as_id().as_bytes()
    }

    /// Whether the identifier has exactly the text `other`.
    pub fn eq_str(&self, other: &str) -> (same: bool)
        ensures
            same == (self@ == other@),
    {
        self.as_id().eq_str(other)
    }
}

impl<K: IdKind> Clone for RcId<K> {
    /// Adds a holder of the same buffer; no text is copied.
    fn clone(&self) -> (copy: Self)
        ensures
            copy@ == self@,
    {
        proof {
            use_type_invariant(self);
        }
        RcId { text: rc_share(&self.text), kind: PhantomData }
    }
}

/// An identifier of kind `K` behind an atomic reference count. Its holders,
/// on any thread, share one buffer, which lives as long as the last of them.
#[derive(Debug, Ord)]
pub struct ArcId<K: IdKind> {
    text: Arc<str>,
    kind: PhantomData<K>,
}

impl<K: IdKind> View for ArcId<K> {
    type V = Seq<char>;

    /// The text of the identifier.
    closed spec fn view(&self) -> Seq<char> {
        (*self.text)@
    }
}

impl<K: IdKind> ArcId<K> {
    #[verifier::type_invariant]
    spec fn well_formed(&self) -> bool {
        K::grammar(encode_utf8((*self.text)@))
    }

    /// The UTF-8 bytes of the text.
    pub open spec fn spec_bytes(&self) -> Seq<u8> {
        encode_utf8(self@)
    }

    /// Takes a shared text for an identifier without copying it and without
    /// running the validator. The caller answers for the grammar.
    pub fn from_arc(text: Arc<str>) -> (id: Self)
        requires
            K::grammar(encode_utf8((*text)@)),
        ensures
            id@ == (*text)@,
    {
        ArcId { text, kind: PhantomData }
    }

    /// The identifier as a borrowed view of the shared text.
    pub fn as_id(&self) -> (id: Id<'_, K>)
        ensures
            id@ == self@,
    {
        proof {
            use_type_invariant(self);
        }
        Id::from_borrowed(&*self.text)
    }

    /// The text, read in place. It satisfies the grammar of `K`.
    pub fn as_str(&self) -> (text: &str)
        ensures
            text@ == self@,
            K::grammar(text.spec_bytes()),
    {
        self.as_id().as_str()
    }

    /// The UTF-8 bytes of the text, read in place.
    pub fn as_bytes(&self) -> (bytes: &[u8])
        ensures
            bytes@ == self.spec_bytes(),
            valid_utf8(bytes@),
            K::grammar(bytes@),
    {
        self.as_id().as_bytes()
    }

    /// Whether the identifier has exactly the text `other`.
    pub fn eq_str(&self, other: &str) -> (same: bool)
        ensures
            same == (self@ == other@),
    {
        self.as_id().eq_str(other)
    }
}

impl<K: IdKind> Clone for ArcId<K> {
    /// Adds a holder of the same buffer; no text is copied.
    fn clone(&self) -> (copy: Self)
        ensures
            copy@ == self@,
    {
        proof {
            use_type_invariant(self);
        }
        ArcId { text: arc_share(&self.text), kind: PhantomData }
    }
}

} // verus!
