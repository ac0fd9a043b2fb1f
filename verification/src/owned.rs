//! The compact owned handle: an identifier that owns its bytes, inline when
//! they are few.
use vstd::prelude::*;
use vstd::string::StringSliceAdditionalSpecFns;
use vstd::utf8::*;
use std::marker::PhantomData;
use crate::borrowed::Id;
use crate::kind::IdKind;
use crate::shared::{ArcId, BoxedId};
use crate::storage::{
    buf_as_slice, buf_bytes, buf_from_slice, buf_from_vec, buf_into_vec, buf_spilled, IdBuf,
    INLINE_BYTES,
};
use crate::text::{string_bytes, utf8_string, utf8_text};

verus! {

/// An identifier of kind `K` that owns exactly the bytes of its text. Short
/// texts live inside the handle, long ones in a heap buffer; which of the two
/// can be told by no executable operation. A handle is never changed after it
/// is made.
///
/// Every handle that executable code holds is well-formed UTF-8 and satisfies
/// the grammar of `K`.
#[derive(Debug, Ord)]
pub struct OwnedId<K: IdKind> {
    inner: IdBuf,
    kind: PhantomData<K>,
}

impl<K: IdKind> View for OwnedId<K> {
    type V = Seq<char>;

    /// The text of the identifier.
    closed spec fn view(&self) -> Seq<char> {
        decode_utf8(buf_bytes(self.inner))
    }
}

impl<K: IdKind> OwnedId<K> {
    #[verifier::type_invariant]
    spec fn well_formed(&self) -> bool {
        &&& valid_utf8(buf_bytes(self.inner))
        &&& K::grammar(buf_bytes(self.inner))
    }

    /// The UTF-8 bytes of the text.
    pub open spec fn spec_bytes(&self) -> Seq<u8> {
        encode_utf8(self@)
    }

    /// Whether the bytes are stored inside the handle rather than on the heap.
    pub closed spec fn is_inline(&self) -> bool {
        !buf_spilled(self.inner)
    }

    /// Wraps a buffer whose bytes are known to be an identifier of the kind.
    pub(crate) fn new(inner: IdBuf) -> (owned: Self)
        requires
            valid_utf8(buf_bytes(inner)),
            K::grammar(buf_bytes(inner)),
        ensures
            owned@ == decode_utf8(buf_bytes(inner)),
            owned.is_inline() == !buf_spilled(inner),
    {
        OwnedId { inner, kind: PhantomData }
    }

    /// Takes `text` for an identifier without running the validator, and copies
    /// it. The caller answers for the grammar.
    pub fn from_text(text: &str) -> (owned: Self)
        requires
            K::grammar(text.spec_bytes()),
        ensures
            owned@ == text@,
            owned.is_inline() == (text.spec_bytes().len() <= INLINE_BYTES),
    {
        Id::<K>::from_borrowed(text).to_owned()
    }

    /// Takes `text` for an identifier without running the validator, and takes
    /// over its bytes. The caller answers for the grammar. The storage mode
    /// follows the capacity that `text` had.
    pub fn from_string(text: String) -> (owned: Self)
        requires
            K::grammar(encode_utf8(text@)),
        ensures
            owned@ == text@,
    {
        proof {
            broadcast use group_utf8_lib;
        }
        OwnedId::new(buf_from_vec(string_bytes(text)))
    }

    /// The identifier as a borrowed view of this handle's bytes.
    pub fn as_id(&self) -> (id: Id<'_, K>)
        ensures
            id@ == self@,
    {
        proof {
            use_type_invariant(self);
            broadcast use group_utf8_lib;
        }
        match utf8_text(buf_as_slice(&self.inner)) {
            Some(text) => Id::from_borrowed(text),
            None => unreached(),
        }
    }

    /// The text, read in place. It satisfies the grammar of `K`.
    pub fn as_str(&self) -> (text: &str)
        ensures
            text@ == self@,
            K::grammar(text.spec_bytes()),
    {
        self.as_id().as_str()
    }

    /// The UTF-8 bytes of the text, read in place.
    pub fn as_bytes(&self) -> (bytes: &[u8])
        ensures
            bytes@ == self.spec_bytes(),
            valid_utf8(bytes@),
            K::grammar(bytes@),
    {
        proof {
            use_type_invariant(self);
            broadcast use group_utf8_lib;
        }
        buf_as_slice(&self.inner)
    }

    /// Copies the text into a string: the text as it is displayed.
    pub fn to_text(&self) -> (text: String)
        ensures
            text@ == self@,
    {
        self.as_id().to_text()
    }

    /// Gives up the handle for its text. A heap buffer is handed over as it is.
    pub fn into_string(self) -> (text: String)
        ensures
            text@ == self@,
    {
        proof {
            use_type_invariant(&self);
            broadcast use group_utf8_lib;
        }
        match utf8_string(buf_into_vec(self.inner)) {
            Some(text) => text,
            None => unreached(),
        }
    }

    /// Copies the text of a multi-thread shared handle into a compact owned
    /// handle.
    pub fn from_arc(shared: &ArcId<K>) -> (owned: Self)
        ensures
            owned@ == shared@,
            owned.is_inline() == (shared.spec_bytes().len() <= INLINE_BYTES),
    {
        shared.as_id().to_owned()
    }

    /// Copies the text into an exclusively owned heap handle.
    pub fn into_boxed(self) -> (boxed: BoxedId<K>)
        ensures
            boxed@ == self@,
    {
        self.as_id().to_boxed()
    }

    /// Copies the text into a multi-thread shared handle.
    pub fn into_arc(self) -> (shared: ArcId<K>)
        ensures
            shared@ == self@,
    {
        self.as_id().to_arc()
    }

    /// Whether the identifier has exactly the text `other`.
    pub fn eq_str(&self, other: &str) -> (same: bool)
        ensures
            same == (self@ == other@),
    {
        self.as_id().eq_str(other)
    }
}

impl<K: IdKind> Clone for OwnedId<K> {
    /// Copies the bytes into a new handle, whatever the storage mode of this
    /// one: inline when they are at most [`INLINE_BYTES`].
    fn clone(&self) -> (copy: Self)
        ensures
            copy@ == self@,
            copy.is_inline() == (self.spec_bytes().len() <= INLINE_BYTES),
    {
        proof {
            use_type_invariant(self);
            broadcast use group_utf8_lib;
        }
        OwnedId::new(buf_from_slice(buf_as_slice(&self.inner)))
    }
}

} // verus!
