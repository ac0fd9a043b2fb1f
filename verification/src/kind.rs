//! What makes a family of identifiers a kind: a name and a grammar.
use vstd::prelude::*;
use vstd::string::StringSliceAdditionalSpecFns;
use crate::error::{IdParseError, Rule};

verus! {

/// An identifier kind.
///
/// A kind is a type used only as a tag. It supplies the grammar that every
/// handle of the kind satisfies, as a predicate on the UTF-8 bytes of the text,
/// and the validator that decides it. A kind whose grammar admits every text is
/// an unchecked kind. Type parameters of the tag are sub-kinds: they select
/// which operations are offered and take no part in storage or validation.
pub trait IdKind: Sized {
    /// The name by which errors call the kind.
    spec fn spec_name() -> Seq<char>;

    /// Whether `bytes` is an identifier of the kind.
    spec fn grammar(bytes: Seq<u8>) -> bool;

    /// The first rule that `bytes` breaks, where `grammar(bytes)` is false.
    spec fn broken_rule(bytes: Seq<u8>) -> Rule;

    /// The name of the kind.
    fn name() -> (name: &'static str)
        ensures
            name@ == Self::spec_name(),
    ;

    /// Decides the grammar: accepts exactly the texts that satisfy it, and
    /// otherwise names the kind and the first broken rule.
    fn validate(text: &str) -> (verdict: Result<(), IdParseError>)
        ensures
            verdict is Ok <==> Self::grammar(text.spec_bytes()),
            verdict matches Err(e) ==> e.kind@ == Self::spec_name() && e.rule
                == Self::broken_rule(text.spec_bytes()),
    ;
}

} // verus!
