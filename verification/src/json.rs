//! Identifiers out of JSON values.
use vstd::prelude::*;
use vstd::utf8::encode_utf8;
use crate::borrowed::Id;
use crate::error::IdParseError;
use crate::kind::IdKind;

verus! {

/// A JSON value of the `serde_json` crate. Verus does not look inside it.
#[verifier::external_type_specification]
#[verifier::external_body]
pub struct ExJsonValue(serde_json::Value);

/// The text of a JSON value that is a string, and nothing for any other JSON
/// value (`serde_json::Value::as_str`).
pub uninterp spec fn json_string(value: serde_json::Value) -> Option<Seq<char>>;

/// `serde_json::Value::as_str`: the text of a JSON string, read in place, and
/// nothing for any other JSON value.
#[verifier::external_body]
fn json_text(value: &serde_json::Value) -> (text: Option<&str>)
    ensures
        text is Some <==> json_string(*value) is Some,
        text matches Some(s) ==> json_string(*value) == Some(s@),
{
    value.as_str()
}

/// The text that a JSON value stands for where an identifier is expected: the
/// text of a JSON string, and the empty text for any other value.
pub open spec fn json_id_text(value: serde_json::Value) -> Seq<char> {
    match json_string(value) {
        Some(text) => text,
        None => Seq::empty(),
    }
}

/// The text that an optional JSON value stands for: that of the value, and
/// the empty text where there is none.
pub open spec fn opt_json_id_text(value: Option<&serde_json::Value>) -> Seq<char> {
    match value {
        Some(v) => json_id_text(*v),
        None => Seq::empty(),
    }
}

impl<'a, K: IdKind> Id<'a, K> {
    /// Validates the text of a JSON string and views it in place. A JSON value
    /// that is not a string counts as the empty text.
    pub fn try_from_json(value: &'a serde_json::Value) -> (outcome: Result<Self, IdParseError>)
        ensures
            outcome is Ok <==> K::grammar(encode_utf8(json_id_text(*value))),
            outcome matches Ok(id) ==> id@ == json_id_text(*value),
            outcome matches Err(e) ==> e.kind@ == K::spec_name() && e.rule == K::broken_rule(
                encode_utf8(json_id_text(*value)),
            ),
    {
        proof {
            reveal_strlit("");
            assert(""@ =~= Seq::<char>::empty());
        }
        Self::try_from_opt_str(json_text(value))
    }

    /// Validates the text of an optional JSON string and views it in place. An
    /// absent value, and one that is not a string, count as the empty text.
    pub fn try_from_opt_json(value: Option<&'a serde_json::Value>) -> (outcome: Result<
        Self,
        IdParseError,
    >)
        ensures
            outcome is Ok <==> K::grammar(encode_utf8(opt_json_id_text(value))),
            outcome matches Ok(id) ==> id@ == opt_json_id_text(value),
            outcome matches Err(e) ==> e.kind@ == K::spec_name() && e.rule == K::broken_rule(
                encode_utf8(opt_json_id_text(value)),
            ),
    {
        proof {
            reveal_strlit("");
            assert(""@ =~= Seq::<char>::empty());
        }
        let text = match value {
            Some(v) => json_text(v),
            None => None,
        };
        Self::try_from_opt_str(text)
    }
}

} // verus!
