//! How a kind is declared: the arguments of its declaration, how several
//! declarations of them combine, and the plan of what is generated for it.
use vstd::prelude::*;
use vstd::string::{StringExecFns, StringSliceAdditionalSpecFns};
use crate::ascii::{all_digits, decimal, is_digit};
use crate::storage::INLINE_BYTES;

verus! {

/// An argument that a kind's declaration may give.
#[derive(Clone, Copy, Debug, PartialEq, Eq, Structural)]
pub enum MetaArgument {
    /// `validate`: the path of the kind's validator.
    Validate,
    /// `inline_bytes`: how many bytes a handle of the kind stores inline.
    InlineBytes,
}

/// An argument was given twice ("duplicate attribute argument").
#[derive(Clone, Copy, Debug, PartialEq, Eq, Structural)]
pub struct DuplicateArgument {
    /// The argument that was given twice.
    pub argument: MetaArgument,
}

/// The arguments of a kind's declaration.
#[derive(Debug, PartialEq, Eq)]
pub struct IdDstMeta {
    /// The path of the validator. A kind without one is an unchecked kind.
    pub validate: Option<String>,
    /// The inline capacity, where the kind overrides [`INLINE_BYTES`].
    pub inline_bytes: Option<usize>,
}

/// Whether an argument is given on both sides.
pub open spec fn given_twice<T>(first: Option<T>, second: Option<T>) -> bool {
    first is Some && second is Some
}

/// The one value of an argument given on at most one side.
pub open spec fn given_once<T>(first: Option<T>, second: Option<T>) -> Option<T> {
    if first is Some {
        first
    } else {
        second
    }
}

impl IdDstMeta {
    /// What merging `self` with `other` gives: the arguments of both, unless
    /// one is given by both. The validator is looked at first.
    pub open spec fn merged(self, other: IdDstMeta) -> Result<IdDstMeta, DuplicateArgument> {
        if given_twice(self.validate, other.validate) {
            Err(DuplicateArgument { argument: MetaArgument::Validate })
        } else if given_twice(self.inline_bytes, other.inline_bytes) {
            Err(DuplicateArgument { argument: MetaArgument::InlineBytes })
        } else {
            Ok(
                IdDstMeta {
                    validate: given_once(self.validate, other.validate),
                    inline_bytes: given_once(self.inline_bytes, other.inline_bytes),
                },
            )
        }
    }

    /// What merging the declarations of `list` into `self` gives, one after
    /// the other, stopping at the first duplicate.
    pub open spec fn merged_with(self, list: Seq<IdDstMeta>) -> Result<
        IdDstMeta,
        DuplicateArgument,
    >
        decreases list.len(),
    {
        if list.len() == 0 {
            Ok(self)
        } else {
            match self.merged(list[0]) {
                Ok(next) => next.merged_with(list.drop_first()),
                Err(e) => Err(e),
            }
        }
    }

    /// What merging a list of declarations gives, starting with no argument.
    pub open spec fn merged_all(list: Seq<IdDstMeta>) -> Result<IdDstMeta, DuplicateArgument> {
        (IdDstMeta { validate: None, inline_bytes: None }).merged_with(list)
    }

    /// The inline capacity that the declaration asks for.
    pub open spec fn spec_inline_capacity(self) -> usize {
        match self.inline_bytes {
            Some(n) => n,
            None => INLINE_BYTES,
        }
    }

    /// Merges two declarations of arguments.
    pub fn merge(self, other: IdDstMeta) -> (outcome: Result<IdDstMeta, DuplicateArgument>)
        ensures
            outcome == self.merged(other),
    {
        let validate = match (self.validate, other.validate) {
            (None, None) => None,
            (Some(val), None) => Some(val),
            (None, Some(val)) => Some(val),
            (Some(_), Some(_)) => {
                return Err(DuplicateArgument { argument: MetaArgument::Validate });
            },
        };
        let inline_bytes = match (self.inline_bytes, other.inline_bytes) {
            (None, None) => None,
            (Some(val), None) => Some(val),
            (None, Some(val)) => Some(val),
            (Some(_), Some(_)) => {
                return Err(DuplicateArgument { argument: MetaArgument::InlineBytes });
            },
        };
        Ok(IdDstMeta { validate, inline_bytes })
    }

    /// Merges all the declarations of a kind, in order.
    pub fn merge_all(list: Vec<IdDstMeta>) -> (outcome: Result<IdDstMeta, DuplicateArgument>)
        ensures
            outcome == Self::merged_all(list@),
    {
        let mut rest = list;
        let mut merged = IdDstMeta { validate: None, inline_bytes: None };
        while rest.len() > 0
            invariant
                Self::merged_all(list@) == merged.merged_with(rest@),
            decreases rest.len(),
        {
            let ghost before = rest@;
            let meta = rest.remove(0);
            assert(rest@ =~= before.drop_first());
            match merged.merge(meta) {
                Ok(next) => {
                    merged = next;
                },
                Err(e) => {
                    return Err(e);
                },
            }
        }
        Ok(merged)
    }

    /// The inline capacity of the kind: what the declaration gives, or
    /// [`INLINE_BYTES`].
    pub fn inline_capacity(&self) -> (capacity: usize)
        ensures
            capacity == self.spec_inline_capacity(),
    {
        match self.inline_bytes {
            Some(n) => n,
            None => INLINE_BYTES,
        }
    }
}

/// The number that the digits of an integer literal spell, if they are digits
/// and the number fits a `usize`.
pub open spec fn literal_value(digits: Seq<u8>) -> Option<usize> {
    if digits.len() > 0 && all_digits(digits) && decimal(digits) <= usize::MAX {
        Some(decimal(digits) as usize)
    } else {
        None
    }
}

/// A number spelt by digits is no less than what any front part of them
/// spells.
pub proof fn lemma_decimal_grows(s: Seq<u8>, n: int)
    requires
        all_digits(s),
        0 <= n <= s.len(),
    ensures
        decimal(s.subrange(0, n)) <= decimal(s),
    decreases s.len() - n,
{
    if n == s.len() {
        assert(s.subrange(0, n) =~= s);
    } else {
        lemma_decimal_grows(s, n + 1);
        let next = s.subrange(0, n + 1);
        assert(next.drop_last() =~= s.subrange(0, n));
        assert(is_digit(s[n]));
        assert(next.last() == s[n]);
    }
}

/// Reads the decimal digits of the `inline_bytes` argument.
pub fn parse_inline_bytes(digits: &str) -> (value: Option<usize>)
    ensures
        value == literal_value(digits.spec_bytes()),
{
    let s = digits.as_bytes();
    if s.len() == 0 {
        return None;
    }
    let mut value: usize = 0;
    let mut i: usize = 0;
    while i < s.len()
        invariant
            s@ == digits.spec_bytes(),
            0 < s@.len(),
            i <= s@.len(),
            all_digits(s@.subrange(0, i as int)),
            value == decimal(s@.subrange(0, i as int)),
        decreases s@.len() - i,
    {
        let b = s[i];
        if b < 0x30 || b > 0x39 {
            assert(!is_digit(s@[i as int]));
            return None;
        }
        let digit = (b - 0x30) as usize;
        proof {
            let next = s@.subrange(0, i + 1);
            assert(next.drop_last() =~= s@.subrange(0, i as int));
            assert(next.last() == b);
            assert forall|j: int| 0 <= j < next.len() implies is_digit(#[trigger] next[j]) by {
                if j < i {
                    assert(next[j] == s@.subrange(0, i as int)[j]);
                }
            }
            if all_digits(s@) {
                lemma_decimal_grows(s@, i + 1);
            }
        }
        if value > (usize::MAX - digit) / 10 {
            return None;
        }
        value = value * 10 + digit;
        i += 1;
    }
    assert(s@.subrange(0, i as int) =~= s@);
    Some(value)
}

/// The fields of the struct that declares a kind.
#[derive(Clone, Copy, Debug, PartialEq, Eq, Structural)]
pub enum FieldsShape {
    /// Named fields.
    Named,
    /// No fields at all.
    Unit,
    /// This many unnamed fields.
    Unnamed(usize),
}

/// What the generator needs to know of the struct that declares a kind.
#[derive(Debug)]
pub struct StructShape {
    /// The name of the struct, which is the name of the kind.
    pub name: String,
    /// The number of generic parameters: the sub-kinds.
    pub generic_params: usize,
    /// Whether the struct has a `where` clause.
    pub has_where_clause: bool,
    /// The fields of the struct.
    pub fields: FieldsShape,
}

/// Why a declaration has no plan. A generator stops on each of these.
#[derive(Clone, Copy, Debug, PartialEq, Eq, Structural)]
pub enum PlanError {
    /// An unchecked kind has sub-kinds ("generic unchecked IDs are not
    /// currently supported").
    GenericUnchecked,
    /// The struct has a `where` clause ("where clauses on identifier types are
    /// not currently supported").
    WhereClause,
    /// The struct is a tuple struct without fields, so that no field holds the
    /// text.
    NoFields,
}

/// What is generated for a kind.
#[derive(Debug)]
pub struct ExpansionPlan {
    /// The name of the owned handle type: `Owned` and the name of the kind.
    pub owned_name: String,
    /// The inline capacity that the declaration asks for. This is what was
    /// declared, not what a handle does: every handle of this library stores
    /// [`INLINE_BYTES`] bytes inline, whatever a plan holds, so a generator can
    /// serve only a plan that asks for that many.
    pub inline_bytes: usize,
    /// The validator of a checked kind; without one the kind is unchecked and
    /// gets the infallible constructors in place of the parsing ones.
    pub validate: Option<String>,
    /// The index of the field that holds the text: the last one of a tuple
    /// struct. Any other struct gets the error "Only tuple structs are
    /// supported currently." in place of its text accessor.
    pub text_field: Option<usize>,
}

/// The refusal that a declaration meets, if any, in the order in which the
/// generator looks.
pub open spec fn plan_refusal(shape: StructShape, meta: IdDstMeta) -> Option<PlanError> {
    if meta.validate is None && shape.generic_params > 0 {
        Some(PlanError::GenericUnchecked)
    } else if shape.has_where_clause {
        Some(PlanError::WhereClause)
    } else if shape.fields == FieldsShape::Unnamed(0) {
        Some(PlanError::NoFields)
    } else {
        None
    }
}

/// The field that holds the text.
pub open spec fn text_field_of(fields: FieldsShape) -> Option<usize> {
    match fields {
        FieldsShape::Unnamed(n) if n > 0 => Some((n - 1) as usize),
        _ => None,
    }
}

/// Finds the refusal that a declaration meets, if any. Whoever generates
/// from a declaration asks this first, and stops on a refusal.
pub fn check_plan(shape: &StructShape, meta: &IdDstMeta) -> (refusal: Option<PlanError>)
    ensures
        refusal == plan_refusal(*shape, *meta),
{
    if meta.validate.is_none() && shape.generic_params > 0 {
        return Some(PlanError::GenericUnchecked);
    }
    if shape.has_where_clause {
        return Some(PlanError::WhereClause);
    }
    match shape.fields {
        FieldsShape::Unnamed(n) => {
            if n == 0 {
                Some(PlanError::NoFields)
            } else {
                None
            }
        },
        _ => None,
    }
}

/// Plans what to generate for the kind that `shape` declares with the
/// arguments `meta`. A declaration that meets a refusal has no plan.
pub fn plan_expansion(shape: &StructShape, meta: IdDstMeta) -> (plan: ExpansionPlan)
    requires
        plan_refusal(*shape, meta) is None,
    ensures
        plan.owned_name@ == "Owned"@ + shape.name@,
        plan.inline_bytes == meta.spec_inline_capacity(),
        plan.validate == meta.validate,
        plan.text_field == text_field_of(shape.fields),
{
    let text_field = match shape.fields {
        FieldsShape::Named => None,
        FieldsShape::Unit => None,
        FieldsShape::Unnamed(n) => Some(n - 1),
    };
    let mut owned_name = String::from_str("Owned");
    owned_name.append(shape.name.as_str());
    let inline_bytes = meta.inline_capacity();
    ExpansionPlan { owned_name, inline_bytes, validate: meta.validate, text_field }
}

} // verus!
