//! A field that may hold a value, be absent, or hold an empty object in the
//! place of a value.
use vstd::prelude::*;

verus! {

/// What stands in the place of a value: the value, or an empty object.
#[derive(Debug)]
pub enum OrEmpty<T> {
    /// The value.
    NotEmpty(T),
    /// An empty object.
    Empty,
}

/// The value of a field that was read as absent, as an empty object, or as a
/// value: only the last has one.
pub fn or_empty<T>(field: Option<OrEmpty<T>>) -> (value: Option<T>)
    ensures
        value == match field {
            Some(OrEmpty::NotEmpty(a)) => Some(a),
            _ => None,
        },
{
    match field {
        Some(OrEmpty::NotEmpty(a)) => Some(a),
        _ => None,
    }
}

} // verus!
