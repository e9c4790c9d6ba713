//! The error reported when a geometry field falls outside its allowed range.

use vstd::prelude::*;

verus! {

/// A field of the geometry record violated one of its bounds. The error
/// names the field, the value observed, and the bound it failed.
#[derive(Clone, Debug)]
pub enum BoundError {
    /// The field was below its minimum; `should_be` is that minimum.
    TooSmall { field: String, value: u64, should_be: u64 },
    /// The field was above its maximum; `should_be` is that maximum.
    TooBig { field: String, value: u64, should_be: u64 },
}

/// True when `e` reports `value` for the field named `name` as below the
/// minimum `bound`.
pub open spec fn is_too_small(e: BoundError, name: Seq<char>, value: u64, bound: u64) -> bool {
    &&& e matches BoundError::TooSmall { field, value: v, should_be }
    &&& field@ == name
    &&& v == value
    &&& should_be == bound
}

/// True when `e` reports `value` for the field named `name` as above the
/// maximum `bound`.
pub open spec fn is_too_big(e: BoundError, name: Seq<char>, value: u64, bound: u64) -> bool {
    &&& e matches BoundError::TooBig { field, value: v, should_be }
    &&& field@ == name
    &&& v == value
    &&& should_be == bound
}

impl BoundError {
    /// A below-minimum report for the named field.
    pub fn too_small(field: &str, value: u64, should_be: u64) -> (r: Self)
        ensures
            is_too_small(r, field@, value, should_be),
    {
        BoundError::TooSmall { field: field.to_owned(), value, should_be }
    }

    /// An above-maximum report for the named field.
    pub fn too_big(field: &str, value: u64, should_be: u64) -> (r: Self)
        ensures
            is_too_big(r, field@, value, should_be),
    {
        BoundError::TooBig { field: field.to_owned(), value, should_be }
    }
}

} // verus!
