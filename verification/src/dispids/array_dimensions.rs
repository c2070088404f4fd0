//! `ArrayDimensions` dispinterface members.
use vstd::prelude::*;

verus! {

/// `SetBoundsByStrings`, 2 params.
pub const SET_BOUNDS_BY_STRINGS: i32 = 0x6;

/// `LowerBoundsString`, read-only.
pub const LOWER_BOUNDS_STRING: i32 = 0x4;

/// `UpperBoundsString`, read-only.
pub const UPPER_BOUNDS_STRING: i32 = 0x5;

/// `NumDimensions`, read-only.
pub const NUM_DIMENSIONS: i32 = 0x14;

} // verus!
