//! `PropertyObjectType` dispinterface members.
use vstd::prelude::*;

verus! {

/// `ValueType`, read-only.
pub const VALUE_TYPE: i32 = 0x1;

/// `IsObject`, read-only.
pub const IS_OBJECT: i32 = 0x2;

/// `Representation`, read/write.
pub const REPRESENTATION: i32 = 0xb;

/// `ArrayDimensions`, read-only.
pub const ARRAY_DIMENSIONS: i32 = 0x6;

/// `DisplayString`, read-only.
pub const DISPLAY_STRING: i32 = 0x5;

} // verus!
