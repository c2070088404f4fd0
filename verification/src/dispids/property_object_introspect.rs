//! `PropertyObject` introspection members.
use vstd::prelude::*;

verus! {

/// `GetType`, 5 params — three are `[out]` byref, so it is not bindable
/// through the current in-only dispatch seam. Recorded for completeness.
pub const GET_TYPE: i32 = 0x214;

/// `GetNumSubProperties`, 1 param.
pub const GET_NUM_SUB_PROPERTIES: i32 = 0x228;

/// `GetNthSubPropertyName`, 3 params.
pub const GET_NTH_SUB_PROPERTY_NAME: i32 = 0x229;

/// `GetNthSubProperty`, 3 params.
pub const GET_NTH_SUB_PROPERTY: i32 = 0x282;

/// `GetTypeDisplayString`, 2 params.
pub const GET_TYPE_DISPLAY_STRING: i32 = 0x249;

/// `GetTypeFlags`, 2 params.
pub const GET_TYPE_FLAGS: i32 = 0x26c;

/// `Type`, read-only — yields a `PropertyObjectType`.
pub const TYPE: i32 = 0x284;

/// `GetValInteger64`, 2 params.
pub const GET_VAL_INTEGER64: i32 = 0x2d0;

/// `SetValInteger64`, 3 params.
pub const SET_VAL_INTEGER64: i32 = 0x2d1;

/// `GetValUnsignedInteger64`, 2 params.
pub const GET_VAL_UNSIGNED_INTEGER64: i32 = 0x2d4;

/// `SetValUnsignedInteger64`, 3 params.
pub const SET_VAL_UNSIGNED_INTEGER64: i32 = 0x2d5;

/// `Evaluate`, 1 param — obsolete, kept for older engines.
pub const EVALUATE: i32 = 0x23c;

/// `EvaluateEx`, 2 params.
pub const EVALUATE_EX: i32 = 0x28a;

/// `Name`, read/write.
pub const NAME: i32 = 0x24e;

/// `TypeVersion`, read/write.
pub const TYPE_VERSION: i32 = 0x26b;

/// `Attributes`, read-only.
pub const ATTRIBUTES: i32 = 0x286;

/// `Enumerators`, read-only.
pub const ENUMERATORS: i32 = 0x32a;

/// `UpdateEnumerators`, 1 param.
pub const UPDATE_ENUMERATORS: i32 = 0x32b;

/// `GetValueDisplayName`, 2 params.
pub const GET_VALUE_DISPLAY_NAME: i32 = 0x32d;

/// `NumericFormat`, read/write.
pub const NUMERIC_FORMAT: i32 = 0x276;

/// `GetFormattedValue`, 5 params.
pub const GET_FORMATTED_VALUE: i32 = 0x24a;

/// `GetPropertyObjectByOffset`, 2 params.
pub const GET_PROPERTY_OBJECT_BY_OFFSET: i32 = 0x254;

/// `SetNumElements`, 2 params.
pub const SET_NUM_ELEMENTS: i32 = 0x24c;

/// `GetNumElements`, no params.
pub const GET_NUM_ELEMENTS: i32 = 0x24b;

} // verus!
