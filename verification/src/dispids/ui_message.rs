//! `UIMessage` dispinterface members.
use vstd::prelude::*;

verus! {

/// `AsPropertyObject`, no params.
pub const AS_PROPERTY_OBJECT: i32 = 0x1d;

/// `Event`, read-only.
pub const EVENT: i32 = 0x1e;

/// `IsSynchronous`, read-only.
pub const IS_SYNCHRONOUS: i32 = 0x1f;

/// `Execution`, read-only.
pub const EXECUTION: i32 = 0x20;

/// `Thread`, read-only.
pub const THREAD: i32 = 0x21;

/// `NumericData`, read-only.
pub const NUMERIC_DATA: i32 = 0x22;

/// `StringData`, read-only.
pub const STRING_DATA: i32 = 0x23;

/// `ActiveXData`, read-only. Declared `VT_UNKNOWN`, not `VT_DISPATCH`.
pub const ACTIVE_X_DATA: i32 = 0x25;

/// `Acknowledge`, no params.
pub const ACKNOWLEDGE: i32 = 0x3c;

} // verus!
