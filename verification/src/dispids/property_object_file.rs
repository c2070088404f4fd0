//! `PropertyObjectFile` dispinterface members.
use vstd::prelude::*;

verus! {

/// `TypeUsageList`, read-only.
pub const TYPE_USAGE_LIST: i32 = 0x65;

/// `IncChangeCount`, no params.
pub const INC_CHANGE_COUNT: i32 = 0x66;

/// `Path`, read/write.
pub const PATH: i32 = 0x6c;

/// `Data`, read-only — the file's root property object.
pub const DATA: i32 = 0x6e;

} // verus!
