//! `TypeUsageList` dispinterface members.
use vstd::prelude::*;

verus! {

/// `NumTypes`, read-only.
pub const NUM_TYPES: i32 = 0x1;

/// `GetTypeDefinition`, 1 param.
pub const GET_TYPE_DEFINITION: i32 = 0x2;

/// `GetTypeIndex`, 1 param.
pub const GET_TYPE_INDEX: i32 = 0x3;

/// `InsertType`, 3 params.
pub const INSERT_TYPE: i32 = 0x4;

/// `RemoveType`, 1 param.
pub const REMOVE_TYPE: i32 = 0x5;

/// `ChangeCount`, read-only.
pub const CHANGE_COUNT: i32 = 0x9;

} // verus!
