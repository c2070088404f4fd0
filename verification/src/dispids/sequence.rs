//! `Sequence` dispinterface members.
use vstd::prelude::*;

verus! {

/// `Parameters`, read-only.
pub const PARAMETERS: i32 = 0x32;

/// `Locals`, read-only.
pub const LOCALS: i32 = 0x33;

/// `Name`, read/write.
pub const NAME: i32 = 0x39;

/// `GetNumSteps`, 1 param.
pub const GET_NUM_STEPS: i32 = 0x1;

/// `GetStep`, 2 params.
pub const GET_STEP: i32 = 0x2;

/// `InsertStep`, 3 params.
pub const INSERT_STEP: i32 = 0x4;

/// `AsPropertyObject`, no params.
pub const AS_PROPERTY_OBJECT: i32 = 0xb;

/// `CreateNewUniqueStepIds`, no params.
pub const CREATE_NEW_UNIQUE_STEP_IDS: i32 = 0x46;

} // verus!
