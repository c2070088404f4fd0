//! `Step` dispinterface members.
use vstd::prelude::*;

verus! {

/// `AsPropertyObject`, no params.
pub const AS_PROPERTY_OBJECT: i32 = 0x1;

/// `AdapterKeyName`, read/write — a string, not a number.
pub const ADAPTER_KEY_NAME: i32 = 0x15;

/// `RunMode`, read/write — a string, not a number.
pub const RUN_MODE: i32 = 0x17;

/// `Precondition`, read/write.
pub const PRECONDITION: i32 = 0x1a;

/// `PostExpression`, read/write.
pub const POST_EXPRESSION: i32 = 0x53;

/// `CreateNewUniqueStepId`, no params.
pub const CREATE_NEW_UNIQUE_STEP_ID: i32 = 0x9c;

/// `StepType`, read-only.
pub const STEP_TYPE: i32 = 0x22;

/// `RecordResult`, read/write.
pub const RECORD_RESULT: i32 = 0x54;

/// `Name`, read/write.
pub const NAME: i32 = 0x57;

/// `ResultRecordingOption`, read/write.
pub const RESULT_RECORDING_OPTION: i32 = 0xd2;

} // verus!
