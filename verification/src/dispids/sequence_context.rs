//! `SequenceContext` dispinterface members.
use vstd::prelude::*;

verus! {

/// `AsPropertyObject`, no params.
pub const AS_PROPERTY_OBJECT: i32 = 0x1d;

/// `Locals`, read-only.
pub const LOCALS: i32 = 0x36;

/// `Parameters`, read-only.
pub const PARAMETERS: i32 = 0x37;

/// `FileGlobals`, read-only — the run's own copy, not the file's defaults.
pub const FILE_GLOBALS: i32 = 0x38;

/// `StationGlobals`, read-only — outlives the execution.
pub const STATION_GLOBALS: i32 = 0x39;

/// `Execution`, read-only.
pub const EXECUTION: i32 = 0x31;

/// `Thread`, read-only.
pub const THREAD: i32 = 0x30;

/// `SequenceFile`, read-only — outlives the execution.
pub const SEQUENCE_FILE: i32 = 0x22;

/// `Sequence`, read-only.
pub const SEQUENCE: i32 = 0x21;

/// `Step`, read-only — present only while a step executes.
pub const STEP: i32 = 0x1e;

/// `StepIndex`, read-only.
pub const STEP_INDEX: i32 = 0x23;

/// `NumStepsExecuted`, read-only.
pub const NUM_STEPS_EXECUTED: i32 = 0x57;

/// `CallStackDepth`, read-only.
pub const CALL_STACK_DEPTH: i32 = 0x3a;

/// `SequenceFailed`, read-only.
pub const SEQUENCE_FAILED: i32 = 0x41;

/// `ErrorReported`, read-only.
pub const ERROR_REPORTED: i32 = 0x50;

/// `RunTimeErrorMessage`, read-only.
pub const RUN_TIME_ERROR_MESSAGE: i32 = 0x2a;

/// `Root`, read-only — the context's own property tree root, which is what
/// an expression means by `ThisContext`.
pub const ROOT: i32 = 0x2e;

/// `GetMultipleValues`, `[out]` byref — not bindable through the in-only
/// dispatch seam. Recorded so nobody re-derives it.
pub const GET_MULTIPLE_VALUES: i32 = 0x58;

} // verus!
