//! `Execution` dispinterface members.
use vstd::prelude::*;

verus! {

/// `Terminate`, no params.
pub const TERMINATE: i32 = 0x8;

/// `WaitForEnd`, obsolete; superseded by `WaitForEndEx`.
pub const WAIT_FOR_END: i32 = 0xc;

/// `WaitForEndEx`, 4 params (last two optional).
pub const WAIT_FOR_END_EX: i32 = 0x14;

/// `Id`, read-only.
pub const ID: i32 = 0x7b;

/// `Break`, no params — suspends the execution.
pub const BREAK: i32 = 0x1;

/// `Resume`, no params.
pub const RESUME: i32 = 0x2;

/// `Abort`, no params — stops without running cleanup.
pub const ABORT: i32 = 0x7;

/// `CancelTermination`, no params.
pub const CANCEL_TERMINATION: i32 = 0xa;

/// `GetThread`, 1 param.
pub const GET_THREAD: i32 = 0xd;

/// `AsPropertyObject`, no params.
pub const AS_PROPERTY_OBJECT: i32 = 0x1d;

/// `GetSequenceFile`, no params.
pub const GET_SEQUENCE_FILE: i32 = 0xe;

/// `StepOver`, no params.
pub const STEP_OVER: i32 = 0x3;

/// `StepInto`, no params.
pub const STEP_INTO: i32 = 0x4;

/// `StepOut`, no params.
pub const STEP_OUT: i32 = 0x5;

/// `GetFileGlobals`, no params.
pub const GET_FILE_GLOBALS: i32 = 0x84;

/// `ResultStatus`, read-only string.
pub const RESULT_STATUS: i32 = 0x78;

/// `DisplayName`, read-only string.
pub const DISPLAY_NAME: i32 = 0x7c;

/// `NumThreads`, read-only.
pub const NUM_THREADS: i32 = 0x32;

/// `ForegroundThread`, read-only.
pub const FOREGROUND_THREAD: i32 = 0x85;

/// `SequenceFilePath`, read-only string.
pub const SEQUENCE_FILE_PATH: i32 = 0x7e;

/// `SecondsExecuting`, read-only double.
pub const SECONDS_EXECUTING: i32 = 0x81;

/// `SecondsSuspended`, read-only double.
pub const SECONDS_SUSPENDED: i32 = 0x82;

/// `ErrorObject`, read-only.
pub const ERROR_OBJECT: i32 = 0x79;

/// `ResultObject`, read-only.
pub const RESULT_OBJECT: i32 = 0x7d;

/// `GetStates`, 2 `[out]` byref params — not bindable through the current
/// in-only dispatch seam. Recorded so nobody re-derives it.
pub const GET_STATES: i32 = 0x13;

} // verus!
