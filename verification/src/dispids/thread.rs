//! `Thread` dispinterface members.
use vstd::prelude::*;

verus! {

/// `GetSequenceContext`, 2 params — the second is an optional `[out]`
/// byref frame id, which is omitted.
pub const GET_SEQUENCE_CONTEXT: i32 = 0x5;

/// `AsPropertyObject`, no params.
pub const AS_PROPERTY_OBJECT: i32 = 0x1d;

/// `PostUIMessageEx`, 5 params; the fourth is `VT_UNKNOWN`.
pub const POST_UI_MESSAGE_EX: i32 = 0x29;

/// `WaitForEnd`, 2 params.
pub const WAIT_FOR_END: i32 = 0x9;

/// `Id`, read-only.
pub const ID: i32 = 0x20;

/// `DisplayName`, read-only string.
pub const DISPLAY_NAME: i32 = 0x1e;

/// `CallStackSize`, read-only.
pub const CALL_STACK_SIZE: i32 = 0x21;

/// `UniqueThreadId`, read-only string.
pub const UNIQUE_THREAD_ID: i32 = 0x33;

/// `Execution`, read-only.
pub const EXECUTION: i32 = 0x1f;

/// `ExternallySuspended`, read-only — true once a `Break` has taken effect.
pub const EXTERNALLY_SUSPENDED: i32 = 0x28;

} // verus!
