//! The engine's names for its own error codes.
use vstd::prelude::*;

verus! {

/// The engine's name for an error code, when it has one.
pub open spec fn engine_code_name(code: i32) -> Option<Seq<char>> {
    if code == -17000 {
        Some("TS_Err_OutOfMemory"@)
    } else if code == -17308 {
        Some("TS_Err_UnexpectedType"@)
    } else {
        None
    }
}

/// `name` is the text of `spec_name`, or both are absent.
pub open spec fn names(name: Option<&'static str>, spec_name: Option<Seq<char>>) -> bool {
    match (name, spec_name) {
        (Some(text), Some(expected)) => text@ == expected,
        (None, None) => true,
        _ => false,
    }
}

/// The engine's name for an error code, when it has one.
pub fn code_name(code: i32) -> (name: Option<&'static str>)
    ensures
        names(name, engine_code_name(code)),
{
    if code == -17000 {
        Some("TS_Err_OutOfMemory")
    } else if code == -17308 {
        Some("TS_Err_UnexpectedType")
    } else {
        None
    }
}

} // verus!
