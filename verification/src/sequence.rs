//! Sequence-file vocabulary: how files are opened, how steps run, record
//! results and take breakpoints.
use vstd::prelude::*;

pub mod breakpoint;
pub mod options;
pub mod result_recording_option;
pub mod run_mode;

pub use breakpoint::BreakpointScope;
pub use options::{ConflictHandler, GetSeqFileOptions};
pub use result_recording_option::ResultRecordingOption;
pub use run_mode::RunMode;

verus! {

} // verus!
