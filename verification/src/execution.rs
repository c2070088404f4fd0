//! Running sequences: how a thread answers a termination request, and what a
//! recorded result says went wrong.
use vstd::prelude::*;

pub mod result_list;
mod termination_option;

pub use result_list::{
    limits_from_bounds, measurement_source, recorded_text, text_or_empty, unread_range,
    MeasurementSource, ResultError,
};
pub use termination_option::ThreadTerminationOption;

verus! {

} // verus!
