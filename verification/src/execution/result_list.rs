//! Reading an execution's recorded results: what a recorded result says went
//! wrong, and the rules by which a result's optional fields are read.
//!
//! Each field of a result is optional in the engine's tree, and a missing one
//! is normal rather than an error: an action step records no measurement, and
//! a result written by a custom step type may carry neither name nor type.
use vstd::prelude::*;

verus! {

/// What a step reported when something went wrong.
///
/// Every result carries the `Error` container, and `occurred` is the flag that
/// says whether the rest of it means anything.
#[derive(Debug, Clone, PartialEq, Default)]
#[non_exhaustive]
pub struct ResultError {
    /// Whether an error was reported at all. When false, the other two fields
    /// carry no meaning.
    pub occurred: bool,
    /// The engine's numeric code for the failure.
    pub code: i32,
    /// The failure text, empty when the engine recorded none.
    pub message: String,
}

/// Which of a result's two measurement slots holds its reading.
#[derive(Debug, Clone, Copy, PartialEq, Eq, Structural)]
pub enum MeasurementSource {
    /// The numeric slot: a numeric limit test's reading.
    Number,
    /// The string slot: a string value test's reading.
    Text,
    /// Neither: the step recorded no measurement, which is distinguishable
    /// from a test that measured zero.
    Absent,
}

/// Decides where a result's reading comes from, given whether its numeric
/// slot could be read and what its string slot held.
///
/// Numeric first: a numeric limit test carries both a number and, on some step
/// types, an empty string, and the number is the reading. An empty string is
/// no reading.
pub fn measurement_source(number_read: bool, text: Option<&str>) -> (source: MeasurementSource)
    ensures
        number_read ==> source == MeasurementSource::Number,
        !number_read && (text matches Some(found) && found@.len() > 0) ==> source
            == MeasurementSource::Text,
        !number_read && !(text matches Some(found) && found@.len() > 0) ==> source
            == MeasurementSource::Absent,
{
    if number_read {
        return MeasurementSource::Number;
    }
    match text {
        Some(found) => {
            if found.is_empty() {
                MeasurementSource::Absent
            } else {
                MeasurementSource::Text
            }
        },
        None => MeasurementSource::Absent,
    }
}

/// A result's limits from its two recorded bounds, each present when it could
/// be read: both bounds or neither. A range missing one end is not a range,
/// and reporting a half-open one as if it were checked would mislead a panel
/// drawing the limit.
pub fn limits_from_bounds<T>(low: Option<T>, high: Option<T>) -> (limits: Option<(T, T)>)
    ensures
        match (low, high) {
            (Some(l), Some(h)) => limits == Some((l, h)),
            _ => limits is None,
        },
{
    match (low, high) {
        (Some(l), Some(h)) => Some((l, h)),
        _ => None,
    }
}

/// A result's text field from what reading it gave: missing text becomes
/// empty, since a result written by a custom step type may carry neither name
/// nor type, and that is normal rather than an error. What the step name, step
/// type, status, report text and error message are read with.
pub fn text_or_empty(read: Option<String>) -> (text: String)
    ensures
        match read {
            Some(found) => text@ == found@,
            None => text@ == Seq::<char>::empty(),
        },
{
    match read {
        Some(found) => found,
        None => String::new(),
    }
}

/// A text slot's value when it holds something: an empty string reads as
/// nothing recorded, as a result's units do when the step recorded none.
pub fn recorded_text(read: Option<String>) -> (text: Option<String>)
    ensures
        match read {
            Some(found) => if found@.len() > 0 {
                text matches Some(kept) && kept@ == found@
            } else {
                text is None
            },
            None => text is None,
        },
{
    match read {
        Some(found) => {
            if found.as_str().is_empty() {
                None
            } else {
                Some(found)
            }
        },
        None => None,
    }
}

/// The range of result indexes still to read when `start` have been read
/// already and `recorded` exist: from `start`, or from zero when `start` is
/// negative, up to `recorded`.
///
/// What a streaming host polls with. The list only grows while a run is in
/// flight, so results already read do not shift index, and an offset at or
/// past the end yields nothing to read rather than an error.
pub fn unread_range(start: i32, recorded: i32) -> (range: (i32, i32))
    ensures
        range.0 == (if start < 0 {
            0
        } else {
            start
        }),
        range.1 == recorded,
{
    (if start < 0 {
        0
    } else {
        start
    }, recorded)
}

/// A poll that starts at or past the end has nothing to read, and a poll from
/// zero reads every recorded result.
pub proof fn lemma_poll_past_the_end_reads_nothing(start: i32, recorded: i32, range: (i32, i32))
    requires
        range.0 == (if start < 0 {
            0
        } else {
            start
        }),
        range.1 == recorded,
    ensures
        start >= recorded ==> range.0 >= range.1,
        start <= 0 ==> range.0 == 0,
{
}

} // verus!
