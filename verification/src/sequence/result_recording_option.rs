//! Whether a step records a result.
use vstd::prelude::*;

use crate::error::Error;

verus! {

/// Whether a step contributes an entry to the result list
/// (`ResultRecordingOptions`).
///
/// A step that records nothing leaves no trace in `ResultList`, so anything
/// reading results back sees a shorter list than the sequence has steps.
#[derive(Debug, Clone, Copy, PartialEq, Eq, Hash, Structural)]
#[non_exhaustive]
pub enum ResultRecordingOption {
    /// Record nothing for this step (`ResultRecordingOption_Disabled`).
    Disabled,
    /// Record a result, subject to the sequence's own setting
    /// (`ResultRecordingOption_Enabled`).
    Enabled,
    /// Record a result even when the sequence has recording switched off
    /// (`ResultRecordingOption_EnabledAndOverrideSequenceSetting`).
    EnabledAndOverrideSequenceSetting,
}

impl ResultRecordingOption {
    /// The number the engine exchanges for this value.
    pub open spec fn number(self) -> i32 {
        match self {
            ResultRecordingOption::Disabled => 0,
            ResultRecordingOption::Enabled => 1,
            ResultRecordingOption::EnabledAndOverrideSequenceSetting => 2,
        }
    }

    /// The number the engine exchanges for this option.
    pub fn bits(self) -> (bits: i32)
        ensures
            bits == self.number(),
    {
        match self {
            ResultRecordingOption::Disabled => 0,
            ResultRecordingOption::Enabled => 1,
            ResultRecordingOption::EnabledAndOverrideSequenceSetting => 2,
        }
    }

    /// The error a value this build does not name is reported with.
    pub open spec fn unnamed(error: Error) -> bool {
        error matches Error::UnexpectedType { expected, actual } && expected@
            == "a known result recording option (0, 1 or 2)"@ && actual@
            == "a value this build does not name"@
    }

    /// Recognizes a value read back from a step.
    ///
    /// A value this build does not name is reported rather than guessed at:
    /// silently folding it into `Disabled` would make a step look deliberately
    /// excluded from the report when the truth is unknown.
    pub fn from_bits(raw: i32) -> (decoded: Result<ResultRecordingOption, Error>)
        ensures
            match decoded {
                Ok(option) => option.number() == raw,
                Err(error) => ResultRecordingOption::unnamed(error) && forall|option: ResultRecordingOption| #[trigger] option.number() != raw,
            },
    {
        match raw {
            0 => Ok(ResultRecordingOption::Disabled),
            1 => Ok(ResultRecordingOption::Enabled),
            2 => Ok(ResultRecordingOption::EnabledAndOverrideSequenceSetting),
            _ => Err(
                Error::UnexpectedType {
                    expected: "a known result recording option (0, 1 or 2)",
                    actual: "a value this build does not name",
                },
            ),
        }
    }
}

impl Default for ResultRecordingOption {
    /// A step records its result unless told otherwise.
    fn default() -> (option: ResultRecordingOption)
        ensures
            option == ResultRecordingOption::Enabled,
    {
        ResultRecordingOption::Enabled
    }
}

/// Distinct values have distinct numbers.
pub proof fn lemma_result_recording_option_numbers_distinct(a: ResultRecordingOption, b: ResultRecordingOption)
    requires
        a.number() == b.number(),
    ensures
        a == b,
{
}

} // verus!
