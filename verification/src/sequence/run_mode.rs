//! How a step behaves when its sequence runs.
use vstd::prelude::*;

use crate::text::str_equals;

verus! {

/// What the engine does with a step when it reaches it (`RunModes`).
///
/// The engine exchanges this as a string, not a number, so a caller passing an
/// integer is silently setting something else. That is the whole reason this
/// type exists.
#[derive(Debug, Clone, Copy, PartialEq, Eq, Hash, Structural)]
#[non_exhaustive]
pub enum RunMode {
    /// Run the step and report what happened (`RunMode_Normal`).
    Normal,
    /// Do not run the step (`RunMode_Skip`).
    Skip,
    /// Do not run the step; report it as passed (`RunMode_ForcePass`).
    ForcePass,
    /// Do not run the step; report it as failed (`RunMode_ForceFail`).
    ForceFail,
}

/// `found` is the run mode spelled `value`, or `None` when no mode is.
pub open spec fn recognises(value: Seq<char>, found: Option<RunMode>) -> bool {
    match found {
        Some(mode) => mode.spelling() == value,
        None => forall|mode: RunMode| #[trigger] mode.spelling() != value,
    }
}

impl RunMode {
    /// The string the engine exchanges for this mode.
    pub open spec fn spelling(self) -> Seq<char> {
        match self {
            RunMode::Normal => "Normal"@,
            RunMode::Skip => "Skip"@,
            RunMode::ForcePass => "Pass"@,
            RunMode::ForceFail => "Fail"@,
        }
    }

    /// The value the engine expects.
    pub fn as_str(self) -> (value: &'static str)
        ensures
            value@ == self.spelling(),
    {
        match self {
            RunMode::Normal => "Normal",
            RunMode::Skip => "Skip",
            RunMode::ForcePass => "Pass",
            RunMode::ForceFail => "Fail",
        }
    }

    /// Recognizes a run mode read back from a step.
    ///
    /// `None` means a value this build does not name rather than a failure.
    pub fn from_value(value: &str) -> (found: Option<RunMode>)
        ensures
            recognises(value@, found),
    {
        let candidates = [RunMode::Normal, RunMode::Skip, RunMode::ForcePass, RunMode::ForceFail];
        let mut i: usize = 0;
        while i < 4
            invariant
                i <= 4,
                candidates@ == seq![
                    RunMode::Normal,
                    RunMode::Skip,
                    RunMode::ForcePass,
                    RunMode::ForceFail,
                ],
                forall|j: int| 0 <= j < i ==> candidates@[j].spelling() != value@,
            decreases 4 - i,
        {
            let candidate = candidates[i];
            if str_equals(candidate.as_str(), value) {
                return Some(candidate);
            }
            i = i + 1;
        }
        proof {
            assert forall|mode: RunMode| #[trigger] mode.spelling() != value@ by {
                match mode {
                    RunMode::Normal => assert(candidates@[0].spelling() != value@),
                    RunMode::Skip => assert(candidates@[1].spelling() != value@),
                    RunMode::ForcePass => assert(candidates@[2].spelling() != value@),
                    RunMode::ForceFail => assert(candidates@[3].spelling() != value@),
                }
            }
        }
        None
    }
}

impl Default for RunMode {
    /// A step runs unless told otherwise.
    fn default() -> (mode: RunMode)
        ensures
            mode == RunMode::Normal,
    {
        RunMode::Normal
    }
}

/// The length of each spelling, and the characters that tell apart
/// spellings of equal length.
pub(crate) proof fn lemma_spelling_facts(item: RunMode)
    ensures
        item.spelling().len() == match item {
            RunMode::Normal => 6nat,
            RunMode::Skip => 4nat,
            RunMode::ForcePass => 4nat,
            RunMode::ForceFail => 4nat,
        },
        item.spelling().len() > 0 ==> item.spelling()[0] == match item {
            RunMode::Normal => 'N',
            RunMode::Skip => 'S',
            RunMode::ForcePass => 'P',
            RunMode::ForceFail => 'F',
        },
{
    match item {
        RunMode::Normal => reveal_strlit("Normal"),
        RunMode::Skip => reveal_strlit("Skip"),
        RunMode::ForcePass => reveal_strlit("Pass"),
        RunMode::ForceFail => reveal_strlit("Fail"),
    }
}

/// No two members of the family share a spelling.
pub proof fn lemma_spelling_distinct(a: RunMode, b: RunMode)
    requires
        a.spelling() == b.spelling(),
    ensures
        a == b,
{
    lemma_spelling_facts(a);
    lemma_spelling_facts(b);
}

/// Every mode is recognised from its own spelling: reading back what was
/// written gives the same mode.
pub proof fn lemma_spelling_round_trips(mode: RunMode, found: Option<RunMode>)
    requires
        recognises(mode.spelling(), found),
    ensures
        found == Some(mode),
{
    match found {
        Some(other) => lemma_spelling_distinct(other, mode),
        None => {
            let witness = mode;
            assert(witness.spelling() != mode.spelling());
        },
    }
}

} // verus!
