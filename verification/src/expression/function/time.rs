//! Time expression functions.
use vstd::prelude::*;

verus! {

/// A time function of the expression language.
///
/// Names only: what each one computes is the engine's to document.
#[derive(Debug, Clone, Copy, PartialEq, Eq, Hash, Structural)]
pub enum TimeFunction {
    /// `Date`.
    Date,
    /// `Seconds`.
    Seconds,
    /// `Time`.
    Time,
}

impl TimeFunction {
    /// Every function in this family.
    pub const ALL: [TimeFunction; 3] = [
        TimeFunction::Date,
        TimeFunction::Seconds,
        TimeFunction::Time,
    ];

    /// How the function is written in an expression.
    pub open spec fn spelling(self) -> Seq<char> {
        match self {
            TimeFunction::Date => "Date"@,
            TimeFunction::Seconds => "Seconds"@,
            TimeFunction::Time => "Time"@,
        }
    }

    /// The name as written in an expression.
    pub fn name(self) -> (name: &'static str)
        ensures
            name@ == self.spelling(),
    {
        match self {
            TimeFunction::Date => "Date",
            TimeFunction::Seconds => "Seconds",
            TimeFunction::Time => "Time",
        }
    }
}

/// The length of each spelling, and the characters that tell apart
/// spellings of equal length.
pub(crate) proof fn lemma_spelling_facts(item: TimeFunction)
    ensures
        item.spelling().len() == match item {
            TimeFunction::Date => 4nat,
            TimeFunction::Seconds => 7nat,
            TimeFunction::Time => 4nat,
        },
        item.spelling().len() > 0 ==> item.spelling()[0] == match item {
            TimeFunction::Date => 'D',
            TimeFunction::Seconds => 'S',
            TimeFunction::Time => 'T',
        },
{
    match item {
        TimeFunction::Date => reveal_strlit("Date"),
        TimeFunction::Seconds => reveal_strlit("Seconds"),
        TimeFunction::Time => reveal_strlit("Time"),
    }
}

/// No two members of the family share a spelling.
pub proof fn lemma_spelling_distinct(a: TimeFunction, b: TimeFunction)
    requires
        a.spelling() == b.spelling(),
    ensures
        a == b,
{
    lemma_spelling_facts(a);
    lemma_spelling_facts(b);
}

} // verus!
