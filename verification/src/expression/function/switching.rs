//! Switching expression functions.
use vstd::prelude::*;

verus! {

/// A switching function of the expression language.
///
/// Names only: what each one computes is the engine's to document.
#[derive(Debug, Clone, Copy, PartialEq, Eq, Hash, Structural)]
pub enum SwitchingFunction {
    /// `SwitchConnect`.
    SwitchConnect,
    /// `SwitchConnectDisconnect`.
    SwitchConnectDisconnect,
    /// `SwitchDisconnect`.
    SwitchDisconnect,
    /// `SwitchDisconnectAll`.
    SwitchDisconnectAll,
    /// `SwitchFindRoute`.
    SwitchFindRoute,
}

impl SwitchingFunction {
    /// Every function in this family.
    pub const ALL: [SwitchingFunction; 5] = [
        SwitchingFunction::SwitchConnect,
        SwitchingFunction::SwitchConnectDisconnect,
        SwitchingFunction::SwitchDisconnect,
        SwitchingFunction::SwitchDisconnectAll,
        SwitchingFunction::SwitchFindRoute,
    ];

    /// How the function is written in an expression.
    pub open spec fn spelling(self) -> Seq<char> {
        match self {
            SwitchingFunction::SwitchConnect => "SwitchConnect"@,
            SwitchingFunction::SwitchConnectDisconnect => "SwitchConnectDisconnect"@,
            SwitchingFunction::SwitchDisconnect => "SwitchDisconnect"@,
            SwitchingFunction::SwitchDisconnectAll => "SwitchDisconnectAll"@,
            SwitchingFunction::SwitchFindRoute => "SwitchFindRoute"@,
        }
    }

    /// The name as written in an expression.
    pub fn name(self) -> (name: &'static str)
        ensures
            name@ == self.spelling(),
    {
        match self {
            SwitchingFunction::SwitchConnect => "SwitchConnect",
            SwitchingFunction::SwitchConnectDisconnect => "SwitchConnectDisconnect",
            SwitchingFunction::SwitchDisconnect => "SwitchDisconnect",
            SwitchingFunction::SwitchDisconnectAll => "SwitchDisconnectAll",
            SwitchingFunction::SwitchFindRoute => "SwitchFindRoute",
        }
    }
}

/// The length of each spelling, and the characters that tell apart
/// spellings of equal length.
pub(crate) proof fn lemma_spelling_facts(item: SwitchingFunction)
    ensures
        item.spelling().len() == match item {
            SwitchingFunction::SwitchConnect => 13nat,
            SwitchingFunction::SwitchConnectDisconnect => 23nat,
            SwitchingFunction::SwitchDisconnect => 16nat,
            SwitchingFunction::SwitchDisconnectAll => 19nat,
            SwitchingFunction::SwitchFindRoute => 15nat,
        },
{
    match item {
        SwitchingFunction::SwitchConnect => reveal_strlit("SwitchConnect"),
        SwitchingFunction::SwitchConnectDisconnect => reveal_strlit("SwitchConnectDisconnect"),
        SwitchingFunction::SwitchDisconnect => reveal_strlit("SwitchDisconnect"),
        SwitchingFunction::SwitchDisconnectAll => reveal_strlit("SwitchDisconnectAll"),
        SwitchingFunction::SwitchFindRoute => reveal_strlit("SwitchFindRoute"),
    }
}

/// No two members of the family share a spelling.
pub proof fn lemma_spelling_distinct(a: SwitchingFunction, b: SwitchingFunction)
    requires
        a.spelling() == b.spelling(),
    ensures
        a == b,
{
    lemma_spelling_facts(a);
    lemma_spelling_facts(b);
}

} // verus!
