//! Named constants that are not colors.
use vstd::prelude::*;

verus! {

/// Named constants that are not colors.
#[derive(Debug, Clone, Copy, PartialEq, Eq, Hash, Structural)]
pub enum OtherConstant {
    /// `True`.
    True,
    /// `False`.
    False,
    /// `Nothing`.
    Nothing,
    /// `PI`.
    Pi,
    /// `NAN`.
    Nan,
    /// `IND`.
    Ind,
    /// `INF`.
    Inf,
}

impl OtherConstant {
    /// Every value in this family.
    pub const ALL: [OtherConstant; 7] = [
        OtherConstant::True,
        OtherConstant::False,
        OtherConstant::Nothing,
        OtherConstant::Pi,
        OtherConstant::Nan,
        OtherConstant::Ind,
        OtherConstant::Inf,
    ];

    /// How the constant is written in an expression.
    pub open spec fn spelling(self) -> Seq<char> {
        match self {
            OtherConstant::True => "True"@,
            OtherConstant::False => "False"@,
            OtherConstant::Nothing => "Nothing"@,
            OtherConstant::Pi => "PI"@,
            OtherConstant::Nan => "NAN"@,
            OtherConstant::Ind => "IND"@,
            OtherConstant::Inf => "INF"@,
        }
    }

    /// The name as written in an expression.
    pub fn name(self) -> (name: &'static str)
        ensures
            name@ == self.spelling(),
    {
        match self {
            OtherConstant::True => "True",
            OtherConstant::False => "False",
            OtherConstant::Nothing => "Nothing",
            OtherConstant::Pi => "PI",
            OtherConstant::Nan => "NAN",
            OtherConstant::Ind => "IND",
            OtherConstant::Inf => "INF",
        }
    }

    /// Whether the constant names a value that is not an ordinary number:
    /// `NAN`, `IND` (a quiet NaN the engine treats as equal to `NAN`) and `INF`.
    pub open spec fn non_finite(self) -> bool {
        self == OtherConstant::Nan || self == OtherConstant::Ind || self == OtherConstant::Inf
    }

    /// Whether the constant names a value that is not an ordinary number.
    pub fn is_non_finite(self) -> (non_finite: bool)
        ensures
            non_finite == self.non_finite(),
    {
        matches!(self, OtherConstant::Nan | OtherConstant::Ind | OtherConstant::Inf)
    }
}

/// The length of each spelling, and the characters that tell apart
/// spellings of equal length.
pub(crate) proof fn lemma_spelling_facts(item: OtherConstant)
    ensures
        item.spelling().len() == match item {
            OtherConstant::True => 4nat,
            OtherConstant::False => 5nat,
            OtherConstant::Nothing => 7nat,
            OtherConstant::Pi => 2nat,
            OtherConstant::Nan => 3nat,
            OtherConstant::Ind => 3nat,
            OtherConstant::Inf => 3nat,
        },
        item.spelling().len() > 0 ==> item.spelling()[0] == match item {
            OtherConstant::True => 'T',
            OtherConstant::False => 'F',
            OtherConstant::Nothing => 'N',
            OtherConstant::Pi => 'P',
            OtherConstant::Nan => 'N',
            OtherConstant::Ind => 'I',
            OtherConstant::Inf => 'I',
        },
        item.spelling().len() > 2 ==> item.spelling()[2] == match item {
            OtherConstant::True => 'u',
            OtherConstant::False => 'l',
            OtherConstant::Nothing => 't',
            OtherConstant::Pi => ' ',
            OtherConstant::Nan => 'N',
            OtherConstant::Ind => 'D',
            OtherConstant::Inf => 'F',
        },
{
    match item {
        OtherConstant::True => reveal_strlit("True"),
        OtherConstant::False => reveal_strlit("False"),
        OtherConstant::Nothing => reveal_strlit("Nothing"),
        OtherConstant::Pi => reveal_strlit("PI"),
        OtherConstant::Nan => reveal_strlit("NAN"),
        OtherConstant::Ind => reveal_strlit("IND"),
        OtherConstant::Inf => reveal_strlit("INF"),
    }
}

/// No two members of the family share a spelling.
pub proof fn lemma_spelling_distinct(a: OtherConstant, b: OtherConstant)
    requires
        a.spelling() == b.spelling(),
    ensures
        a == b,
{
    lemma_spelling_facts(a);
    lemma_spelling_facts(b);
}

} // verus!
