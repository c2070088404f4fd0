//! Numeric expression functions.
use vstd::prelude::*;

verus! {

/// A numeric function of the expression language.
///
/// Names only: what each one computes is the engine's to document.
#[derive(Debug, Clone, Copy, PartialEq, Eq, Hash, Structural)]
pub enum NumericFunction {
    /// `Abs`.
    Abs,
    /// `ACos`.
    ACos,
    /// `Asc`.
    Asc,
    /// `ASin`.
    ASin,
    /// `ATan`.
    ATan,
    /// `Cos`.
    Cos,
    /// `Exp`.
    Exp,
    /// `Float64`.
    Float64,
    /// `Int64`.
    Int64,
    /// `Log`.
    Log,
    /// `Log10`.
    Log10,
    /// `Max`.
    Max,
    /// `Min`.
    Min,
    /// `Pow`.
    Pow,
    /// `Random`.
    Random,
    /// `Round`.
    Round,
    /// `Sin`.
    Sin,
    /// `Sqrt`.
    Sqrt,
    /// `Tan`.
    Tan,
    /// `UInt64`.
    UInt64,
    /// `Val`.
    Val,
}

impl NumericFunction {
    /// Every function in this family.
    pub const ALL: [NumericFunction; 21] = [
        NumericFunction::Abs,
        NumericFunction::ACos,
        NumericFunction::Asc,
        NumericFunction::ASin,
        NumericFunction::ATan,
        NumericFunction::Cos,
        NumericFunction::Exp,
        NumericFunction::Float64,
        NumericFunction::Int64,
        NumericFunction::Log,
        NumericFunction::Log10,
        NumericFunction::Max,
        NumericFunction::Min,
        NumericFunction::Pow,
        NumericFunction::Random,
        NumericFunction::Round,
        NumericFunction::Sin,
        NumericFunction::Sqrt,
        NumericFunction::Tan,
        NumericFunction::UInt64,
        NumericFunction::Val,
    ];

    /// How the function is written in an expression.
    pub open spec fn spelling(self) -> Seq<char> {
        match self {
            NumericFunction::Abs => "Abs"@,
            NumericFunction::ACos => "ACos"@,
            NumericFunction::Asc => "Asc"@,
            NumericFunction::ASin => "ASin"@,
            NumericFunction::ATan => "ATan"@,
            NumericFunction::Cos => "Cos"@,
            NumericFunction::Exp => "Exp"@,
            NumericFunction::Float64 => "Float64"@,
            NumericFunction::Int64 => "Int64"@,
            NumericFunction::Log => "Log"@,
            NumericFunction::Log10 => "Log10"@,
            NumericFunction::Max => "Max"@,
            NumericFunction::Min => "Min"@,
            NumericFunction::Pow => "Pow"@,
            NumericFunction::Random => "Random"@,
            NumericFunction::Round => "Round"@,
            NumericFunction::Sin => "Sin"@,
            NumericFunction::Sqrt => "Sqrt"@,
            NumericFunction::Tan => "Tan"@,
            NumericFunction::UInt64 => "UInt64"@,
            NumericFunction::Val => "Val"@,
        }
    }

    /// The name as written in an expression.
    pub fn name(self) -> (name: &'static str)
        ensures
            name@ == self.spelling(),
    {
        match self {
            NumericFunction::Abs => "Abs",
            NumericFunction::ACos => "ACos",
            NumericFunction::Asc => "Asc",
            NumericFunction::ASin => "ASin",
            NumericFunction::ATan => "ATan",
            NumericFunction::Cos => "Cos",
            NumericFunction::Exp => "Exp",
            NumericFunction::Float64 => "Float64",
            NumericFunction::Int64 => "Int64",
            NumericFunction::Log => "Log",
            NumericFunction::Log10 => "Log10",
            NumericFunction::Max => "Max",
            NumericFunction::Min => "Min",
            NumericFunction::Pow => "Pow",
            NumericFunction::Random => "Random",
            NumericFunction::Round => "Round",
            NumericFunction::Sin => "Sin",
            NumericFunction::Sqrt => "Sqrt",
            NumericFunction::Tan => "Tan",
            NumericFunction::UInt64 => "UInt64",
            NumericFunction::Val => "Val",
        }
    }
}

/// The length of each spelling, and the characters that tell apart
/// spellings of equal length.
pub(crate) proof fn lemma_spelling_facts(item: NumericFunction)
    ensures
        item.spelling().len() == match item {
            NumericFunction::Abs => 3nat,
            NumericFunction::ACos => 4nat,
            NumericFunction::Asc => 3nat,
            NumericFunction::ASin => 4nat,
            NumericFunction::ATan => 4nat,
            NumericFunction::Cos => 3nat,
            NumericFunction::Exp => 3nat,
            NumericFunction::Float64 => 7nat,
            NumericFunction::Int64 => 5nat,
            NumericFunction::Log => 3nat,
            NumericFunction::Log10 => 5nat,
            NumericFunction::Max => 3nat,
            NumericFunction::Min => 3nat,
            NumericFunction::Pow => 3nat,
            NumericFunction::Random => 6nat,
            NumericFunction::Round => 5nat,
            NumericFunction::Sin => 3nat,
            NumericFunction::Sqrt => 4nat,
            NumericFunction::Tan => 3nat,
            NumericFunction::UInt64 => 6nat,
            NumericFunction::Val => 3nat,
        },
        item.spelling().len() > 0 ==> item.spelling()[0] == match item {
            NumericFunction::Abs => 'A',
            NumericFunction::ACos => 'A',
            NumericFunction::Asc => 'A',
            NumericFunction::ASin => 'A',
            NumericFunction::ATan => 'A',
            NumericFunction::Cos => 'C',
            NumericFunction::Exp => 'E',
            NumericFunction::Float64 => 'F',
            NumericFunction::Int64 => 'I',
            NumericFunction::Log => 'L',
            NumericFunction::Log10 => 'L',
            NumericFunction::Max => 'M',
            NumericFunction::Min => 'M',
            NumericFunction::Pow => 'P',
            NumericFunction::Random => 'R',
            NumericFunction::Round => 'R',
            NumericFunction::Sin => 'S',
            NumericFunction::Sqrt => 'S',
            NumericFunction::Tan => 'T',
            NumericFunction::UInt64 => 'U',
            NumericFunction::Val => 'V',
        },
        item.spelling().len() > 1 ==> item.spelling()[1] == match item {
            NumericFunction::Abs => 'b',
            NumericFunction::ACos => 'C',
            NumericFunction::Asc => 's',
            NumericFunction::ASin => 'S',
            NumericFunction::ATan => 'T',
            NumericFunction::Cos => 'o',
            NumericFunction::Exp => 'x',
            NumericFunction::Float64 => 'l',
            NumericFunction::Int64 => 'n',
            NumericFunction::Log => 'o',
            NumericFunction::Log10 => 'o',
            NumericFunction::Max => 'a',
            NumericFunction::Min => 'i',
            NumericFunction::Pow => 'o',
            NumericFunction::Random => 'a',
            NumericFunction::Round => 'o',
            NumericFunction::Sin => 'i',
            NumericFunction::Sqrt => 'q',
            NumericFunction::Tan => 'a',
            NumericFunction::UInt64 => 'I',
            NumericFunction::Val => 'a',
        },
{
    match item {
        NumericFunction::Abs => reveal_strlit("Abs"),
        NumericFunction::ACos => reveal_strlit("ACos"),
        NumericFunction::Asc => reveal_strlit("Asc"),
        NumericFunction::ASin => reveal_strlit("ASin"),
        NumericFunction::ATan => reveal_strlit("ATan"),
        NumericFunction::Cos => reveal_strlit("Cos"),
        NumericFunction::Exp => reveal_strlit("Exp"),
        NumericFunction::Float64 => reveal_strlit("Float64"),
        NumericFunction::Int64 => reveal_strlit("Int64"),
        NumericFunction::Log => reveal_strlit("Log"),
        NumericFunction::Log10 => reveal_strlit("Log10"),
        NumericFunction::Max => reveal_strlit("Max"),
        NumericFunction::Min => reveal_strlit("Min"),
        NumericFunction::Pow => reveal_strlit("Pow"),
        NumericFunction::Random => reveal_strlit("Random"),
        NumericFunction::Round => reveal_strlit("Round"),
        NumericFunction::Sin => reveal_strlit("Sin"),
        NumericFunction::Sqrt => reveal_strlit("Sqrt"),
        NumericFunction::Tan => reveal_strlit("Tan"),
        NumericFunction::UInt64 => reveal_strlit("UInt64"),
        NumericFunction::Val => reveal_strlit("Val"),
    }
}

/// No two members of the family share a spelling.
pub proof fn lemma_spelling_distinct(a: NumericFunction, b: NumericFunction)
    requires
        a.spelling() == b.spelling(),
    ensures
        a == b,
{
    lemma_spelling_facts(a);
    lemma_spelling_facts(b);
}

} // verus!
