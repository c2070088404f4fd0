//! Comparison operators.
use vstd::prelude::*;

use super::Arity;

verus! {

/// A comparison operator, yielding a boolean.
///
/// Measured behaviors worth knowing:
///
/// * **Comparing two strings ignores case**: `"ABC" == "abc"` is true.
/// * A string compared with a number is converted to a number first.
/// * Two non-zero real values compare to 14 significant digits.
/// * `NAN` and `IND` count as equal to each other.
#[derive(Debug, Clone, Copy, PartialEq, Eq, Hash, Structural)]
pub enum ComparisonOperator {
    /// Equality, `==`.
    Equal,
    /// Inequality, `!=`.
    NotEqual,
    /// Less than, `<`.
    Less,
    /// Greater than, `>`.
    Greater,
    /// Less than or equal, `<=`.
    LessOrEqual,
    /// Greater than or equal, `>=`.
    GreaterOrEqual,
}

impl ComparisonOperator {
    /// Every comparison operator.
    pub const ALL: [ComparisonOperator; 6] = [
        ComparisonOperator::Equal,
        ComparisonOperator::NotEqual,
        ComparisonOperator::Less,
        ComparisonOperator::Greater,
        ComparisonOperator::LessOrEqual,
        ComparisonOperator::GreaterOrEqual,
    ];

    /// How the operator is written.
    pub open spec fn spelling(self) -> Seq<char> {
        match self {
            ComparisonOperator::Equal => "=="@,
            ComparisonOperator::NotEqual => "!="@,
            ComparisonOperator::Less => "<"@,
            ComparisonOperator::Greater => ">"@,
            ComparisonOperator::LessOrEqual => "<="@,
            ComparisonOperator::GreaterOrEqual => ">="@,
        }
    }

    /// How the operator is written.
    pub fn symbol(self) -> (symbol: &'static str)
        ensures
            symbol@ == self.spelling(),
    {
        match self {
            ComparisonOperator::Equal => "==",
            ComparisonOperator::NotEqual => "!=",
            ComparisonOperator::Less => "<",
            ComparisonOperator::Greater => ">",
            ComparisonOperator::LessOrEqual => "<=",
            ComparisonOperator::GreaterOrEqual => ">=",
        }
    }

    /// Always two operands.
    pub fn arity(self) -> (arity: Arity)
        ensures
            arity == Arity::Binary,
    {
        Arity::Binary
    }

    /// The one binding level every comparison shares.
    pub open spec fn level(self) -> u8 {
        5
    }

    /// Binding strength; lower binds tighter. Every comparison shares one
    /// level.
    pub fn precedence(self) -> (level: u8)
        ensures
            level == self.level(),
    {
        5
    }
}

/// The length of each spelling, and the characters that tell apart
/// spellings of equal length.
pub(crate) proof fn lemma_spelling_facts(item: ComparisonOperator)
    ensures
        item.spelling().len() == match item {
            ComparisonOperator::Equal => 2nat,
            ComparisonOperator::NotEqual => 2nat,
            ComparisonOperator::Less => 1nat,
            ComparisonOperator::Greater => 1nat,
            ComparisonOperator::LessOrEqual => 2nat,
            ComparisonOperator::GreaterOrEqual => 2nat,
        },
        item.spelling().len() > 0 ==> item.spelling()[0] == match item {
            ComparisonOperator::Equal => '=',
            ComparisonOperator::NotEqual => '!',
            ComparisonOperator::Less => '<',
            ComparisonOperator::Greater => '>',
            ComparisonOperator::LessOrEqual => '<',
            ComparisonOperator::GreaterOrEqual => '>',
        },
{
    match item {
        ComparisonOperator::Equal => reveal_strlit("=="),
        ComparisonOperator::NotEqual => reveal_strlit("!="),
        ComparisonOperator::Less => reveal_strlit("<"),
        ComparisonOperator::Greater => reveal_strlit(">"),
        ComparisonOperator::LessOrEqual => reveal_strlit("<="),
        ComparisonOperator::GreaterOrEqual => reveal_strlit(">="),
    }
}

/// No two members of the family share a spelling.
pub proof fn lemma_spelling_distinct(a: ComparisonOperator, b: ComparisonOperator)
    requires
        a.spelling() == b.spelling(),
    ensures
        a == b,
{
    lemma_spelling_facts(a);
    lemma_spelling_facts(b);
}

/// All comparisons share one binding level.
pub proof fn lemma_comparisons_share_one_level(a: ComparisonOperator, b: ComparisonOperator)
    ensures
        a.level() == b.level(),
{
}

} // verus!
