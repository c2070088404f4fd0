//! Logical operators.
use vstd::prelude::*;

use super::Arity;
use super::bitwise::BitwiseOperator;

verus! {

/// A logical operator, working on truth values.
///
/// These are the symbol forms only. The word forms `AND`, `OR`, `XOR` and `NOT`
/// are **bitwise** — see [`BitwiseOperator`](super::BitwiseOperator) — which is
/// the single most common misreading of the expression language.
#[derive(Debug, Clone, Copy, PartialEq, Eq, Hash, Structural)]
pub enum LogicalOperator {
    /// Logical and, `&&`.
    And,
    /// Logical or, `||`.
    Or,
    /// Logical not, `!`.
    Not,
}

impl LogicalOperator {
    /// Every logical operator.
    pub const ALL: [LogicalOperator; 3] = [
        LogicalOperator::And,
        LogicalOperator::Or,
        LogicalOperator::Not,
    ];

    /// How the operator is written.
    pub open spec fn spelling(self) -> Seq<char> {
        match self {
            LogicalOperator::And => "&&"@,
            LogicalOperator::Or => "||"@,
            LogicalOperator::Not => "!"@,
        }
    }

    /// How the operator is written.
    pub fn symbol(self) -> (symbol: &'static str)
        ensures
            symbol@ == self.spelling(),
    {
        match self {
            LogicalOperator::And => "&&",
            LogicalOperator::Or => "||",
            LogicalOperator::Not => "!",
        }
    }

    /// How many operands it takes: one for not, two otherwise.
    pub open spec fn operands(self) -> Arity {
        match self {
            LogicalOperator::Not => Arity::Unary,
            _ => Arity::Binary,
        }
    }

    /// How many operands it takes.
    pub fn arity(self) -> (arity: Arity)
        ensures
            arity == self.operands(),
    {
        match self {
            LogicalOperator::Not => Arity::Unary,
            _ => Arity::Binary,
        }
    }

    /// Binding strength; lower binds tighter. Measured on a live engine.
    pub open spec fn level(self) -> u8 {
        match self {
            LogicalOperator::Not => 1,
            LogicalOperator::And => 9,
            LogicalOperator::Or => 10,
        }
    }

    /// Binding strength; lower binds tighter.
    pub fn precedence(self) -> (level: u8)
        ensures
            level == self.level(),
    {
        match self {
            LogicalOperator::Not => 1,
            LogicalOperator::And => 9,
            LogicalOperator::Or => 10,
        }
    }
}

/// The length of each spelling, and the characters that tell apart
/// spellings of equal length.
pub(crate) proof fn lemma_spelling_facts(item: LogicalOperator)
    ensures
        item.spelling().len() == match item {
            LogicalOperator::And => 2nat,
            LogicalOperator::Or => 2nat,
            LogicalOperator::Not => 1nat,
        },
        item.spelling().len() > 0 ==> item.spelling()[0] == match item {
            LogicalOperator::And => '&',
            LogicalOperator::Or => '|',
            LogicalOperator::Not => '!',
        },
{
    match item {
        LogicalOperator::And => reveal_strlit("&&"),
        LogicalOperator::Or => reveal_strlit("||"),
        LogicalOperator::Not => reveal_strlit("!"),
    }
}

/// No two members of the family share a spelling.
pub proof fn lemma_spelling_distinct(a: LogicalOperator, b: LogicalOperator)
    requires
        a.spelling() == b.spelling(),
    ensures
        a == b,
{
    lemma_spelling_facts(a);
    lemma_spelling_facts(b);
}

/// Logical and binds tighter than logical or.
pub proof fn lemma_and_binds_tighter_than_or()
    ensures
        LogicalOperator::And.level() < LogicalOperator::Or.level(),
{
}

/// The two-operand logical operators bind looser than every bitwise one.
pub proof fn lemma_logical_looser_than_bitwise(op: LogicalOperator, bitwise: BitwiseOperator)
    requires
        op != LogicalOperator::Not,
    ensures
        bitwise.level() < op.level(),
{
}

/// Every logical symbol differs from every bitwise one: the doubled symbols
/// and `!` are what tell logic from bit manipulation.
pub proof fn lemma_logical_symbols_are_not_bitwise(op: LogicalOperator, bitwise: BitwiseOperator)
    ensures
        op.spelling() != bitwise.spelling(),
{
    lemma_spelling_facts(op);
    super::bitwise::lemma_spelling_facts(bitwise);
    match op {
        LogicalOperator::And => reveal_strlit("&&"),
        LogicalOperator::Or => reveal_strlit("||"),
        LogicalOperator::Not => reveal_strlit("!"),
    }
}

} // verus!
