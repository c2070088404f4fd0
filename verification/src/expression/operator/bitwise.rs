//! Bitwise operators.
use vstd::prelude::*;

use super::Arity;

verus! {

/// A bitwise operator.
///
/// Two measured behaviors make this family the easiest to misread:
///
/// * **`AND`, `OR`, `XOR` and `NOT` are bitwise, not logical**, despite reading
/// like English. `6 AND 3` is `2`, not `true`. The logical forms live in
/// [`LogicalOperator`](super::LogicalOperator).
/// * **`^` is exclusive-or, not exponentiation.** `2^3` is `1`, not `8`.
///
/// Complement operates on 32 bits and yields an unsigned result: `~0` is
/// `4294967295`, not `-1`.
#[derive(Debug, Clone, Copy, PartialEq, Eq, Hash, Structural)]
pub enum BitwiseOperator {
    /// Bitwise and, `&`.
    And,
    /// Bitwise or, `|`.
    Or,
    /// Bitwise exclusive-or, `^`.
    Xor,
    /// Bitwise complement, `~`.
    Not,
    /// Left shift, `<<`.
    ShiftLeft,
    /// Right shift, `>>`.
    ShiftRight,
    /// Bitwise and, `AND` — the word spelling of [`Self::And`].
    AndWord,
    /// Bitwise or, `OR` — the word spelling of [`Self::Or`].
    OrWord,
    /// Bitwise exclusive-or, `XOR` — the word spelling of [`Self::Xor`].
    XorWord,
    /// Bitwise complement, `NOT` — the word spelling of [`Self::Not`].
    NotWord,
}

impl BitwiseOperator {
    /// Every bitwise operator.
    pub const ALL: [BitwiseOperator; 10] = [
        BitwiseOperator::And,
        BitwiseOperator::Or,
        BitwiseOperator::Xor,
        BitwiseOperator::Not,
        BitwiseOperator::ShiftLeft,
        BitwiseOperator::ShiftRight,
        BitwiseOperator::AndWord,
        BitwiseOperator::OrWord,
        BitwiseOperator::XorWord,
        BitwiseOperator::NotWord,
    ];

    /// How the operator is written.
    pub open spec fn spelling(self) -> Seq<char> {
        match self {
            BitwiseOperator::And => "&"@,
            BitwiseOperator::Or => "|"@,
            BitwiseOperator::Xor => "^"@,
            BitwiseOperator::Not => "~"@,
            BitwiseOperator::ShiftLeft => "<<"@,
            BitwiseOperator::ShiftRight => ">>"@,
            BitwiseOperator::AndWord => "AND"@,
            BitwiseOperator::OrWord => "OR"@,
            BitwiseOperator::XorWord => "XOR"@,
            BitwiseOperator::NotWord => "NOT"@,
        }
    }

    /// How the operator is written.
    pub fn symbol(self) -> (symbol: &'static str)
        ensures
            symbol@ == self.spelling(),
    {
        match self {
            BitwiseOperator::And => "&",
            BitwiseOperator::Or => "|",
            BitwiseOperator::Xor => "^",
            BitwiseOperator::Not => "~",
            BitwiseOperator::ShiftLeft => "<<",
            BitwiseOperator::ShiftRight => ">>",
            BitwiseOperator::AndWord => "AND",
            BitwiseOperator::OrWord => "OR",
            BitwiseOperator::XorWord => "XOR",
            BitwiseOperator::NotWord => "NOT",
        }
    }

    /// How many operands it takes: one for complement, two otherwise.
    pub open spec fn operands(self) -> Arity {
        match self {
            BitwiseOperator::Not => Arity::Unary,
            BitwiseOperator::NotWord => Arity::Unary,
            _ => Arity::Binary,
        }
    }

    /// How many operands it takes.
    pub fn arity(self) -> (arity: Arity)
        ensures
            arity == self.operands(),
    {
        match self {
            BitwiseOperator::Not => Arity::Unary,
            BitwiseOperator::NotWord => Arity::Unary,
            _ => Arity::Binary,
        }
    }

    /// Binding strength; lower binds tighter. Measured on a live engine.
    pub open spec fn level(self) -> u8 {
        match self {
            BitwiseOperator::Not => 1,
            BitwiseOperator::NotWord => 1,
            BitwiseOperator::ShiftLeft => 4,
            BitwiseOperator::ShiftRight => 4,
            BitwiseOperator::And => 6,
            BitwiseOperator::AndWord => 6,
            BitwiseOperator::Xor => 7,
            BitwiseOperator::XorWord => 7,
            BitwiseOperator::Or => 8,
            BitwiseOperator::OrWord => 8,
        }
    }

    /// Binding strength; lower binds tighter.
    pub fn precedence(self) -> (level: u8)
        ensures
            level == self.level(),
    {
        match self {
            BitwiseOperator::Not => 1,
            BitwiseOperator::NotWord => 1,
            BitwiseOperator::ShiftLeft => 4,
            BitwiseOperator::ShiftRight => 4,
            BitwiseOperator::And => 6,
            BitwiseOperator::AndWord => 6,
            BitwiseOperator::Xor => 7,
            BitwiseOperator::XorWord => 7,
            BitwiseOperator::Or => 8,
            BitwiseOperator::OrWord => 8,
        }
    }

    /// The word spelling of a symbol operator, or the symbol of a word one.
    pub open spec fn other_spelling(self) -> Option<BitwiseOperator> {
        match self {
            BitwiseOperator::And => Some(BitwiseOperator::AndWord),
            BitwiseOperator::AndWord => Some(BitwiseOperator::And),
            BitwiseOperator::Or => Some(BitwiseOperator::OrWord),
            BitwiseOperator::OrWord => Some(BitwiseOperator::Or),
            BitwiseOperator::Xor => Some(BitwiseOperator::XorWord),
            BitwiseOperator::XorWord => Some(BitwiseOperator::Xor),
            BitwiseOperator::Not => Some(BitwiseOperator::NotWord),
            BitwiseOperator::NotWord => Some(BitwiseOperator::Not),
            _ => None,
        }
    }

    /// The other spelling, for operators that have one.
    pub fn alternate_spelling(self) -> (other: Option<BitwiseOperator>)
        ensures
            other == self.other_spelling(),
    {
        match self {
            BitwiseOperator::And => Some(BitwiseOperator::AndWord),
            BitwiseOperator::AndWord => Some(BitwiseOperator::And),
            BitwiseOperator::Or => Some(BitwiseOperator::OrWord),
            BitwiseOperator::OrWord => Some(BitwiseOperator::Or),
            BitwiseOperator::Xor => Some(BitwiseOperator::XorWord),
            BitwiseOperator::XorWord => Some(BitwiseOperator::Xor),
            BitwiseOperator::Not => Some(BitwiseOperator::NotWord),
            BitwiseOperator::NotWord => Some(BitwiseOperator::Not),
            _ => None,
        }
    }
}

/// The length of each spelling, and the characters that tell apart
/// spellings of equal length.
pub(crate) proof fn lemma_spelling_facts(item: BitwiseOperator)
    ensures
        item.spelling().len() == match item {
            BitwiseOperator::And => 1nat,
            BitwiseOperator::Or => 1nat,
            BitwiseOperator::Xor => 1nat,
            BitwiseOperator::Not => 1nat,
            BitwiseOperator::ShiftLeft => 2nat,
            BitwiseOperator::ShiftRight => 2nat,
            BitwiseOperator::AndWord => 3nat,
            BitwiseOperator::OrWord => 2nat,
            BitwiseOperator::XorWord => 3nat,
            BitwiseOperator::NotWord => 3nat,
        },
        item.spelling().len() > 0 ==> item.spelling()[0] == match item {
            BitwiseOperator::And => '&',
            BitwiseOperator::Or => '|',
            BitwiseOperator::Xor => '^',
            BitwiseOperator::Not => '~',
            BitwiseOperator::ShiftLeft => '<',
            BitwiseOperator::ShiftRight => '>',
            BitwiseOperator::AndWord => 'A',
            BitwiseOperator::OrWord => 'O',
            BitwiseOperator::XorWord => 'X',
            BitwiseOperator::NotWord => 'N',
        },
{
    match item {
        BitwiseOperator::And => reveal_strlit("&"),
        BitwiseOperator::Or => reveal_strlit("|"),
        BitwiseOperator::Xor => reveal_strlit("^"),
        BitwiseOperator::Not => reveal_strlit("~"),
        BitwiseOperator::ShiftLeft => reveal_strlit("<<"),
        BitwiseOperator::ShiftRight => reveal_strlit(">>"),
        BitwiseOperator::AndWord => reveal_strlit("AND"),
        BitwiseOperator::OrWord => reveal_strlit("OR"),
        BitwiseOperator::XorWord => reveal_strlit("XOR"),
        BitwiseOperator::NotWord => reveal_strlit("NOT"),
    }
}

/// No two members of the family share a spelling.
pub proof fn lemma_spelling_distinct(a: BitwiseOperator, b: BitwiseOperator)
    requires
        a.spelling() == b.spelling(),
    ensures
        a == b,
{
    lemma_spelling_facts(a);
    lemma_spelling_facts(b);
}

/// Word and symbol spellings point at each other and behave alike.
pub proof fn lemma_alternate_spellings_agree(op: BitwiseOperator)
    ensures
        op.other_spelling() matches Some(other) ==> {
            &&& other.other_spelling() == Some(op)
            &&& other.level() == op.level()
            &&& other.operands() == op.operands()
            &&& other != op
        },
{
}

/// And binds tighter than exclusive-or, which binds tighter than or, in
/// either spelling.
pub proof fn lemma_and_xor_or_order(op: BitwiseOperator)
    ensures
        (op == BitwiseOperator::And || op == BitwiseOperator::AndWord) ==> op.level() < BitwiseOperator::Xor.level(),
        (op == BitwiseOperator::Xor || op == BitwiseOperator::XorWord) ==> op.level() < BitwiseOperator::Or.level(),
{
}

} // verus!
