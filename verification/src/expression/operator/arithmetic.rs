//! Arithmetic operators.
use vstd::prelude::*;

use super::Arity;

verus! {

/// An arithmetic operator.
///
/// Two behaviors differ from what the spelling suggests, both measured on a
/// live engine:
///
/// * **Division always produces a real number.** `7/2` is `3.5`, never `3`.
/// There is no integer division operator.
/// * **The remainder takes the sign of the left operand.** `-7 % 3` is `-1`.
/// That is truncated remainder, not the floored modulo some languages use, so
/// a negative operand does not wrap into the positive range.
///
/// There is no exponentiation operator; `^` belongs to the bitwise family.
#[derive(Debug, Clone, Copy, PartialEq, Eq, Hash, Structural)]
pub enum ArithmeticOperator {
    /// Addition, `+`.
    Add,
    /// Subtraction, or negation when applied to one operand, `-`.
    Subtract,
    /// Multiplication, `*`.
    Multiply,
    /// Division, `/`. Always real-valued.
    Divide,
    /// Remainder, `%`.
    Modulo,
    /// Remainder, `MOD` — the word spelling of [`Self::Modulo`].
    ModuloWord,
    /// Increment, `++`.
    Increment,
    /// Decrement, `--`.
    Decrement,
}

impl ArithmeticOperator {
    /// Every arithmetic operator.
    pub const ALL: [ArithmeticOperator; 8] = [
        ArithmeticOperator::Add,
        ArithmeticOperator::Subtract,
        ArithmeticOperator::Multiply,
        ArithmeticOperator::Divide,
        ArithmeticOperator::Modulo,
        ArithmeticOperator::ModuloWord,
        ArithmeticOperator::Increment,
        ArithmeticOperator::Decrement,
    ];

    /// How the operator is written.
    pub open spec fn spelling(self) -> Seq<char> {
        match self {
            ArithmeticOperator::Add => "+"@,
            ArithmeticOperator::Subtract => "-"@,
            ArithmeticOperator::Multiply => "*"@,
            ArithmeticOperator::Divide => "/"@,
            ArithmeticOperator::Modulo => "%"@,
            ArithmeticOperator::ModuloWord => "MOD"@,
            ArithmeticOperator::Increment => "++"@,
            ArithmeticOperator::Decrement => "--"@,
        }
    }

    /// How the operator is written.
    pub fn symbol(self) -> (symbol: &'static str)
        ensures
            symbol@ == self.spelling(),
    {
        match self {
            ArithmeticOperator::Add => "+",
            ArithmeticOperator::Subtract => "-",
            ArithmeticOperator::Multiply => "*",
            ArithmeticOperator::Divide => "/",
            ArithmeticOperator::Modulo => "%",
            ArithmeticOperator::ModuloWord => "MOD",
            ArithmeticOperator::Increment => "++",
            ArithmeticOperator::Decrement => "--",
        }
    }

    /// How many operands it takes: one for increment and decrement, two otherwise.
    pub open spec fn operands(self) -> Arity {
        match self {
            ArithmeticOperator::Increment => Arity::Unary,
            ArithmeticOperator::Decrement => Arity::Unary,
            _ => Arity::Binary,
        }
    }

    /// How many operands it takes.
    pub fn arity(self) -> (arity: Arity)
        ensures
            arity == self.operands(),
    {
        match self {
            ArithmeticOperator::Increment => Arity::Unary,
            ArithmeticOperator::Decrement => Arity::Unary,
            _ => Arity::Binary,
        }
    }

    /// Binding strength; lower binds tighter. Measured on a live engine.
    pub open spec fn level(self) -> u8 {
        match self {
            ArithmeticOperator::Increment => 1,
            ArithmeticOperator::Decrement => 1,
            ArithmeticOperator::Multiply => 2,
            ArithmeticOperator::Divide => 2,
            ArithmeticOperator::Modulo => 2,
            ArithmeticOperator::ModuloWord => 2,
            ArithmeticOperator::Add => 3,
            ArithmeticOperator::Subtract => 3,
        }
    }

    /// Binding strength; lower binds tighter.
    pub fn precedence(self) -> (level: u8)
        ensures
            level == self.level(),
    {
        match self {
            ArithmeticOperator::Increment => 1,
            ArithmeticOperator::Decrement => 1,
            ArithmeticOperator::Multiply => 2,
            ArithmeticOperator::Divide => 2,
            ArithmeticOperator::Modulo => 2,
            ArithmeticOperator::ModuloWord => 2,
            ArithmeticOperator::Add => 3,
            ArithmeticOperator::Subtract => 3,
        }
    }

    /// The other spelling of the remainder operator; no other operator has one.
    pub open spec fn other_spelling(self) -> Option<ArithmeticOperator> {
        match self {
            ArithmeticOperator::Modulo => Some(ArithmeticOperator::ModuloWord),
            ArithmeticOperator::ModuloWord => Some(ArithmeticOperator::Modulo),
            _ => None,
        }
    }

    /// The other spelling, for the operator that has one.
    pub fn alternate_spelling(self) -> (other: Option<ArithmeticOperator>)
        ensures
            other == self.other_spelling(),
    {
        match self {
            ArithmeticOperator::Modulo => Some(ArithmeticOperator::ModuloWord),
            ArithmeticOperator::ModuloWord => Some(ArithmeticOperator::Modulo),
            _ => None,
        }
    }
}

/// The length of each spelling, and the characters that tell apart
/// spellings of equal length.
pub(crate) proof fn lemma_spelling_facts(item: ArithmeticOperator)
    ensures
        item.spelling().len() == match item {
            ArithmeticOperator::Add => 1nat,
            ArithmeticOperator::Subtract => 1nat,
            ArithmeticOperator::Multiply => 1nat,
            ArithmeticOperator::Divide => 1nat,
            ArithmeticOperator::Modulo => 1nat,
            ArithmeticOperator::ModuloWord => 3nat,
            ArithmeticOperator::Increment => 2nat,
            ArithmeticOperator::Decrement => 2nat,
        },
        item.spelling().len() > 0 ==> item.spelling()[0] == match item {
            ArithmeticOperator::Add => '+',
            ArithmeticOperator::Subtract => '-',
            ArithmeticOperator::Multiply => '*',
            ArithmeticOperator::Divide => '/',
            ArithmeticOperator::Modulo => '%',
            ArithmeticOperator::ModuloWord => 'M',
            ArithmeticOperator::Increment => '+',
            ArithmeticOperator::Decrement => '-',
        },
{
    match item {
        ArithmeticOperator::Add => reveal_strlit("+"),
        ArithmeticOperator::Subtract => reveal_strlit("-"),
        ArithmeticOperator::Multiply => reveal_strlit("*"),
        ArithmeticOperator::Divide => reveal_strlit("/"),
        ArithmeticOperator::Modulo => reveal_strlit("%"),
        ArithmeticOperator::ModuloWord => reveal_strlit("MOD"),
        ArithmeticOperator::Increment => reveal_strlit("++"),
        ArithmeticOperator::Decrement => reveal_strlit("--"),
    }
}

/// No two members of the family share a spelling.
pub proof fn lemma_spelling_distinct(a: ArithmeticOperator, b: ArithmeticOperator)
    requires
        a.spelling() == b.spelling(),
    ensures
        a == b,
{
    lemma_spelling_facts(a);
    lemma_spelling_facts(b);
}

/// The two spellings of an operator point at each other and behave alike.
pub proof fn lemma_alternate_spellings_agree(op: ArithmeticOperator)
    ensures
        op.other_spelling() matches Some(other) ==> {
            &&& other.other_spelling() == Some(op)
            &&& other.level() == op.level()
            &&& other.operands() == op.operands()
            &&& other != op
        },
{
}

/// No arithmetic operator is spelled `^`: that symbol is exclusive-or, and
/// there is no exponentiation operator.
pub proof fn lemma_no_operator_spells_exponentiation(op: ArithmeticOperator)
    ensures
        op.spelling() != "^"@,
{
    reveal_strlit("^");
    lemma_spelling_facts(op);
}

/// Arithmetic binds in three levels, the three tightest of the language:
/// increment and decrement at 1; multiplication, division and both spellings
/// of the remainder together at 2; addition and subtraction at 3. So
/// `2 + 5 % 3` groups as `2 + (5 % 3)`.
pub proof fn lemma_multiplicative_binds_tighter_than_additive(op: ArithmeticOperator)
    ensures
        (op == ArithmeticOperator::Increment || op == ArithmeticOperator::Decrement) ==> op.level()
            == 1,
        (op == ArithmeticOperator::Multiply || op == ArithmeticOperator::Divide || op
            == ArithmeticOperator::Modulo || op == ArithmeticOperator::ModuloWord) ==> op.level()
            == 2,
        (op == ArithmeticOperator::Add || op == ArithmeticOperator::Subtract) ==> op.level() == 3,
        ArithmeticOperator::Modulo.level() == ArithmeticOperator::Multiply.level(),
        ArithmeticOperator::Multiply.level() < ArithmeticOperator::Add.level(),
{
}

} // verus!
