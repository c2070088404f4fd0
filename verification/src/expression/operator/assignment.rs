//! Assignment operators.
use vstd::prelude::*;

use super::Arity;

verus! {

/// An assignment operator.
///
/// The plain form evaluates the right-hand side and stores it in the left-hand
/// operand, converting between types where it can, a number into a string
/// property, for instance. Assigning one container to another requires the
/// subproperty names on both sides to line up.
///
/// The compound forms apply their operation and then assign.
#[derive(Debug, Clone, Copy, PartialEq, Eq, Hash, Structural)]
pub enum AssignmentOperator {
    /// Assignment, `=`.
    Assign,
    /// Add and assign, `+=`.
    Add,
    /// Subtract and assign, `-=`.
    Subtract,
    /// Multiply and assign, `*=`.
    Multiply,
    /// Divide and assign, `/=`.
    Divide,
    /// Take the remainder and assign, `%=`.
    Modulo,
    /// Exclusive-or and assign, `^=`.
    Xor,
    /// Bitwise-or and assign, `|=`.
    Or,
    /// Bitwise-and and assign, `&=`.
    And,
}

impl AssignmentOperator {
    /// Every assignment operator.
    pub const ALL: [AssignmentOperator; 9] = [
        AssignmentOperator::Assign,
        AssignmentOperator::Add,
        AssignmentOperator::Subtract,
        AssignmentOperator::Multiply,
        AssignmentOperator::Divide,
        AssignmentOperator::Modulo,
        AssignmentOperator::Xor,
        AssignmentOperator::Or,
        AssignmentOperator::And,
    ];

    /// How the operator is written.
    pub open spec fn spelling(self) -> Seq<char> {
        match self {
            AssignmentOperator::Assign => "="@,
            AssignmentOperator::Add => "+="@,
            AssignmentOperator::Subtract => "-="@,
            AssignmentOperator::Multiply => "*="@,
            AssignmentOperator::Divide => "/="@,
            AssignmentOperator::Modulo => "%="@,
            AssignmentOperator::Xor => "^="@,
            AssignmentOperator::Or => "|="@,
            AssignmentOperator::And => "&="@,
        }
    }

    /// How the operator is written.
    pub fn symbol(self) -> (symbol: &'static str)
        ensures
            symbol@ == self.spelling(),
    {
        match self {
            AssignmentOperator::Assign => "=",
            AssignmentOperator::Add => "+=",
            AssignmentOperator::Subtract => "-=",
            AssignmentOperator::Multiply => "*=",
            AssignmentOperator::Divide => "/=",
            AssignmentOperator::Modulo => "%=",
            AssignmentOperator::Xor => "^=",
            AssignmentOperator::Or => "|=",
            AssignmentOperator::And => "&=",
        }
    }

    /// Always two operands.
    pub fn arity(self) -> (arity: Arity)
        ensures
            arity == Arity::Binary,
    {
        Arity::Binary
    }

    /// Binding strength, deliberately unmeasured.
    ///
    /// Assignment binds loosest of everything here, but the exact level was not
    /// established by evaluation, so it is reported as unknown rather than
    /// invented.
    pub fn precedence(self) -> (level: Option<u8>)
        ensures
            level is None,
    {
        None
    }
}

/// The length of each spelling, and the characters that tell apart
/// spellings of equal length.
pub(crate) proof fn lemma_spelling_facts(item: AssignmentOperator)
    ensures
        item.spelling().len() == match item {
            AssignmentOperator::Assign => 1nat,
            AssignmentOperator::Add => 2nat,
            AssignmentOperator::Subtract => 2nat,
            AssignmentOperator::Multiply => 2nat,
            AssignmentOperator::Divide => 2nat,
            AssignmentOperator::Modulo => 2nat,
            AssignmentOperator::Xor => 2nat,
            AssignmentOperator::Or => 2nat,
            AssignmentOperator::And => 2nat,
        },
        item.spelling().len() > 0 ==> item.spelling()[0] == match item {
            AssignmentOperator::Assign => '=',
            AssignmentOperator::Add => '+',
            AssignmentOperator::Subtract => '-',
            AssignmentOperator::Multiply => '*',
            AssignmentOperator::Divide => '/',
            AssignmentOperator::Modulo => '%',
            AssignmentOperator::Xor => '^',
            AssignmentOperator::Or => '|',
            AssignmentOperator::And => '&',
        },
{
    match item {
        AssignmentOperator::Assign => reveal_strlit("="),
        AssignmentOperator::Add => reveal_strlit("+="),
        AssignmentOperator::Subtract => reveal_strlit("-="),
        AssignmentOperator::Multiply => reveal_strlit("*="),
        AssignmentOperator::Divide => reveal_strlit("/="),
        AssignmentOperator::Modulo => reveal_strlit("%="),
        AssignmentOperator::Xor => reveal_strlit("^="),
        AssignmentOperator::Or => reveal_strlit("|="),
        AssignmentOperator::And => reveal_strlit("&="),
    }
}

/// No two members of the family share a spelling.
pub proof fn lemma_spelling_distinct(a: AssignmentOperator, b: AssignmentOperator)
    requires
        a.spelling() == b.spelling(),
    ensures
        a == b,
{
    lemma_spelling_facts(a);
    lemma_spelling_facts(b);
}

/// Every assignment symbol, plain or compound, ends in `=`.
pub proof fn lemma_every_symbol_ends_in_assign(op: AssignmentOperator)
    ensures
        op.spelling().len() >= 1,
        op.spelling().last() == '=',
{
    match op {
        AssignmentOperator::Assign => reveal_strlit("="),
        AssignmentOperator::Add => reveal_strlit("+="),
        AssignmentOperator::Subtract => reveal_strlit("-="),
        AssignmentOperator::Multiply => reveal_strlit("*="),
        AssignmentOperator::Divide => reveal_strlit("/="),
        AssignmentOperator::Modulo => reveal_strlit("%="),
        AssignmentOperator::Xor => reveal_strlit("^="),
        AssignmentOperator::Or => reveal_strlit("|="),
        AssignmentOperator::And => reveal_strlit("&="),
    }
}

} // verus!
