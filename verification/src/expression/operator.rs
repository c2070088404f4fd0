//! The engine's expression operators, one module per family.
//!
//! No precedence table exists in the published reference, so each relation
//! was established by evaluating an expression on a live engine: `2+3*4` is
//! `14`, `1 << 2 + 1` is `8`, `1 & 3 == 3` is `1`, `1 | 2 & 3` is `3`,
//! `1 ^ 2 & 3` is `3`, and `0 || 1 && 0` is `False`. That gives levels 1
//! (tightest) through 10 (loosest). Assignment reports no level: it binds
//! loosest, but its exact level was never measured.
use vstd::prelude::*;

pub mod arithmetic;
pub mod assignment;
pub mod bitwise;
pub mod comparison;
pub mod logical;
pub mod other;

pub use arithmetic::ArithmeticOperator;
pub use assignment::AssignmentOperator;
pub use bitwise::BitwiseOperator;
pub use comparison::ComparisonOperator;
pub use logical::LogicalOperator;
pub use other::OtherOperator;

verus! {

/// How many operands an operator takes.
#[derive(Debug, Clone, Copy, PartialEq, Eq, Hash, Structural)]
pub enum Arity {
    /// One operand.
    Unary,
    /// Two operands.
    Binary,
}

/// The family an operator belongs to.
#[derive(Debug, Clone, Copy, PartialEq, Eq, Hash, Structural)]
pub enum OperatorClass {
    /// Numeric arithmetic.
    Arithmetic,
    /// Assignment, including the compound forms.
    Assignment,
    /// Bit manipulation.
    Bitwise,
    /// Value comparison, yielding a boolean.
    Comparison,
    /// Boolean logic.
    Logical,
    /// Structure: grouping, indexing, separators, comments.
    Other,
}

/// Any operator in the expression language: a thin wrapper over the six
/// family types, for code that handles operators generically.
#[derive(Debug, Clone, Copy, PartialEq, Eq, Hash, Structural)]
pub enum Operator {
    /// An arithmetic operator.
    Arithmetic(ArithmeticOperator),
    /// An assignment operator.
    Assignment(AssignmentOperator),
    /// A bitwise operator.
    Bitwise(BitwiseOperator),
    /// A comparison operator.
    Comparison(ComparisonOperator),
    /// A logical operator.
    Logical(LogicalOperator),
    /// A structural element.
    Other(OtherOperator),
}

impl Operator {
    /// How the operator is written: the spelling of the wrapped operator.
    pub open spec fn spelling(self) -> Seq<char> {
        match self {
            Operator::Arithmetic(op) => op.spelling(),
            Operator::Assignment(op) => op.spelling(),
            Operator::Bitwise(op) => op.spelling(),
            Operator::Comparison(op) => op.spelling(),
            Operator::Logical(op) => op.spelling(),
            Operator::Other(op) => op.spelling(),
        }
    }

    /// The family the wrapped operator belongs to.
    pub open spec fn family(self) -> OperatorClass {
        match self {
            Operator::Arithmetic(_) => OperatorClass::Arithmetic,
            Operator::Assignment(_) => OperatorClass::Assignment,
            Operator::Bitwise(_) => OperatorClass::Bitwise,
            Operator::Comparison(_) => OperatorClass::Comparison,
            Operator::Logical(_) => OperatorClass::Logical,
            Operator::Other(_) => OperatorClass::Other,
        }
    }

    /// How many operands it takes; none for the structural elements.
    pub open spec fn operands(self) -> Option<Arity> {
        match self {
            Operator::Arithmetic(op) => Some(op.operands()),
            Operator::Assignment(_) => Some(Arity::Binary),
            Operator::Bitwise(op) => Some(op.operands()),
            Operator::Comparison(_) => Some(Arity::Binary),
            Operator::Logical(op) => Some(op.operands()),
            Operator::Other(_) => None,
        }
    }

    /// Binding level; none where it was not measured (assignment) or does not
    /// apply (structure).
    pub open spec fn level(self) -> Option<u8> {
        match self {
            Operator::Arithmetic(op) => Some(op.level()),
            Operator::Assignment(_) => None,
            Operator::Bitwise(op) => Some(op.level()),
            Operator::Comparison(op) => Some(op.level()),
            Operator::Logical(op) => Some(op.level()),
            Operator::Other(_) => None,
        }
    }

    /// How the operator is written in an expression.
    pub fn symbol(self) -> (symbol: &'static str)
        ensures
            symbol@ == self.spelling(),
    {
        match self {
            Operator::Arithmetic(op) => op.symbol(),
            Operator::Assignment(op) => op.symbol(),
            Operator::Bitwise(op) => op.symbol(),
            Operator::Comparison(op) => op.symbol(),
            Operator::Logical(op) => op.symbol(),
            Operator::Other(op) => op.symbol(),
        }
    }

    /// The family it belongs to.
    pub fn class(self) -> (class: OperatorClass)
        ensures
            class == self.family(),
    {
        match self {
            Operator::Arithmetic(_) => OperatorClass::Arithmetic,
            Operator::Assignment(_) => OperatorClass::Assignment,
            Operator::Bitwise(_) => OperatorClass::Bitwise,
            Operator::Comparison(_) => OperatorClass::Comparison,
            Operator::Logical(_) => OperatorClass::Logical,
            Operator::Other(_) => OperatorClass::Other,
        }
    }

    /// How many operands it takes, for the families where that applies.
    ///
    /// `None` for the structural elements: parentheses and comments do not take
    /// operands in the way an operator does.
    pub fn arity(self) -> (arity: Option<Arity>)
        ensures
            arity == self.operands(),
    {
        match self {
            Operator::Arithmetic(op) => Some(op.arity()),
            Operator::Assignment(op) => Some(op.arity()),
            Operator::Bitwise(op) => Some(op.arity()),
            Operator::Comparison(op) => Some(op.arity()),
            Operator::Logical(op) => Some(op.arity()),
            Operator::Other(_) => None,
        }
    }

    /// Binding strength; lower binds tighter. `None` where it was not measured.
    pub fn precedence(self) -> (level: Option<u8>)
        ensures
            level == self.level(),
    {
        match self {
            Operator::Arithmetic(op) => Some(op.precedence()),
            Operator::Bitwise(op) => Some(op.precedence()),
            Operator::Comparison(op) => Some(op.precedence()),
            Operator::Logical(op) => Some(op.precedence()),
            Operator::Assignment(op) => op.precedence(),
            Operator::Other(_) => None,
        }
    }
}

/// A structural element has neither an arity nor a level; every other
/// operator has an arity, and every one but assignment has a level.
pub proof fn lemma_structure_has_no_arity_or_level(op: Operator)
    ensures
        op.operands() is None <==> op.family() == OperatorClass::Other,
        op.level() is None <==> (op.family() == OperatorClass::Other || op.family()
            == OperatorClass::Assignment),
{
}

/// The measured order across families: every two-operand arithmetic operator
/// binds tighter than every shift, every shift tighter than every comparison,
/// every comparison tighter than every two-operand bitwise operator other than
/// a shift, and all of those tighter than the two-operand logical operators.
pub proof fn lemma_measured_order_across_families(
    arithmetic: ArithmeticOperator,
    comparison: ComparisonOperator,
    bitwise: BitwiseOperator,
    logical: LogicalOperator,
)
    ensures
        arithmetic.operands() == Arity::Binary ==> arithmetic.level()
            < BitwiseOperator::ShiftLeft.level(),
        BitwiseOperator::ShiftLeft.level() == BitwiseOperator::ShiftRight.level(),
        BitwiseOperator::ShiftRight.level() < comparison.level(),
        (bitwise.operands() == Arity::Binary && bitwise != BitwiseOperator::ShiftLeft && bitwise
            != BitwiseOperator::ShiftRight) ==> comparison.level() < bitwise.level(),
        logical != LogicalOperator::Not ==> bitwise.level() < logical.level(),
{
}

} // verus!
