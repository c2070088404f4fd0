//! The engine's expression language: its operators, functions and named
//! constants, and the decimal-point convention its text is written in.
use vstd::prelude::*;

pub mod constant;
pub mod decimal_point;
pub mod function;
pub mod operator;

pub use constant::{ColorConstant, OtherConstant};
pub use decimal_point::DecimalPointLocalizationOption;
pub use function::{
    ArrayFunction, NumericFunction, OtherFunction, PropertyFunction, StringFunction,
    SwitchingFunction, TimeFunction,
};
pub use operator::{
    ArithmeticOperator, Arity, AssignmentOperator, BitwiseOperator, ComparisonOperator,
    LogicalOperator, Operator, OperatorClass, OtherOperator,
};

verus! {

} // verus!
