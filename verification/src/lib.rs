//! A typed model of the TestStand engine's object model: its enumerations and
//! option masks, the expression language's vocabulary, licensing states, the
//! error classification, the array-bound grammar, and the small protocols a
//! host follows around the engine, each with a verified contract.
//!
//! The COM calls themselves are made by the host; what this crate holds is
//! everything the host decides or computes around them.
use vstd::prelude::*;

pub mod adapters;
pub mod dispids;
pub mod enums;
pub mod error;
mod error_codes;
pub mod execution;
pub mod expression;
pub mod flags;
pub mod license;
pub mod messaging;
pub mod property;
pub mod sequence;
pub mod text;

pub use adapters::AdapterKeyName;
pub use enums::{
    ExecRunState, ExecTermState, OpenWorkspaceFileOptions, PropValType, PropertyValueTypeFlags,
    SaveWorkspaceFileOptions, SearchDirectoryType, StepGroup,
};
pub use error::Error;
pub use execution::{ResultError, ThreadTerminationOption};
pub use expression::{
    ArithmeticOperator, Arity, ArrayFunction, AssignmentOperator, BitwiseOperator, ColorConstant,
    ComparisonOperator, DecimalPointLocalizationOption, LogicalOperator, NumericFunction, Operator,
    OperatorClass, OtherConstant, OtherFunction, OtherOperator, PropertyFunction, StringFunction,
    SwitchingFunction, TimeFunction,
};
pub use license::{AcquireLicenseOptions, ApplicationLicense, HeldLicense, LicenseType};
pub use messaging::{ShutdownProgress, UIMessageCode};
pub use property::{GetTemplatesFileOptions, PropertyOptions, PropertyRepresentation};
pub use sequence::{
    BreakpointScope, ConflictHandler, GetSeqFileOptions, ResultRecordingOption, RunMode,
};

verus! {

} // verus!
