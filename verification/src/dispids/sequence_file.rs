//! `SequenceFile` dispinterface members.
use vstd::prelude::*;

verus! {

/// `GetSequence`, 1 parameter.
pub const GET_SEQUENCE: i32 = 0x1;

/// `GetSequenceByName`, 1 parameter.
pub const GET_SEQUENCE_BY_NAME: i32 = 0x2;

/// `AsPropertyObjectFile`, no params.
pub const AS_PROPERTY_OBJECT_FILE: i32 = 0xe;

/// `Save`, 1 parameter.
pub const SAVE: i32 = 0x7;

/// `NumSequences`, read-only.
pub const NUM_SEQUENCES: i32 = 0x32;

/// `Path`, read-only.
pub const PATH: i32 = 0x34;

/// `InsertSequence`, 1 param.
pub const INSERT_SEQUENCE: i32 = 0x4;

/// `FileGlobalsDefaultValues`, read-only.
pub const FILE_GLOBALS_DEFAULT_VALUES: i32 = 0x33;

/// `GetSequenceIndex`, 1 parameter.
pub const GET_SEQUENCE_INDEX: i32 = 0xc;

} // verus!
