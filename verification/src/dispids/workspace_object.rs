//! Members of the `WorkspaceObject` object (`IWorkspaceObject`).
use vstd::prelude::*;

verus! {

pub const NEW_FOLDER: i32 = 0x0001;

pub const NEW_FILE: i32 = 0x0002;

pub const INSERT_OBJECT: i32 = 0x0003;

pub const PATH: i32 = 0x0004;

pub const DISPLAY_NAME: i32 = 0x0005;

pub const IS_CODE_MODULE: i32 = 0x0006;

pub const CODE_MODULE_SEQ_FILE_PATH: i32 = 0x0007;

pub const REMOVE_OBJECT: i32 = 0x0009;

pub const OBJECT_TYPE: i32 = 0x000b;

pub const SOURCE_CONTROL_STATUS: i32 = 0x000d;

pub const AS_PROPERTY_OBJECT: i32 = 0x000f;

pub const GET_ABSOLUTE_PATH: i32 = 0x0010;

pub const PROJECT_FILE: i32 = 0x0011;

pub const FILE_EXISTS: i32 = 0x0014;

pub const GET_PARENT_CONTAINER: i32 = 0x0017;

pub const NUM_CONTAINED_OBJECTS: i32 = 0x0018;

pub const GET_CONTAINED_OBJECT: i32 = 0x0019;

} // verus!
