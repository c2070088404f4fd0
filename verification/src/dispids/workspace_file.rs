//! Members of the `WorkspaceFile` object (`IWorkspaceFile`).
use vstd::prelude::*;

verus! {

pub const ROOT_WORKSPACE_OBJECT: i32 = 0x0001;

pub const AS_PROPERTY_OBJECT_FILE: i32 = 0x0004;

pub const IS_CONNECTED_TO_SC_PROVIDER: i32 = 0x0002;

pub const PROVIDER_NAME: i32 = 0x0003;

pub const FIND_WORKSPACE_OBJECT: i32 = 0x0006;

pub const SAVE_WORKSPACE_AND_PROJECT_FILES: i32 = 0x000a;

} // verus!
