//! Members of a `SearchDirectory` object (`ISearchDirectory`).
use vstd::prelude::*;

verus! {

pub const TYPE: i32 = 0x0001;

pub const PATH: i32 = 0x0002;

pub const SEARCH_SUBDIRECTORIES: i32 = 0x0003;

pub const FILE_EXTENSION_RESTRICTIONS: i32 = 0x0004;

pub const EXCLUDE_FILE_EXTENSION: i32 = 0x0005;

pub const DISABLED: i32 = 0x0006;

pub const EXCLUDE_HIDDEN_SUBDIRECTORIES: i32 = 0x0007;

} // verus!
