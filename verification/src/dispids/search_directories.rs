//! Members of the `SearchDirectories` collection (`ISearchDirectories`).
use vstd::prelude::*;

verus! {

pub const ITEM: i32 = 0x0000;

pub const COUNT: i32 = 0x0002;

pub const INSERT: i32 = 0x0003;

pub const REMOVE: i32 = 0x0004;

pub const MOVE_SEARCH_DIRECTORY: i32 = 0x0005;

pub const RELOAD: i32 = 0x0006;

} // verus!
