//! Members of the `Engine` object (`IEngine`).
use vstd::prelude::*;

verus! {

pub const SHUT_DOWN: i32 = 0x0001;

pub const MAJOR_VERSION: i32 = 0x0135;

pub const MINOR_VERSION: i32 = 0x0136;

pub const REVISION_VERSION: i32 = 0x0137;

pub const VERSION_STRING: i32 = 0x0138;

pub const CONFIG_DIRECTORY: i32 = 0x0140;

pub const BIN_DIRECTORY: i32 = 0x0141;

pub const TESTSTAND_DIRECTORY: i32 = 0x0142;

pub const COMMIT_GLOBALS_TO_DISK: i32 = 0x011e;

pub const NEW_PROPERTY_OBJECT: i32 = 0x00aa;

pub const NEW_SEQUENCE_FILE: i32 = 0x000b;

pub const NEW_SEQUENCE: i32 = 0x001e;

pub const NEW_EXECUTION: i32 = 0x006e;

pub const GET_UI_MESSAGE: i32 = 0x00bf;

pub const UI_MESSAGE_POLLING_ENABLED: i32 = 0x017c;

pub const IS_UI_MESSAGE_QUEUE_EMPTY: i32 = 0x017d;

pub const POST_UI_MESSAGE: i32 = 0x0238;

pub const LOAD_TYPE_PALETTE_FILES: i32 = 0x01e2;

pub const UNLOAD_TYPE_PALETTE_FILES: i32 = 0x01e3;

pub const LOAD_TYPE_PALETTE_FILES_EX: i32 = 0x0232;

pub const NEW_STEP: i32 = 0x0032;

pub const NEW_USER: i32 = 0x0046;

pub const USER_NAME_EXISTS: i32 = 0x0047;

pub const GET_USER: i32 = 0x0048;

pub const CURRENT_USER_HAS_PRIVILEGE: i32 = 0x0049;

pub const CURRENT_USER: i32 = 0x012d;

pub const GET_SEQUENCE_FILE_EX: i32 = 0x01ab;

pub const RELEASE_SEQUENCE_FILE_EX: i32 = 0x01c5;

pub const SEARCH_DIRECTORIES: i32 = 0x0231;

pub const STATION_OPTIONS: i32 = 0x023b;

pub const GLOBALS: i32 = 0x012c;

pub const NEW_WORKSPACE_FILE: i32 = 0x0235;

pub const OPEN_WORKSPACE_FILE: i32 = 0x0236;

pub const CURRENT_WORKSPACE_FILE: i32 = 0x01c6;

pub const GET_TEMPLATES_FILE: i32 = 0x026e;

pub const BUILD_VERSION: i32 = 0x02d0;

pub const IS_64BIT: i32 = 0x0324;

} // verus!
