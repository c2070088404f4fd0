//! Members of the `StationOptions` object (`IStationOptions`).
use vstd::prelude::*;

verus! {

pub const AUTO_LOGIN_SYSTEM_USER: i32 = 0x0003;

pub const RTE_OPTION: i32 = 0x0005;

pub const TRACING_ENABLED: i32 = 0x0006;

pub const BREAKPOINTS_ENABLED: i32 = 0x0007;

pub const DISABLE_RESULTS: i32 = 0x0008;

pub const ALWAYS_GOTO_CLEANUP_ON_FAILURE: i32 = 0x0009;

pub const INTERACTIVE_BRANCH_MODE: i32 = 0x000b;

pub const SET_TIME_LIMIT_ENABLED: i32 = 0x002c;

pub const SET_TIME_LIMIT: i32 = 0x002d;

pub const SET_TIME_LIMIT_ACTION: i32 = 0x002e;

pub const SHOW_HIDDEN_PROPERTIES: i32 = 0x000f;

pub const PROMPT_TO_FIND_FILES: i32 = 0x0010;

pub const STATION_ID: i32 = 0x0019;

pub const USE_STATION_MODEL: i32 = 0x001b;

pub const ALLOW_OTHER_MODELS: i32 = 0x001c;

pub const LANGUAGE: i32 = 0x001e;

pub const USE_LOCALIZED_DECIMAL_POINT: i32 = 0x001f;

pub const ALLOW_SEQUENCE_CALLS_FROM_REMOTE_MACHINE: i32 = 0x0022;

pub const ALLOW_ALL_USERS_ACCESS_FROM_REMOTE_MACHINE: i32 = 0x0023;

pub const SHOW_ENGINE_TRAY_ICON_ON_REMOTE_STATIONS: i32 = 0x0024;

pub const CHECK_OUT_FILES_WHEN_EDITED: i32 = 0x0025;

pub const PROMPT_WHEN_ADDING_FILES_TO_SC: i32 = 0x0026;

pub const USE_DIALOG_FOR_CHECK_OUT: i32 = 0x0027;

pub const CHECK_OUT_ONLY_SELECTED_FILES: i32 = 0x0028;

pub const UI_MESSAGE_DELAY: i32 = 0x002a;

pub const UI_MESSAGE_MIN_DELAY: i32 = 0x002b;

pub const INTERACTIVE_EXE_PROPAGATE_STATUS: i32 = 0x002f;

pub const BREAK_ON_STEP_FAILURE: i32 = 0x0030;

pub const BREAK_ON_SEQUENCE_FAILURE: i32 = 0x0031;

pub const DEBUG_OPTIONS: i32 = 0x0032;

pub const DEFAULT_FILE_WRITING_FORMAT: i32 = 0x003c;

pub const ALLOW_AUTOMATIC_TYPE_CONFLICT_RESOLUTION: i32 = 0x003d;

pub const FILE_MODIFICATION_INDICATOR_POLICY: i32 = 0x003e;

pub const PRELOAD_PROGRESS_DELAY: i32 = 0x0040;

pub const AUTO_CREATE_VARIABLE_LOCATION: i32 = 0x0048;

pub const ALLOW_CANCELLING_PRELOAD_EXPRESSION: i32 = 0x0041;

pub const DEFAULT_CPU_AFFINITY_FOR_THREADS: i32 = 0x003f;

pub const DEFAULT_CPU_AFFINITY_FOR_THREADS_EX: i32 = 0x0042;

pub const ENABLE_USER_PRIVILEGE_CHECKING: i32 = 0x0002;

pub const EXECUTION_MASK: i32 = 0x000a;

pub const LOGIN_ON_START: i32 = 0x0043;

pub const RECOGNIZE_MB_CHARS: i32 = 0x0020;

pub const RELOAD_DOCS_WHEN_OPENING_WORKSPACE: i32 = 0x0017;

pub const RELOAD_WORKSPACE_AT_STARTUP: i32 = 0x0018;

pub const REQUIRE_USER_LOGIN: i32 = 0x0004;

pub const STATION_MODEL_SEQUENCE_FILE_PATH: i32 = 0x001d;

pub const SYSTEM_DEFAULT_SOURCE_CODE_CONTROL_PROVIDER: i32 = 0x0029;

pub const TYPE_VERSION_AUTO_INCREMENT_PROMPT_OPT: i32 = 0x0016;

pub const USER_FILE_PATH: i32 = 0x0001;

} // verus!
