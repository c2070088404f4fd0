//! Type-safe enums for TestStand options, types, and flags. Every number is the
//! engine's own.
use vstd::prelude::*;
use core::ops::{BitAnd, BitOr};
use vstd::std_specs::ops::{BitAndSpecImpl, BitOrSpecImpl};

use crate::flags::mask_contains;

verus! {

/// Property value types (`PropValType_*`).
#[derive(Debug, Clone, Copy, PartialEq, Eq, Hash, Structural)]
pub enum PropValType {
    /// Container object (`PropValType_Container = 0`).
    Container,
    /// String property (`PropValType_String = 1`).
    String,
    /// Boolean property (`PropValType_Boolean = 2`).
    Boolean,
    /// Numeric property (`PropValType_Number = 3`).
    Number,
    /// Named type instance (`PropValType_NamedType = 4`).
    NamedType,
    /// Property reference (`PropValType_Reference = 5`).
    Reference,
    /// Array property (`PropValType_Array = 6`).
    Array,
    /// Enum property (`PropValType_Enum = 7`).
    Enum,
}

impl PropValType {
    /// The number the engine exchanges for this value.
    pub open spec fn number(self) -> i32 {
        match self {
            PropValType::Container => 0,
            PropValType::String => 1,
            PropValType::Boolean => 2,
            PropValType::Number => 3,
            PropValType::NamedType => 4,
            PropValType::Reference => 5,
            PropValType::Array => 6,
            PropValType::Enum => 7,
        }
    }

    /// `decoded` is the value whose number is `raw`, or `raw` itself when no
    /// value has that number.
    pub open spec fn decodes(raw: i32, decoded: Result<Self, i32>) -> bool {
        match decoded {
            Ok(item) => item.number() == raw,
            Err(unknown) => unknown == raw && forall|item: PropValType| #[trigger] item.number() != raw,
        }
    }

    /// The number the engine exchanges for this value.
    pub fn bits(self) -> (bits: i32)
        ensures
            bits == self.number(),
    {
        match self {
            PropValType::Container => 0,
            PropValType::String => 1,
            PropValType::Boolean => 2,
            PropValType::Number => 3,
            PropValType::NamedType => 4,
            PropValType::Reference => 5,
            PropValType::Array => 6,
            PropValType::Enum => 7,
        }
    }

    /// Reads a raw value, returning it unchanged when unrecognized.
    pub fn from_bits(raw: i32) -> (decoded: Result<PropValType, i32>)
        ensures
            PropValType::decodes(raw, decoded),
    {
        match raw {
            0 => Ok(PropValType::Container),
            1 => Ok(PropValType::String),
            2 => Ok(PropValType::Boolean),
            3 => Ok(PropValType::Number),
            4 => Ok(PropValType::NamedType),
            5 => Ok(PropValType::Reference),
            6 => Ok(PropValType::Array),
            7 => Ok(PropValType::Enum),
            unknown => Err(unknown),
        }
    }
}

/// A set of property value type flags (`PropValTypeFlag_*`).
///
/// A bitmask, not an enumeration: the engine combines flags, and a caller
/// must be able to express "number or string".
///
/// A bitmask, not an enumeration: the engine combines flags. Bits this
/// build has no name for survive a round trip unchanged.
#[derive(Debug, Clone, Copy, PartialEq, Eq, Hash, Structural)]
pub struct PropertyValueTypeFlags {
    bits: i32,
}

impl View for PropertyValueTypeFlags {
    type V = i32;

    /// The raw mask.
    closed spec fn view(&self) -> i32 {
        self.bits
    }
}

impl PropertyValueTypeFlags {
    /// No flags set.
    pub fn none() -> (flags: PropertyValueTypeFlags)
        ensures
            flags@ == 0,
    {
        PropertyValueTypeFlags { bits: 0 }
    }

    /// Matches any property type (`PropValTypeFlag_Any`).
    pub fn any() -> (flags: PropertyValueTypeFlags)
        ensures
            flags@ == -1,
    {
        PropertyValueTypeFlags { bits: -1 }
    }

    /// Boolean property (`PropValTypeFlag_Boolean`).
    pub fn boolean() -> (flags: PropertyValueTypeFlags)
        ensures
            flags@ == 1,
    {
        PropertyValueTypeFlags { bits: 1 }
    }

    /// Numeric property (`PropValTypeFlag_Number`).
    pub fn number() -> (flags: PropertyValueTypeFlags)
        ensures
            flags@ == 2,
    {
        PropertyValueTypeFlags { bits: 2 }
    }

    /// String property (`PropValTypeFlag_String`).
    pub fn string() -> (flags: PropertyValueTypeFlags)
        ensures
            flags@ == 4,
    {
        PropertyValueTypeFlags { bits: 4 }
    }

    /// Reference property (`PropValTypeFlag_Reference`).
    pub fn reference() -> (flags: PropertyValueTypeFlags)
        ensures
            flags@ == 8,
    {
        PropertyValueTypeFlags { bits: 8 }
    }

    /// Container property (`PropValTypeFlag_Container`).
    pub fn container() -> (flags: PropertyValueTypeFlags)
        ensures
            flags@ == 16,
    {
        PropertyValueTypeFlags { bits: 16 }
    }

    /// Named type instance (`PropValTypeFlag_NamedType`).
    pub fn named_type() -> (flags: PropertyValueTypeFlags)
        ensures
            flags@ == 32,
    {
        PropertyValueTypeFlags { bits: 32 }
    }

    /// Boolean array (`PropValTypeFlag_BooleanArray`).
    pub fn boolean_array() -> (flags: PropertyValueTypeFlags)
        ensures
            flags@ == 64,
    {
        PropertyValueTypeFlags { bits: 64 }
    }

    /// Numeric array (`PropValTypeFlag_NumberArray`).
    pub fn number_array() -> (flags: PropertyValueTypeFlags)
        ensures
            flags@ == 128,
    {
        PropertyValueTypeFlags { bits: 128 }
    }

    /// String array (`PropValTypeFlag_StringArray`).
    pub fn string_array() -> (flags: PropertyValueTypeFlags)
        ensures
            flags@ == 256,
    {
        PropertyValueTypeFlags { bits: 256 }
    }

    /// Reference array (`PropValTypeFlag_ReferenceArray`).
    pub fn reference_array() -> (flags: PropertyValueTypeFlags)
        ensures
            flags@ == 512,
    {
        PropertyValueTypeFlags { bits: 512 }
    }

    /// Container array (`PropValTypeFlag_ContainerArray`).
    pub fn container_array() -> (flags: PropertyValueTypeFlags)
        ensures
            flags@ == 1024,
    {
        PropertyValueTypeFlags { bits: 1024 }
    }

    /// Array of a named type (`PropValTypeFlag_ArrayOfNamedType`).
    pub fn array_of_named_type() -> (flags: PropertyValueTypeFlags)
        ensures
            flags@ == 2048,
    {
        PropertyValueTypeFlags { bits: 2048 }
    }

    /// Empty / absent type (`PropValTypeFlag_Nothing`).
    pub fn nothing() -> (flags: PropertyValueTypeFlags)
        ensures
            flags@ == 4096,
    {
        PropertyValueTypeFlags { bits: 4096 }
    }

    /// Object reference (`PropValTypeFlag_Object`).
    pub fn object() -> (flags: PropertyValueTypeFlags)
        ensures
            flags@ == 16384,
    {
        PropertyValueTypeFlags { bits: 16384 }
    }

    /// Plain reference (`PropValTypeFlag_PlainReference`).
    pub fn plain_reference() -> (flags: PropertyValueTypeFlags)
        ensures
            flags@ == 32768,
    {
        PropertyValueTypeFlags { bits: 32768 }
    }

    /// Plain container (`PropValTypeFlag_PlainContainer`).
    pub fn plain_container() -> (flags: PropertyValueTypeFlags)
        ensures
            flags@ == 65536,
    {
        PropertyValueTypeFlags { bits: 65536 }
    }

    /// Enum type (`PropValTypeFlag_Enum`).
    pub fn enum_flag() -> (flags: PropertyValueTypeFlags)
        ensures
            flags@ == 131072,
    {
        PropertyValueTypeFlags { bits: 131072 }
    }

    /// The raw mask, as the engine exchanges it.
    pub fn bits(self) -> (bits: i32)
        ensures
            bits == self@,
    {
        self.bits
    }

    /// Takes a raw mask as it is, keeping bits this build has no name for.
    pub fn from_bits_retain(bits: i32) -> (flags: PropertyValueTypeFlags)
        ensures
            flags@ == bits,
    {
        PropertyValueTypeFlags { bits }
    }

    /// Whether no flag is set.
    pub fn is_empty(self) -> (empty: bool)
        ensures
            empty == (self@ == 0),
    {
        self.bits == 0
    }

    /// Whether every flag set in `other` is also set here.
    pub fn contains(self, other: PropertyValueTypeFlags) -> (contained: bool)
        ensures
            contained == mask_contains(self@, other@),
    {
        self.bits & other.bits == other.bits
    }

    /// The flags set in either mask.
    pub fn union(self, other: PropertyValueTypeFlags) -> (joined: PropertyValueTypeFlags)
        ensures
            joined@ == self@ | other@,
    {
        PropertyValueTypeFlags { bits: self.bits | other.bits }
    }

    /// The flags set in both masks.
    pub fn intersection(self, other: PropertyValueTypeFlags) -> (common: PropertyValueTypeFlags)
        ensures
            common@ == self@ & other@,
    {
        PropertyValueTypeFlags { bits: self.bits & other.bits }
    }
}

impl BitOr for PropertyValueTypeFlags {
    type Output = PropertyValueTypeFlags;

    fn bitor(self, rhs: PropertyValueTypeFlags) -> (result: PropertyValueTypeFlags)
        ensures
            result@ == self@ | rhs@,
    {
        self.union(rhs)
    }
}

impl BitOrSpecImpl for PropertyValueTypeFlags {
    open spec fn obeys_bitor_spec() -> bool {
        true
    }

    open spec fn bitor_req(self, rhs: PropertyValueTypeFlags) -> bool {
        true
    }

    closed spec fn bitor_spec(self, rhs: PropertyValueTypeFlags) -> PropertyValueTypeFlags {
        PropertyValueTypeFlags { bits: self.bits | rhs.bits }
    }
}

impl BitAnd for PropertyValueTypeFlags {
    type Output = PropertyValueTypeFlags;

    fn bitand(self, rhs: PropertyValueTypeFlags) -> (result: PropertyValueTypeFlags)
        ensures
            result@ == self@ & rhs@,
    {
        self.intersection(rhs)
    }
}

impl BitAndSpecImpl for PropertyValueTypeFlags {
    open spec fn obeys_bitand_spec() -> bool {
        true
    }

    open spec fn bitand_req(self, rhs: PropertyValueTypeFlags) -> bool {
        true
    }

    closed spec fn bitand_spec(self, rhs: PropertyValueTypeFlags) -> PropertyValueTypeFlags {
        PropertyValueTypeFlags { bits: self.bits & rhs.bits }
    }
}

impl Default for PropertyValueTypeFlags {
    /// No flags set.
    fn default() -> (flags: PropertyValueTypeFlags)
        ensures
            flags@ == 0,
    {
        PropertyValueTypeFlags { bits: 0 }
    }
}

/// Step execution groups in a sequence (`StepGroup_*`).
///
/// A sequence holds three ordered lists rather than one. Setup runs first, Main
/// carries the test, and Cleanup runs last, including after Main fails, which
/// is what makes it the place for anything that must happen regardless.
#[derive(Debug, Clone, Copy, PartialEq, Eq, Hash, Structural)]
pub enum StepGroup {
    /// Setup step group (`StepGroup_Setup = 0`).
    Setup,
    /// Main step group (`StepGroup_Main = 1`).
    Main,
    /// Cleanup step group (`StepGroup_Cleanup = 2`).
    Cleanup,
}

impl StepGroup {
    /// Every group, in execution order.
    pub const ALL: [StepGroup; 3] = [StepGroup::Setup, StepGroup::Main, StepGroup::Cleanup];

    /// The number the engine exchanges for this value.
    pub open spec fn number(self) -> i32 {
        match self {
            StepGroup::Setup => 0,
            StepGroup::Main => 1,
            StepGroup::Cleanup => 2,
        }
    }

    /// `decoded` is the value whose number is `raw`, or `raw` itself when no
    /// value has that number.
    pub open spec fn decodes(raw: i32, decoded: Result<Self, i32>) -> bool {
        match decoded {
            Ok(item) => item.number() == raw,
            Err(unknown) => unknown == raw && forall|item: StepGroup| #[trigger] item.number() != raw,
        }
    }

    /// The number the engine exchanges for this value.
    pub fn bits(self) -> (bits: i32)
        ensures
            bits == self.number(),
    {
        match self {
            StepGroup::Setup => 0,
            StepGroup::Main => 1,
            StepGroup::Cleanup => 2,
        }
    }

    /// Reads a raw value, returning it unchanged when unrecognized.
    pub fn from_bits(raw: i32) -> (decoded: Result<StepGroup, i32>)
        ensures
            StepGroup::decodes(raw, decoded),
    {
        match raw {
            0 => Ok(StepGroup::Setup),
            1 => Ok(StepGroup::Main),
            2 => Ok(StepGroup::Cleanup),
            unknown => Err(unknown),
        }
    }
}

/// Execution running states (`ExecRunState_*`).
#[derive(Debug, Clone, Copy, PartialEq, Eq, Hash, Structural)]
pub enum ExecRunState {
    /// Execution is currently running (`ExecRunState_Running = 1`).
    Running,
    /// Execution is paused (`ExecRunState_Paused = 2`).
    Paused,
    /// Execution is stopped (`ExecRunState_Stopped = 3`).
    Stopped,
}

impl ExecRunState {
    /// The number the engine exchanges for this value.
    pub open spec fn number(self) -> i32 {
        match self {
            ExecRunState::Running => 1,
            ExecRunState::Paused => 2,
            ExecRunState::Stopped => 3,
        }
    }

    /// The number the engine exchanges for this value.
    pub fn bits(self) -> (bits: i32)
        ensures
            bits == self.number(),
    {
        match self {
            ExecRunState::Running => 1,
            ExecRunState::Paused => 2,
            ExecRunState::Stopped => 3,
        }
    }
}

/// Execution termination states (`ExecTermState_*`).
#[derive(Debug, Clone, Copy, PartialEq, Eq, Hash, Structural)]
pub enum ExecTermState {
    /// Normal execution state (`ExecTermState_Normal = 1`).
    Normal,
    /// Execution is terminating (`ExecTermState_Terminating = 2`).
    Terminating,
    /// Interactive termination (`ExecTermState_TerminatingInteractive = 3`).
    TerminatingInteractive,
    /// Execution is aborting (`ExecTermState_Aborting = 4`).
    Aborting,
    /// Killing execution threads (`ExecTermState_KillingThreads = 5`).
    KillingThreads,
}

impl ExecTermState {
    /// The number the engine exchanges for this value.
    pub open spec fn number(self) -> i32 {
        match self {
            ExecTermState::Normal => 1,
            ExecTermState::Terminating => 2,
            ExecTermState::TerminatingInteractive => 3,
            ExecTermState::Aborting => 4,
            ExecTermState::KillingThreads => 5,
        }
    }

    /// The number the engine exchanges for this value.
    pub fn bits(self) -> (bits: i32)
        ensures
            bits == self.number(),
    {
        match self {
            ExecTermState::Normal => 1,
            ExecTermState::Terminating => 2,
            ExecTermState::TerminatingInteractive => 3,
            ExecTermState::Aborting => 4,
            ExecTermState::KillingThreads => 5,
        }
    }
}

/// Search directory categories (`SearchDirectoryType_*`).
#[derive(Debug, Clone, Copy, PartialEq, Eq, Hash, Structural)]
pub enum SearchDirectoryType {
    /// TestStand root directory (`SearchDirectoryType_TestStandDir = 1`).
    TestStandDir,
    /// TestStand bin directory (`SearchDirectoryType_TestStandBinDir = 2`).
    TestStandBinDir,
    /// Adapter support directory (`SearchDirectoryType_AdapterSupportDir = 3`).
    AdapterSupportDir,
    /// Application directory (`SearchDirectoryType_ApplicationDir = 4`).
    ApplicationDir,
    /// Initial working directory (`SearchDirectoryType_InitialWorkingDir = 5`).
    InitialWorkingDir,
    /// Windows system directory (`SearchDirectoryType_WindowsSystemDir = 6`).
    WindowsSystemDir,
    /// Windows directory (`SearchDirectoryType_WindowsDir = 7`).
    WindowsDir,
    /// PATH environment variable directory (`SearchDirectoryType_PathEnvironmentVarDir = 8`).
    PathEnvironmentVarDir,
    /// Current sequence file directory (`SearchDirectoryType_CurrentSequenceFileDir = 9`).
    CurrentSequenceFileDir,
    /// User/Public components directory (`SearchDirectoryType_UserComponentsDir = 11`).
    UserComponentsDir,
    /// NI components directory (`SearchDirectoryType_NIComponentsDir = 12`).
    NIComponentsDir,
    /// Current workspace directory (`SearchDirectoryType_CurrentWorkspaceDir = 13`).
    CurrentWorkspaceDir,
    /// Containing project directory (`SearchDirectoryType_ContainingProjectDir = 14`).
    ContainingProjectDir,
    /// Explicit user directory (`SearchDirectoryType_ExplicitDir = 15`).
    ExplicitDir,
    /// TestStand public directory (`SearchDirectoryType_TestStandPublicDir = 16`).
    TestStandPublicDir,
}

impl SearchDirectoryType {
    /// The number the engine exchanges for this value.
    pub open spec fn number(self) -> i32 {
        match self {
            SearchDirectoryType::TestStandDir => 1,
            SearchDirectoryType::TestStandBinDir => 2,
            SearchDirectoryType::AdapterSupportDir => 3,
            SearchDirectoryType::ApplicationDir => 4,
            SearchDirectoryType::InitialWorkingDir => 5,
            SearchDirectoryType::WindowsSystemDir => 6,
            SearchDirectoryType::WindowsDir => 7,
            SearchDirectoryType::PathEnvironmentVarDir => 8,
            SearchDirectoryType::CurrentSequenceFileDir => 9,
            SearchDirectoryType::UserComponentsDir => 11,
            SearchDirectoryType::NIComponentsDir => 12,
            SearchDirectoryType::CurrentWorkspaceDir => 13,
            SearchDirectoryType::ContainingProjectDir => 14,
            SearchDirectoryType::ExplicitDir => 15,
            SearchDirectoryType::TestStandPublicDir => 16,
        }
    }

    /// `decoded` is the value whose number is `raw`, or `raw` itself when no
    /// value has that number.
    pub open spec fn decodes(raw: i32, decoded: Result<Self, i32>) -> bool {
        match decoded {
            Ok(item) => item.number() == raw,
            Err(unknown) => unknown == raw && forall|item: SearchDirectoryType| #[trigger] item.number() != raw,
        }
    }

    /// The number the engine exchanges for this value.
    pub fn bits(self) -> (bits: i32)
        ensures
            bits == self.number(),
    {
        match self {
            SearchDirectoryType::TestStandDir => 1,
            SearchDirectoryType::TestStandBinDir => 2,
            SearchDirectoryType::AdapterSupportDir => 3,
            SearchDirectoryType::ApplicationDir => 4,
            SearchDirectoryType::InitialWorkingDir => 5,
            SearchDirectoryType::WindowsSystemDir => 6,
            SearchDirectoryType::WindowsDir => 7,
            SearchDirectoryType::PathEnvironmentVarDir => 8,
            SearchDirectoryType::CurrentSequenceFileDir => 9,
            SearchDirectoryType::UserComponentsDir => 11,
            SearchDirectoryType::NIComponentsDir => 12,
            SearchDirectoryType::CurrentWorkspaceDir => 13,
            SearchDirectoryType::ContainingProjectDir => 14,
            SearchDirectoryType::ExplicitDir => 15,
            SearchDirectoryType::TestStandPublicDir => 16,
        }
    }

    /// Reads a raw value, returning it unchanged when unrecognized.
    pub fn try_from(raw: i32) -> (decoded: Result<SearchDirectoryType, i32>)
        ensures
            SearchDirectoryType::decodes(raw, decoded),
    {
        match raw {
            1 => Ok(SearchDirectoryType::TestStandDir),
            2 => Ok(SearchDirectoryType::TestStandBinDir),
            3 => Ok(SearchDirectoryType::AdapterSupportDir),
            4 => Ok(SearchDirectoryType::ApplicationDir),
            5 => Ok(SearchDirectoryType::InitialWorkingDir),
            6 => Ok(SearchDirectoryType::WindowsSystemDir),
            7 => Ok(SearchDirectoryType::WindowsDir),
            8 => Ok(SearchDirectoryType::PathEnvironmentVarDir),
            9 => Ok(SearchDirectoryType::CurrentSequenceFileDir),
            11 => Ok(SearchDirectoryType::UserComponentsDir),
            12 => Ok(SearchDirectoryType::NIComponentsDir),
            13 => Ok(SearchDirectoryType::CurrentWorkspaceDir),
            14 => Ok(SearchDirectoryType::ContainingProjectDir),
            15 => Ok(SearchDirectoryType::ExplicitDir),
            16 => Ok(SearchDirectoryType::TestStandPublicDir),
            unknown => Err(unknown),
        }
    }
}

/// Options for opening workspace files (`OpenWorkspaceFileOptions_*`).
#[derive(Debug, Clone, Copy, PartialEq, Eq, Hash, Structural)]
pub enum OpenWorkspaceFileOptions {
    /// No options (`OpenWorkspaceFile_NoOptions = 0`).
    NoOptions,
    /// Ignore missing files (`OpenWorkspaceFile_IgnoreMissingFiles = 1`).
    IgnoreMissingFiles,
    /// Search current directory (`OpenWorkspaceFile_SearchCurrentDirectory = 2`).
    SearchCurrentDirectory,
    /// Use search directories (`OpenWorkspaceFile_UseSearchDirectories = 4`).
    UseSearchDirectories,
}

impl OpenWorkspaceFileOptions {
    /// The number the engine exchanges for this value.
    pub open spec fn number(self) -> i32 {
        match self {
            OpenWorkspaceFileOptions::NoOptions => 0,
            OpenWorkspaceFileOptions::IgnoreMissingFiles => 1,
            OpenWorkspaceFileOptions::SearchCurrentDirectory => 2,
            OpenWorkspaceFileOptions::UseSearchDirectories => 4,
        }
    }

    /// The number the engine exchanges for this value.
    pub fn bits(self) -> (bits: i32)
        ensures
            bits == self.number(),
    {
        match self {
            OpenWorkspaceFileOptions::NoOptions => 0,
            OpenWorkspaceFileOptions::IgnoreMissingFiles => 1,
            OpenWorkspaceFileOptions::SearchCurrentDirectory => 2,
            OpenWorkspaceFileOptions::UseSearchDirectories => 4,
        }
    }
}

/// Options for saving workspace files (`SaveWorkspaceFileOptions_*`).
#[derive(Debug, Clone, Copy, PartialEq, Eq, Hash, Structural)]
pub enum SaveWorkspaceFileOptions {
    /// No options (`SaveWorkspaceFile_NoOptions = 0`).
    NoOptions,
    /// Prompt user (`SaveWorkspaceFile_PromptUser = 1`).
    PromptUser,
    /// Skip workspace file (`SaveWorkspaceFile_SkipWorkspaceFile = 2`).
    SkipWorkspaceFile,
    /// Skip read-only files (`SaveWorkspaceFile_SkipReadOnlyFiles = 4`).
    SkipReadOnlyFiles,
}

impl SaveWorkspaceFileOptions {
    /// The number the engine exchanges for this value.
    pub open spec fn number(self) -> i32 {
        match self {
            SaveWorkspaceFileOptions::NoOptions => 0,
            SaveWorkspaceFileOptions::PromptUser => 1,
            SaveWorkspaceFileOptions::SkipWorkspaceFile => 2,
            SaveWorkspaceFileOptions::SkipReadOnlyFiles => 4,
        }
    }

    /// The number the engine exchanges for this value.
    pub fn bits(self) -> (bits: i32)
        ensures
            bits == self.number(),
    {
        match self {
            SaveWorkspaceFileOptions::NoOptions => 0,
            SaveWorkspaceFileOptions::PromptUser => 1,
            SaveWorkspaceFileOptions::SkipWorkspaceFile => 2,
            SaveWorkspaceFileOptions::SkipReadOnlyFiles => 4,
        }
    }
}


/// Distinct values have distinct numbers.
pub proof fn lemma_prop_val_type_numbers_distinct(a: PropValType, b: PropValType)
    requires
        a.number() == b.number(),
    ensures
        a == b,
{
}

/// Every value survives a trip through its number: decoding the number of
/// a value gives that value back.
pub proof fn lemma_prop_val_type_round_trips(item: PropValType, decoded: Result<PropValType, i32>)
    requires
        PropValType::decodes(item.number(), decoded),
    ensures
        decoded == Ok::<PropValType, i32>(item),
{
    match decoded {
        Ok(found) => lemma_prop_val_type_numbers_distinct(found, item),
        Err(_) => assert(item.number() != item.number()),
    }
}

/// Distinct values have distinct numbers.
pub proof fn lemma_step_group_numbers_distinct(a: StepGroup, b: StepGroup)
    requires
        a.number() == b.number(),
    ensures
        a == b,
{
}

/// Every value survives a trip through its number: decoding the number of
/// a value gives that value back.
pub proof fn lemma_step_group_round_trips(item: StepGroup, decoded: Result<StepGroup, i32>)
    requires
        StepGroup::decodes(item.number(), decoded),
    ensures
        decoded == Ok::<StepGroup, i32>(item),
{
    match decoded {
        Ok(found) => lemma_step_group_numbers_distinct(found, item),
        Err(_) => assert(item.number() != item.number()),
    }
}

/// Distinct values have distinct numbers.
pub proof fn lemma_exec_run_state_numbers_distinct(a: ExecRunState, b: ExecRunState)
    requires
        a.number() == b.number(),
    ensures
        a == b,
{
}

/// Distinct values have distinct numbers.
pub proof fn lemma_exec_term_state_numbers_distinct(a: ExecTermState, b: ExecTermState)
    requires
        a.number() == b.number(),
    ensures
        a == b,
{
}

/// Distinct values have distinct numbers.
pub proof fn lemma_search_directory_type_numbers_distinct(a: SearchDirectoryType, b: SearchDirectoryType)
    requires
        a.number() == b.number(),
    ensures
        a == b,
{
}

/// Every value survives a trip through its number: decoding the number of
/// a value gives that value back.
pub proof fn lemma_search_directory_type_round_trips(item: SearchDirectoryType, decoded: Result<SearchDirectoryType, i32>)
    requires
        SearchDirectoryType::decodes(item.number(), decoded),
    ensures
        decoded == Ok::<SearchDirectoryType, i32>(item),
{
    match decoded {
        Ok(found) => lemma_search_directory_type_numbers_distinct(found, item),
        Err(_) => assert(item.number() != item.number()),
    }
}

/// Distinct values have distinct numbers.
pub proof fn lemma_open_workspace_file_options_numbers_distinct(a: OpenWorkspaceFileOptions, b: OpenWorkspaceFileOptions)
    requires
        a.number() == b.number(),
    ensures
        a == b,
{
}

/// Distinct values have distinct numbers.
pub proof fn lemma_save_workspace_file_options_numbers_distinct(a: SaveWorkspaceFileOptions, b: SaveWorkspaceFileOptions)
    requires
        a.number() == b.number(),
    ensures
        a == b,
{
}

} // verus!
