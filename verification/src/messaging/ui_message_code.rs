//! Codes identifying what a user-interface message reports.
use vstd::prelude::*;

verus! {

/// A user-interface message code (`UIMsg_*`).
///
/// The engine posts these to tell a host what an execution is doing. A
/// sequence can also post its own, numbered from
/// [`USER_MESSAGE_BASE`](Self::USER_MESSAGE_BASE) upward, which is how a test
/// reports progress to whatever is driving it.
#[derive(Debug, Clone, Copy, PartialEq, Eq, Hash, Structural)]
pub enum UIMessageCode {
    /// `UIMsg_BreakOnUserRequest`.
    BreakOnUserRequest,
    /// `UIMsg_BreakOnBreakpoint`.
    BreakOnBreakpoint,
    /// `UIMsg_BreakOnRunTimeError`.
    BreakOnRunTimeError,
    /// `UIMsg_Trace`.
    Trace,
    /// `UIMsg_TerminatingExecution`.
    TerminatingExecution,
    /// `UIMsg_AbortingExecution`.
    AbortingExecution,
    /// `UIMsg_KillingExecutionThreads`.
    KillingExecutionThreads,
    /// `UIMsg_EndExecution`.
    EndExecution,
    /// `UIMsg_ShutDownComplete`.
    ShutDownComplete,
    /// `UIMsg_StartExecution`.
    StartExecution,
    /// `UIMsg_ProgressPercent`.
    ProgressPercent,
    /// `UIMsg_ProgressText`.
    ProgressText,
    /// `UIMsg_StartInteractiveExecution`.
    StartInteractiveExecution,
    /// `UIMsg_EndInteractiveExecution`.
    EndInteractiveExecution,
    /// `UIMsg_TerminatingInteractiveExecution`.
    TerminatingInteractiveExecution,
    /// `UIMsg_TerminationCancelled`.
    TerminationCancelled,
    /// `UIMsg_ResumeFromBreak`.
    ResumeFromBreak,
    /// `UIMsg_StartFileExecution`.
    StartFileExecution,
    /// `UIMsg_EndFileExecution`.
    EndFileExecution,
    /// `UIMsg_ShutDownCancelled`.
    ShutDownCancelled,
    /// `UIMsg_LocalizationSettingChanged`.
    LocalizationSettingChanged,
    /// `UIMsg_OpenWindows`.
    OpenWindows,
    /// `UIMsg_TileWindows`.
    TileWindows,
    /// `UIMsg_CascadeWindows`.
    CascadeWindows,
    /// `UIMsg_ReportChanged`.
    ReportChanged,
    /// `UIMsg_CloseWindows`.
    CloseWindows,
    /// `UIMsg_RefreshWindows`.
    RefreshWindows,
    /// `UIMsg_ClientFileChanged`.
    ClientFileChanged,
    /// `UIMsg_DisplayReport`.
    DisplayReport,
    /// `UIMsg_ModelStateInitializing`.
    ModelStateInitializing,
    /// `UIMsg_ModelStateWaiting`.
    ModelStateWaiting,
    /// `UIMsg_ModelStateIdentified`.
    ModelStateIdentified,
    /// `UIMsg_ModelStateBeginTesting`.
    ModelStateBeginTesting,
    /// `UIMsg_ModelStateTestingComplete`.
    ModelStateTestingComplete,
    /// `UIMsg_ModelStatePostProcessingComplete`.
    ModelStatePostProcessingComplete,
    /// `UIMsg_ModelStateEnabledStateSet`.
    ModelStateEnabledStateSet,
    /// `UIMsg_ReportLocationChanged`.
    ReportLocationChanged,
    /// `UIMsg_GotoLocation`.
    GotoLocation,
    /// `UIMsg_PushUndoItem`.
    PushUndoItem,
    /// `UIMsg_OutputMessages`.
    OutputMessages,
    /// `UIMsg_TypePaletteFileListChanged`.
    TypePaletteFileListChanged,
    /// `UIMsg_NonTerminatableThreadsArePreventingTermination`.
    NonTerminatableThreadsArePreventingTermination,
    /// `UIMsg_ModelStatePostProcessing`.
    ModelStatePostProcessing,
    /// `UIMsg_ReportCollectionChanged`.
    ReportCollectionChanged,
    /// `UIMsg_RuntimeError`.
    RuntimeError,
}

impl UIMessageCode {
    /// Every code the engine defines.
    pub const ALL: [UIMessageCode; 45] = [
        UIMessageCode::BreakOnUserRequest,
        UIMessageCode::BreakOnBreakpoint,
        UIMessageCode::BreakOnRunTimeError,
        UIMessageCode::Trace,
        UIMessageCode::TerminatingExecution,
        UIMessageCode::AbortingExecution,
        UIMessageCode::KillingExecutionThreads,
        UIMessageCode::EndExecution,
        UIMessageCode::ShutDownComplete,
        UIMessageCode::StartExecution,
        UIMessageCode::ProgressPercent,
        UIMessageCode::ProgressText,
        UIMessageCode::StartInteractiveExecution,
        UIMessageCode::EndInteractiveExecution,
        UIMessageCode::TerminatingInteractiveExecution,
        UIMessageCode::TerminationCancelled,
        UIMessageCode::ResumeFromBreak,
        UIMessageCode::StartFileExecution,
        UIMessageCode::EndFileExecution,
        UIMessageCode::ShutDownCancelled,
        UIMessageCode::LocalizationSettingChanged,
        UIMessageCode::OpenWindows,
        UIMessageCode::TileWindows,
        UIMessageCode::CascadeWindows,
        UIMessageCode::ReportChanged,
        UIMessageCode::CloseWindows,
        UIMessageCode::RefreshWindows,
        UIMessageCode::ClientFileChanged,
        UIMessageCode::DisplayReport,
        UIMessageCode::ModelStateInitializing,
        UIMessageCode::ModelStateWaiting,
        UIMessageCode::ModelStateIdentified,
        UIMessageCode::ModelStateBeginTesting,
        UIMessageCode::ModelStateTestingComplete,
        UIMessageCode::ModelStatePostProcessingComplete,
        UIMessageCode::ModelStateEnabledStateSet,
        UIMessageCode::ReportLocationChanged,
        UIMessageCode::GotoLocation,
        UIMessageCode::PushUndoItem,
        UIMessageCode::OutputMessages,
        UIMessageCode::TypePaletteFileListChanged,
        UIMessageCode::NonTerminatableThreadsArePreventingTermination,
        UIMessageCode::ModelStatePostProcessing,
        UIMessageCode::ReportCollectionChanged,
        UIMessageCode::RuntimeError,
    ];

    /// The first code available to a sequence (`UIMsg_UserMessageBase`).
    ///
    /// Engine codes sit below this; anything at or above it was posted by a
    /// sequence, so a host can tell the two apart without a lookup.
    pub const USER_MESSAGE_BASE: i32 = 10000;

    /// The number the engine exchanges for this value.
    pub open spec fn number(self) -> i32 {
        match self {
            UIMessageCode::BreakOnUserRequest => 1,
            UIMessageCode::BreakOnBreakpoint => 2,
            UIMessageCode::BreakOnRunTimeError => 3,
            UIMessageCode::Trace => 4,
            UIMessageCode::TerminatingExecution => 5,
            UIMessageCode::AbortingExecution => 6,
            UIMessageCode::KillingExecutionThreads => 7,
            UIMessageCode::EndExecution => 8,
            UIMessageCode::ShutDownComplete => 9,
            UIMessageCode::StartExecution => 10,
            UIMessageCode::ProgressPercent => 11,
            UIMessageCode::ProgressText => 12,
            UIMessageCode::StartInteractiveExecution => 13,
            UIMessageCode::EndInteractiveExecution => 14,
            UIMessageCode::TerminatingInteractiveExecution => 15,
            UIMessageCode::TerminationCancelled => 16,
            UIMessageCode::ResumeFromBreak => 17,
            UIMessageCode::StartFileExecution => 18,
            UIMessageCode::EndFileExecution => 19,
            UIMessageCode::ShutDownCancelled => 20,
            UIMessageCode::LocalizationSettingChanged => 21,
            UIMessageCode::OpenWindows => 22,
            UIMessageCode::TileWindows => 23,
            UIMessageCode::CascadeWindows => 24,
            UIMessageCode::ReportChanged => 25,
            UIMessageCode::CloseWindows => 26,
            UIMessageCode::RefreshWindows => 27,
            UIMessageCode::ClientFileChanged => 28,
            UIMessageCode::DisplayReport => 29,
            UIMessageCode::ModelStateInitializing => 30,
            UIMessageCode::ModelStateWaiting => 31,
            UIMessageCode::ModelStateIdentified => 32,
            UIMessageCode::ModelStateBeginTesting => 33,
            UIMessageCode::ModelStateTestingComplete => 34,
            UIMessageCode::ModelStatePostProcessingComplete => 35,
            UIMessageCode::ModelStateEnabledStateSet => 36,
            UIMessageCode::ReportLocationChanged => 37,
            UIMessageCode::GotoLocation => 38,
            UIMessageCode::PushUndoItem => 39,
            UIMessageCode::OutputMessages => 40,
            UIMessageCode::TypePaletteFileListChanged => 41,
            UIMessageCode::NonTerminatableThreadsArePreventingTermination => 42,
            UIMessageCode::ModelStatePostProcessing => 43,
            UIMessageCode::ReportCollectionChanged => 44,
            UIMessageCode::RuntimeError => 45,
        }
    }

    /// `decoded` is the value whose number is `raw`, or `raw` itself when no
    /// value has that number.
    pub open spec fn decodes(raw: i32, decoded: Result<Self, i32>) -> bool {
        match decoded {
            Ok(item) => item.number() == raw,
            Err(unknown) => unknown == raw && forall|item: UIMessageCode| #[trigger] item.number() != raw,
        }
    }

    /// The value the COM boundary expects.
    pub fn bits(self) -> (bits: i32)
        ensures
            bits == self.number(),
    {
        match self {
            UIMessageCode::BreakOnUserRequest => 1,
            UIMessageCode::BreakOnBreakpoint => 2,
            UIMessageCode::BreakOnRunTimeError => 3,
            UIMessageCode::Trace => 4,
            UIMessageCode::TerminatingExecution => 5,
            UIMessageCode::AbortingExecution => 6,
            UIMessageCode::KillingExecutionThreads => 7,
            UIMessageCode::EndExecution => 8,
            UIMessageCode::ShutDownComplete => 9,
            UIMessageCode::StartExecution => 10,
            UIMessageCode::ProgressPercent => 11,
            UIMessageCode::ProgressText => 12,
            UIMessageCode::StartInteractiveExecution => 13,
            UIMessageCode::EndInteractiveExecution => 14,
            UIMessageCode::TerminatingInteractiveExecution => 15,
            UIMessageCode::TerminationCancelled => 16,
            UIMessageCode::ResumeFromBreak => 17,
            UIMessageCode::StartFileExecution => 18,
            UIMessageCode::EndFileExecution => 19,
            UIMessageCode::ShutDownCancelled => 20,
            UIMessageCode::LocalizationSettingChanged => 21,
            UIMessageCode::OpenWindows => 22,
            UIMessageCode::TileWindows => 23,
            UIMessageCode::CascadeWindows => 24,
            UIMessageCode::ReportChanged => 25,
            UIMessageCode::CloseWindows => 26,
            UIMessageCode::RefreshWindows => 27,
            UIMessageCode::ClientFileChanged => 28,
            UIMessageCode::DisplayReport => 29,
            UIMessageCode::ModelStateInitializing => 30,
            UIMessageCode::ModelStateWaiting => 31,
            UIMessageCode::ModelStateIdentified => 32,
            UIMessageCode::ModelStateBeginTesting => 33,
            UIMessageCode::ModelStateTestingComplete => 34,
            UIMessageCode::ModelStatePostProcessingComplete => 35,
            UIMessageCode::ModelStateEnabledStateSet => 36,
            UIMessageCode::ReportLocationChanged => 37,
            UIMessageCode::GotoLocation => 38,
            UIMessageCode::PushUndoItem => 39,
            UIMessageCode::OutputMessages => 40,
            UIMessageCode::TypePaletteFileListChanged => 41,
            UIMessageCode::NonTerminatableThreadsArePreventingTermination => 42,
            UIMessageCode::ModelStatePostProcessing => 43,
            UIMessageCode::ReportCollectionChanged => 44,
            UIMessageCode::RuntimeError => 45,
        }
    }

    /// Reads a raw code, returning it unchanged when it is not an engine one:
    /// a user message, or a code this build does not name.
    pub fn from_bits(raw: i32) -> (decoded: Result<UIMessageCode, i32>)
        ensures
            UIMessageCode::decodes(raw, decoded),
    {
        match raw {
            1 => Ok(UIMessageCode::BreakOnUserRequest),
            2 => Ok(UIMessageCode::BreakOnBreakpoint),
            3 => Ok(UIMessageCode::BreakOnRunTimeError),
            4 => Ok(UIMessageCode::Trace),
            5 => Ok(UIMessageCode::TerminatingExecution),
            6 => Ok(UIMessageCode::AbortingExecution),
            7 => Ok(UIMessageCode::KillingExecutionThreads),
            8 => Ok(UIMessageCode::EndExecution),
            9 => Ok(UIMessageCode::ShutDownComplete),
            10 => Ok(UIMessageCode::StartExecution),
            11 => Ok(UIMessageCode::ProgressPercent),
            12 => Ok(UIMessageCode::ProgressText),
            13 => Ok(UIMessageCode::StartInteractiveExecution),
            14 => Ok(UIMessageCode::EndInteractiveExecution),
            15 => Ok(UIMessageCode::TerminatingInteractiveExecution),
            16 => Ok(UIMessageCode::TerminationCancelled),
            17 => Ok(UIMessageCode::ResumeFromBreak),
            18 => Ok(UIMessageCode::StartFileExecution),
            19 => Ok(UIMessageCode::EndFileExecution),
            20 => Ok(UIMessageCode::ShutDownCancelled),
            21 => Ok(UIMessageCode::LocalizationSettingChanged),
            22 => Ok(UIMessageCode::OpenWindows),
            23 => Ok(UIMessageCode::TileWindows),
            24 => Ok(UIMessageCode::CascadeWindows),
            25 => Ok(UIMessageCode::ReportChanged),
            26 => Ok(UIMessageCode::CloseWindows),
            27 => Ok(UIMessageCode::RefreshWindows),
            28 => Ok(UIMessageCode::ClientFileChanged),
            29 => Ok(UIMessageCode::DisplayReport),
            30 => Ok(UIMessageCode::ModelStateInitializing),
            31 => Ok(UIMessageCode::ModelStateWaiting),
            32 => Ok(UIMessageCode::ModelStateIdentified),
            33 => Ok(UIMessageCode::ModelStateBeginTesting),
            34 => Ok(UIMessageCode::ModelStateTestingComplete),
            35 => Ok(UIMessageCode::ModelStatePostProcessingComplete),
            36 => Ok(UIMessageCode::ModelStateEnabledStateSet),
            37 => Ok(UIMessageCode::ReportLocationChanged),
            38 => Ok(UIMessageCode::GotoLocation),
            39 => Ok(UIMessageCode::PushUndoItem),
            40 => Ok(UIMessageCode::OutputMessages),
            41 => Ok(UIMessageCode::TypePaletteFileListChanged),
            42 => Ok(UIMessageCode::NonTerminatableThreadsArePreventingTermination),
            43 => Ok(UIMessageCode::ModelStatePostProcessing),
            44 => Ok(UIMessageCode::ReportCollectionChanged),
            45 => Ok(UIMessageCode::RuntimeError),
            unknown => Err(unknown),
        }
    }

    /// Whether a raw code was posted by a sequence rather than the engine.
    pub fn is_user_message(raw: i32) -> (posted_by_sequence: bool)
        ensures
            posted_by_sequence == (raw >= UIMessageCode::USER_MESSAGE_BASE),
    {
        raw >= UIMessageCode::USER_MESSAGE_BASE
    }
}

/// Distinct values have distinct numbers.
pub proof fn lemma_numbers_are_distinct(a: UIMessageCode, b: UIMessageCode)
    requires
        a.number() == b.number(),
    ensures
        a == b,
{
}

/// Every value survives a trip through its number: decoding the number of
/// a value gives that value back.
pub proof fn lemma_number_round_trips(item: UIMessageCode, decoded: Result<UIMessageCode, i32>)
    requires
        UIMessageCode::decodes(item.number(), decoded),
    ensures
        decoded == Ok::<UIMessageCode, i32>(item),
{
    match decoded {
        Ok(found) => lemma_numbers_are_distinct(found, item),
        Err(_) => assert(item.number() != item.number()),
    }
}

/// No engine code strays into the range reserved for sequences, so a host can
/// tell its own messages from the engine's by value alone.
pub proof fn lemma_engine_codes_sit_below_the_user_range(code: UIMessageCode)
    ensures
        code.number() < UIMessageCode::USER_MESSAGE_BASE,
{
}

/// A code a sequence posted never decodes as an engine code.
pub proof fn lemma_user_codes_are_not_engine_codes(raw: i32, decoded: Result<UIMessageCode, i32>)
    requires
        raw >= UIMessageCode::USER_MESSAGE_BASE,
        UIMessageCode::decodes(raw, decoded),
    ensures
        decoded == Err::<UIMessageCode, i32>(raw),
{
    if let Ok(code) = decoded {
        lemma_engine_codes_sit_below_the_user_range(code);
    }
}

} // verus!
