//! Options controlling how a sequence file is opened, and how type conflicts
//! met while loading it are resolved.
use vstd::prelude::*;
use core::ops::{BitAnd, BitOr};
use vstd::std_specs::ops::{BitAndSpecImpl, BitOrSpecImpl};

use crate::flags::mask_contains;

verus! {

/// Flags for opening a sequence file (`GetSeqFile_*`).
///
/// Bits this build has no name for survive a round trip unchanged.
#[derive(Debug, Clone, Copy, PartialEq, Eq, Hash, Structural)]
pub struct GetSeqFileOptions {
    bits: i32,
}

impl View for GetSeqFileOptions {
    type V = i32;

    /// The raw mask.
    closed spec fn view(&self) -> i32 {
        self.bits
    }
}

impl GetSeqFileOptions {
    /// Default behavior (`GetSeqFile_NoOptions`).
    pub fn none() -> (flags: GetSeqFileOptions)
        ensures
            flags@ == 0,
    {
        GetSeqFileOptions { bits: 0 }
    }

    /// Preload the file's code modules (`GetSeqFile_PreloadModules`).
    pub fn preload_modules() -> (flags: GetSeqFileOptions)
        ensures
            flags@ == 1,
    {
        GetSeqFileOptions { bits: 1 }
    }

    /// Reload from disk even if cached (`GetSeqFile_UpdateFromDisk`).
    pub fn update_from_disk() -> (flags: GetSeqFileOptions)
        ensures
            flags@ == 2,
    {
        GetSeqFileOptions { bits: 2 }
    }

    /// Tolerate type conflicts (`GetSeqFile_AllowTypeConflicts`).
    pub fn allow_type_conflicts() -> (flags: GetSeqFileOptions)
        ensures
            flags@ == 4,
    {
        GetSeqFileOptions { bits: 4 }
    }

    /// Skip the file's load callback (`GetSeqFile_DoNotRunLoadCallback`).
    ///
    /// A load callback can display a dialog, which blocks an unattended
    /// host, set this when opening untrusted files headlessly.
    pub fn do_not_run_load_callback() -> (flags: GetSeqFileOptions)
        ensures
            flags@ == 16,
    {
        GetSeqFileOptions { bits: 16 }
    }

    /// Search the configured directories for the file (`GetSeqFile_FindFile`).
    pub fn find_file() -> (flags: GetSeqFileOptions)
        ensures
            flags@ == 32,
    {
        GetSeqFileOptions { bits: 32 }
    }

    /// The combination an operator interface uses
    /// (`GetSeqFile_OperatorInterfaceFlags`).
    pub fn operator_interface() -> (flags: GetSeqFileOptions)
        ensures
            flags@ == 107,
    {
        GetSeqFileOptions { bits: 107 }
    }

    /// Return the file only if already cached
    /// (`GetSeqFile_GetFileOnlyIfInCache`).
    pub fn only_if_in_cache() -> (flags: GetSeqFileOptions)
        ensures
            flags@ == 512,
    {
        GetSeqFileOptions { bits: 512 }
    }

    /// The raw mask, as the engine exchanges it.
    pub fn bits(self) -> (bits: i32)
        ensures
            bits == self@,
    {
        self.bits
    }

    /// Takes a raw mask as it is, keeping bits this build has no name for.
    pub fn from_bits_retain(bits: i32) -> (flags: GetSeqFileOptions)
        ensures
            flags@ == bits,
    {
        GetSeqFileOptions { bits }
    }

    /// Whether no flag is set.
    pub fn is_empty(self) -> (empty: bool)
        ensures
            empty == (self@ == 0),
    {
        self.bits == 0
    }

    /// Whether every flag set in `other` is also set here.
    pub fn contains(self, other: GetSeqFileOptions) -> (contained: bool)
        ensures
            contained == mask_contains(self@, other@),
    {
        self.bits & other.bits == other.bits
    }

    /// The flags set in either mask.
    pub fn union(self, other: GetSeqFileOptions) -> (joined: GetSeqFileOptions)
        ensures
            joined@ == self@ | other@,
    {
        GetSeqFileOptions { bits: self.bits | other.bits }
    }

    /// The flags set in both masks.
    pub fn intersection(self, other: GetSeqFileOptions) -> (common: GetSeqFileOptions)
        ensures
            common@ == self@ & other@,
    {
        GetSeqFileOptions { bits: self.bits & other.bits }
    }
}

impl BitOr for GetSeqFileOptions {
    type Output = GetSeqFileOptions;

    fn bitor(self, rhs: GetSeqFileOptions) -> (result: GetSeqFileOptions)
        ensures
            result@ == self@ | rhs@,
    {
        self.union(rhs)
    }
}

impl BitOrSpecImpl for GetSeqFileOptions {
    open spec fn obeys_bitor_spec() -> bool {
        true
    }

    open spec fn bitor_req(self, rhs: GetSeqFileOptions) -> bool {
        true
    }

    closed spec fn bitor_spec(self, rhs: GetSeqFileOptions) -> GetSeqFileOptions {
        GetSeqFileOptions { bits: self.bits | rhs.bits }
    }
}

impl BitAnd for GetSeqFileOptions {
    type Output = GetSeqFileOptions;

    fn bitand(self, rhs: GetSeqFileOptions) -> (result: GetSeqFileOptions)
        ensures
            result@ == self@ & rhs@,
    {
        self.intersection(rhs)
    }
}

impl BitAndSpecImpl for GetSeqFileOptions {
    open spec fn obeys_bitand_spec() -> bool {
        true
    }

    open spec fn bitand_req(self, rhs: GetSeqFileOptions) -> bool {
        true
    }

    closed spec fn bitand_spec(self, rhs: GetSeqFileOptions) -> GetSeqFileOptions {
        GetSeqFileOptions { bits: self.bits & rhs.bits }
    }
}

impl Default for GetSeqFileOptions {
    /// No flags set.
    fn default() -> (flags: GetSeqFileOptions)
        ensures
            flags@ == 0,
    {
        GetSeqFileOptions { bits: 0 }
    }
}

/// How the engine resolves a type conflict while loading
/// (`ConflictHandler_*`).
#[derive(Debug, Clone, Copy, PartialEq, Eq, Hash, Structural)]
pub enum ConflictHandler {
    /// Fail the load (`ConflictHandler_Error`). The only non-interactive
    /// choice that never blocks, so it is the sensible default for a service.
    Error,
    /// Ask the user (`ConflictHandler_Prompt`). Raises a dialog, unsuitable
    /// for an unattended host.
    Prompt,
    /// Keep the already-loaded type (`ConflictHandler_UseGlobalType`).
    UseGlobalType,
}

impl ConflictHandler {
    /// The number the engine exchanges for this value.
    pub open spec fn number(self) -> i32 {
        match self {
            ConflictHandler::Error => 1,
            ConflictHandler::Prompt => 3,
            ConflictHandler::UseGlobalType => 4,
        }
    }

    /// The value the COM boundary expects.
    pub fn bits(self) -> (bits: i32)
        ensures
            bits == self.number(),
    {
        match self {
            ConflictHandler::Error => 1,
            ConflictHandler::Prompt => 3,
            ConflictHandler::UseGlobalType => 4,
        }
    }
}

/// Distinct values have distinct numbers.
pub proof fn lemma_conflict_handler_numbers_distinct(a: ConflictHandler, b: ConflictHandler)
    requires
        a.number() == b.number(),
    ensures
        a == b,
{
}

/// The operator-interface combination already implies preloading and
/// searching for the file, which is why an operator interface does not set
/// them separately.
pub proof fn lemma_operator_interface_implies_preload_and_find()
    ensures
        mask_contains(107, 1),
        mask_contains(107, 2),
        mask_contains(107, 32),
{
    assert(107i32 & 1i32 == 1i32) by (bit_vector);
    assert(107i32 & 2i32 == 2i32) by (bit_vector);
    assert(107i32 & 32i32 == 32i32) by (bit_vector);
}

} // verus!
