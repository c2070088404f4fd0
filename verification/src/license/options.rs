//! Options for acquiring a license.
use vstd::prelude::*;
use core::ops::{BitAnd, BitOr};
use vstd::std_specs::ops::{BitAndSpecImpl, BitOrSpecImpl};

use crate::flags::mask_contains;

verus! {

/// How to behave when a license cannot be acquired (`AcquireLicenseOptions`).
///
/// The default is to ask a person. A host with nobody in front of it must
/// say otherwise, or it stops on a window it cannot answer.
///
/// Bits this build has no name for survive a round trip unchanged.
#[derive(Debug, Clone, Copy, PartialEq, Eq, Hash, Structural)]
pub struct AcquireLicenseOptions {
    bits: i32,
}

impl View for AcquireLicenseOptions {
    type V = i32;

    /// The raw mask.
    closed spec fn view(&self) -> i32 {
        self.bits
    }
}

impl AcquireLicenseOptions {
    /// Take the engine's default behavior, which raises a dialog offering
    /// to evaluate, activate or buy when the license is not available.
    pub fn none() -> (flags: AcquireLicenseOptions)
        ensures
            flags@ == 0,
    {
        AcquireLicenseOptions { bits: 0 }
    }

    /// Never raise that dialog: fail the call instead.
    ///
    /// What a headless host wants. The failure becomes an [`Error`] a
    /// caller can report, rather than a window nobody will close.
    ///
    /// [`Error`]: crate::Error
    pub fn suppress_startup_dialog() -> (flags: AcquireLicenseOptions)
        ensures
            flags@ == 1,
    {
        AcquireLicenseOptions { bits: 1 }
    }

    /// Suppress the dialog only when another running process has already
    /// shown it and a license was chosen there. If not, the dialog still
    /// appears, so this is not a substitute for
    /// [`SUPPRESS_STARTUP_DIALOG`](Self::SUPPRESS_STARTUP_DIALOG) on an
    /// unattended station.
    pub fn suppress_startup_dialog_if_already_shown() -> (flags: AcquireLicenseOptions)
        ensures
            flags@ == 2,
    {
        AcquireLicenseOptions { bits: 2 }
    }

    /// Give the dialog an Exit button rather than a Close button; the
    /// application exits if acquisition fails. Only meaningful when the
    /// dialog is allowed to appear at all.
    pub fn show_exit_button() -> (flags: AcquireLicenseOptions)
        ensures
            flags@ == 4,
    {
        AcquireLicenseOptions { bits: 4 }
    }

    /// The raw mask, as the engine exchanges it.
    pub fn bits(self) -> (bits: i32)
        ensures
            bits == self@,
    {
        self.bits
    }

    /// Takes a raw mask as it is, keeping bits this build has no name for.
    pub fn from_bits_retain(bits: i32) -> (flags: AcquireLicenseOptions)
        ensures
            flags@ == bits,
    {
        AcquireLicenseOptions { bits }
    }

    /// Whether no flag is set.
    pub fn is_empty(self) -> (empty: bool)
        ensures
            empty == (self@ == 0),
    {
        self.bits == 0
    }

    /// Whether every flag set in `other` is also set here.
    pub fn contains(self, other: AcquireLicenseOptions) -> (contained: bool)
        ensures
            contained == mask_contains(self@, other@),
    {
        self.bits & other.bits == other.bits
    }

    /// The flags set in either mask.
    pub fn union(self, other: AcquireLicenseOptions) -> (joined: AcquireLicenseOptions)
        ensures
            joined@ == self@ | other@,
    {
        AcquireLicenseOptions { bits: self.bits | other.bits }
    }

    /// The flags set in both masks.
    pub fn intersection(self, other: AcquireLicenseOptions) -> (common: AcquireLicenseOptions)
        ensures
            common@ == self@ & other@,
    {
        AcquireLicenseOptions { bits: self.bits & other.bits }
    }
}

impl BitOr for AcquireLicenseOptions {
    type Output = AcquireLicenseOptions;

    fn bitor(self, rhs: AcquireLicenseOptions) -> (result: AcquireLicenseOptions)
        ensures
            result@ == self@ | rhs@,
    {
        self.union(rhs)
    }
}

impl BitOrSpecImpl for AcquireLicenseOptions {
    open spec fn obeys_bitor_spec() -> bool {
        true
    }

    open spec fn bitor_req(self, rhs: AcquireLicenseOptions) -> bool {
        true
    }

    closed spec fn bitor_spec(self, rhs: AcquireLicenseOptions) -> AcquireLicenseOptions {
        AcquireLicenseOptions { bits: self.bits | rhs.bits }
    }
}

impl BitAnd for AcquireLicenseOptions {
    type Output = AcquireLicenseOptions;

    fn bitand(self, rhs: AcquireLicenseOptions) -> (result: AcquireLicenseOptions)
        ensures
            result@ == self@ & rhs@,
    {
        self.intersection(rhs)
    }
}

impl BitAndSpecImpl for AcquireLicenseOptions {
    open spec fn obeys_bitand_spec() -> bool {
        true
    }

    open spec fn bitand_req(self, rhs: AcquireLicenseOptions) -> bool {
        true
    }

    closed spec fn bitand_spec(self, rhs: AcquireLicenseOptions) -> AcquireLicenseOptions {
        AcquireLicenseOptions { bits: self.bits & rhs.bits }
    }
}

} // verus!
