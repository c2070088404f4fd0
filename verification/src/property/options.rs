//! Option flags accepted by `PropertyObject` lookups and mutations, and by
//! the templates-file lookup.
use vstd::prelude::*;
use core::ops::{BitAnd, BitOr};
use vstd::std_specs::ops::{BitAndSpecImpl, BitOrSpecImpl};

use crate::flags::mask_contains;

verus! {

/// Options controlling how a property lookup or mutation behaves
/// (`PropOption_*`).
///
/// A bitmask, not an enumeration: the engine combines flags. Passing
/// [`PropertyOptions::NONE`] requests the default behavior.
///
/// Several names share a bit because the engine reuses it per context (for
/// example [`Self::INSERT_IF_MISSING`] and [`Self::INSERT_ELEMENT`]); the
/// name documents intent at the call site.
///
/// Bits this build has no name for survive a round trip unchanged.
#[derive(Debug, Clone, Copy, PartialEq, Eq, Hash, Structural)]
pub struct PropertyOptions {
    bits: i32,
}

impl View for PropertyOptions {
    type V = i32;

    /// The raw mask.
    closed spec fn view(&self) -> i32 {
        self.bits
    }
}

impl PropertyOptions {
    /// Default behavior (`PropOption_NoOptions`).
    pub fn none() -> (flags: PropertyOptions)
        ensures
            flags@ == 0,
    {
        PropertyOptions { bits: 0 }
    }

    /// Create the property if it does not exist (`PropOption_InsertIfMissing`).
    pub fn insert_if_missing() -> (flags: PropertyOptions)
        ensures
            flags@ == 1,
    {
        PropertyOptions { bits: 1 }
    }

    /// Insert an array element (`PropOption_InsertElement`).
    pub fn insert_element() -> (flags: PropertyOptions)
        ensures
            flags@ == 1,
    {
        PropertyOptions { bits: 1 }
    }

    /// Delete the property if it exists (`PropOption_DeleteIfExists`).
    pub fn delete_if_exists() -> (flags: PropertyOptions)
        ensures
            flags@ == 2,
    {
        PropertyOptions { bits: 2 }
    }

    /// Remove an array element (`PropOption_RemoveElement`).
    pub fn remove_element() -> (flags: PropertyOptions)
        ensures
            flags@ == 2,
    {
        PropertyOptions { bits: 2 }
    }

    /// Leave an existing property untouched (`PropOption_DoNothingIfExists`).
    pub fn do_nothing_if_exists() -> (flags: PropertyOptions)
        ensures
            flags@ == 4,
    {
        PropertyOptions { bits: 4 }
    }

    /// Set only when the property does not already exist
    /// (`PropOption_SetOnlyIfDoesNotExist`).
    pub fn set_only_if_does_not_exist() -> (flags: PropertyOptions)
        ensures
            flags@ == 5,
    {
        PropertyOptions { bits: 5 }
    }

    /// Convert from a number (`PropOption_CoerceFromNumber`).
    pub fn coerce_from_number() -> (flags: PropertyOptions)
        ensures
            flags@ == 8,
    {
        PropertyOptions { bits: 8 }
    }

    /// Convert from a string (`PropOption_CoerceFromString`).
    pub fn coerce_from_string() -> (flags: PropertyOptions)
        ensures
            flags@ == 16,
    {
        PropertyOptions { bits: 16 }
    }

    /// Convert to an enum (`PropOption_CoerceToEnum`).
    pub fn coerce_to_enum() -> (flags: PropertyOptions)
        ensures
            flags@ == 24,
    {
        PropertyOptions { bits: 24 }
    }

    /// Convert from a boolean (`PropOption_CoerceFromBoolean`).
    pub fn coerce_from_boolean() -> (flags: PropertyOptions)
        ensures
            flags@ == 32,
    {
        PropertyOptions { bits: 32 }
    }

    /// Convert to a number (`PropOption_CoerceToNumber`).
    pub fn coerce_to_number() -> (flags: PropertyOptions)
        ensures
            flags@ == 64,
    {
        PropertyOptions { bits: 64 }
    }

    /// Convert to a string (`PropOption_CoerceToString`).
    pub fn coerce_to_string() -> (flags: PropertyOptions)
        ensures
            flags@ == 128,
    {
        PropertyOptions { bits: 128 }
    }

    /// Convert from an enum (`PropOption_CoerceFromEnum`).
    pub fn coerce_from_enum() -> (flags: PropertyOptions)
        ensures
            flags@ == 192,
    {
        PropertyOptions { bits: 192 }
    }

    /// Convert to a boolean (`PropOption_CoerceToBoolean`).
    pub fn coerce_to_boolean() -> (flags: PropertyOptions)
        ensures
            flags@ == 256,
    {
        PropertyOptions { bits: 256 }
    }

    /// Do not take ownership (`PropOption_NotOwning`).
    pub fn not_owning() -> (flags: PropertyOptions)
        ensures
            flags@ == 512,
    {
        PropertyOptions { bits: 512 }
    }

    /// Resolve to the alias rather than its target (`PropOption_ReferToAlias`).
    pub fn refer_to_alias() -> (flags: PropertyOptions)
        ensures
            flags@ == 1024,
    {
        PropertyOptions { bits: 1024 }
    }

    /// Keep the existing name when copying (`PropOption_DoNotAdoptCurrentName`).
    pub fn do_not_adopt_current_name() -> (flags: PropertyOptions)
        ensures
            flags@ == 2048,
    {
        PropertyOptions { bits: 2048 }
    }

    /// Match names case-insensitively (`PropOption_CaseInsensitive`).
    pub fn case_insensitive() -> (flags: PropertyOptions)
        ensures
            flags@ == 4096,
    {
        PropertyOptions { bits: 4096 }
    }

    /// Require an identical structure (`PropOption_RequireIdenticalStructure`).
    pub fn require_identical_structure() -> (flags: PropertyOptions)
        ensures
            flags@ == 8192,
    {
        PropertyOptions { bits: 8192 }
    }

    /// Do not recurse into subproperties (`PropOption_DoNotRecurse`).
    pub fn do_not_recurse() -> (flags: PropertyOptions)
        ensures
            flags@ == 16384,
    {
        PropertyOptions { bits: 16384 }
    }

    /// Convert from a reference (`PropOption_CoerceFromReference`).
    pub fn coerce_from_reference() -> (flags: PropertyOptions)
        ensures
            flags@ == 65536,
    {
        PropertyOptions { bits: 65536 }
    }

    /// Convert to a reference (`PropOption_CoerceToReference`).
    pub fn coerce_to_reference() -> (flags: PropertyOptions)
        ensures
            flags@ == 131072,
    {
        PropertyOptions { bits: 131072 }
    }

    /// Every conversion flag (`PropOption_Coerce`).
    pub fn coerce() -> (flags: PropertyOptions)
        ensures
            flags@ == 197112,
    {
        PropertyOptions { bits: 197112 }
    }

    /// Treat unusable numbers as zero (`PropOption_CoerceBadNumbersToZero`).
    pub fn coerce_bad_numbers_to_zero() -> (flags: PropertyOptions)
        ensures
            flags@ == 262144,
    {
        PropertyOptions { bits: 262144 }
    }

    /// Allow deleting an otherwise protected property
    /// (`PropOption_OverrideNotDeletable`).
    pub fn override_not_deletable() -> (flags: PropertyOptions)
        ensures
            flags@ == 4194304,
    {
        PropertyOptions { bits: 4194304 }
    }

    /// Copy rather than share subproperties (`PropOption_DoNotShareProperties`).
    pub fn do_not_share_properties() -> (flags: PropertyOptions)
        ensures
            flags@ == 134217728,
    {
        PropertyOptions { bits: 134217728 }
    }

    /// Copy every flag (`PropOption_CopyAllFlags`).
    pub fn copy_all_flags() -> (flags: PropertyOptions)
        ensures
            flags@ == 536870912,
    {
        PropertyOptions { bits: 536870912 }
    }

    /// The raw mask, as the engine exchanges it.
    pub fn bits(self) -> (bits: i32)
        ensures
            bits == self@,
    {
        self.bits
    }

    /// Takes a raw mask as it is, keeping bits this build has no name for.
    pub fn from_bits_retain(bits: i32) -> (flags: PropertyOptions)
        ensures
            flags@ == bits,
    {
        PropertyOptions { bits }
    }

    /// Whether no flag is set.
    pub fn is_empty(self) -> (empty: bool)
        ensures
            empty == (self@ == 0),
    {
        self.bits == 0
    }

    /// Whether every flag set in `other` is also set here.
    pub fn contains(self, other: PropertyOptions) -> (contained: bool)
        ensures
            contained == mask_contains(self@, other@),
    {
        self.bits & other.bits == other.bits
    }

    /// The flags set in either mask.
    pub fn union(self, other: PropertyOptions) -> (joined: PropertyOptions)
        ensures
            joined@ == self@ | other@,
    {
        PropertyOptions { bits: self.bits | other.bits }
    }

    /// The flags set in both masks.
    pub fn intersection(self, other: PropertyOptions) -> (common: PropertyOptions)
        ensures
            common@ == self@ & other@,
    {
        PropertyOptions { bits: self.bits & other.bits }
    }
}

impl BitOr for PropertyOptions {
    type Output = PropertyOptions;

    fn bitor(self, rhs: PropertyOptions) -> (result: PropertyOptions)
        ensures
            result@ == self@ | rhs@,
    {
        self.union(rhs)
    }
}

impl BitOrSpecImpl for PropertyOptions {
    open spec fn obeys_bitor_spec() -> bool {
        true
    }

    open spec fn bitor_req(self, rhs: PropertyOptions) -> bool {
        true
    }

    closed spec fn bitor_spec(self, rhs: PropertyOptions) -> PropertyOptions {
        PropertyOptions { bits: self.bits | rhs.bits }
    }
}

impl BitAnd for PropertyOptions {
    type Output = PropertyOptions;

    fn bitand(self, rhs: PropertyOptions) -> (result: PropertyOptions)
        ensures
            result@ == self@ & rhs@,
    {
        self.intersection(rhs)
    }
}

impl BitAndSpecImpl for PropertyOptions {
    open spec fn obeys_bitand_spec() -> bool {
        true
    }

    open spec fn bitand_req(self, rhs: PropertyOptions) -> bool {
        true
    }

    closed spec fn bitand_spec(self, rhs: PropertyOptions) -> PropertyOptions {
        PropertyOptions { bits: self.bits & rhs.bits }
    }
}

impl Default for PropertyOptions {
    /// No flags set.
    fn default() -> (flags: PropertyOptions)
        ensures
            flags@ == 0,
    {
        PropertyOptions { bits: 0 }
    }
}

/// Options for retrieving the templates file (`GetTemplatesFileOption_*`).
///
/// The templates file is where the editor keeps the reusable variable, step
/// and sequence prototypes offered by its Insert menus. It is a station
/// file like any other, so a caller has to say whether a request should
/// load it when it is not already in memory.
///
/// Bits this build has no name for survive a round trip unchanged.
#[derive(Debug, Clone, Copy, PartialEq, Eq, Hash, Structural)]
pub struct GetTemplatesFileOptions {
    bits: i32,
}

impl View for GetTemplatesFileOptions {
    type V = i32;

    /// The raw mask.
    closed spec fn view(&self) -> i32 {
        self.bits
    }
}

impl GetTemplatesFileOptions {
    /// Return the file only if it is already loaded
    /// (`GetTemplatesFileOption_NoOptions`).
    pub fn none() -> (flags: GetTemplatesFileOptions)
        ensures
            flags@ == 0,
    {
        GetTemplatesFileOptions { bits: 0 }
    }

    /// Load the file when it is not in memory yet
    /// (`GetTemplatesFileOption_LoadIfNotLoaded`).
    pub fn load_if_not_loaded() -> (flags: GetTemplatesFileOptions)
        ensures
            flags@ == 1,
    {
        GetTemplatesFileOptions { bits: 1 }
    }

    /// The raw mask, as the engine exchanges it.
    pub fn bits(self) -> (bits: i32)
        ensures
            bits == self@,
    {
        self.bits
    }

    /// Takes a raw mask as it is, keeping bits this build has no name for.
    pub fn from_bits_retain(bits: i32) -> (flags: GetTemplatesFileOptions)
        ensures
            flags@ == bits,
    {
        GetTemplatesFileOptions { bits }
    }

    /// Whether no flag is set.
    pub fn is_empty(self) -> (empty: bool)
        ensures
            empty == (self@ == 0),
    {
        self.bits == 0
    }

    /// Whether every flag set in `other` is also set here.
    pub fn contains(self, other: GetTemplatesFileOptions) -> (contained: bool)
        ensures
            contained == mask_contains(self@, other@),
    {
        self.bits & other.bits == other.bits
    }

    /// The flags set in either mask.
    pub fn union(self, other: GetTemplatesFileOptions) -> (joined: GetTemplatesFileOptions)
        ensures
            joined@ == self@ | other@,
    {
        GetTemplatesFileOptions { bits: self.bits | other.bits }
    }

    /// The flags set in both masks.
    pub fn intersection(self, other: GetTemplatesFileOptions) -> (common: GetTemplatesFileOptions)
        ensures
            common@ == self@ & other@,
    {
        GetTemplatesFileOptions { bits: self.bits & other.bits }
    }
}

impl BitOr for GetTemplatesFileOptions {
    type Output = GetTemplatesFileOptions;

    fn bitor(self, rhs: GetTemplatesFileOptions) -> (result: GetTemplatesFileOptions)
        ensures
            result@ == self@ | rhs@,
    {
        self.union(rhs)
    }
}

impl BitOrSpecImpl for GetTemplatesFileOptions {
    open spec fn obeys_bitor_spec() -> bool {
        true
    }

    open spec fn bitor_req(self, rhs: GetTemplatesFileOptions) -> bool {
        true
    }

    closed spec fn bitor_spec(self, rhs: GetTemplatesFileOptions) -> GetTemplatesFileOptions {
        GetTemplatesFileOptions { bits: self.bits | rhs.bits }
    }
}

impl BitAnd for GetTemplatesFileOptions {
    type Output = GetTemplatesFileOptions;

    fn bitand(self, rhs: GetTemplatesFileOptions) -> (result: GetTemplatesFileOptions)
        ensures
            result@ == self@ & rhs@,
    {
        self.intersection(rhs)
    }
}

impl BitAndSpecImpl for GetTemplatesFileOptions {
    open spec fn obeys_bitand_spec() -> bool {
        true
    }

    open spec fn bitand_req(self, rhs: GetTemplatesFileOptions) -> bool {
        true
    }

    closed spec fn bitand_spec(self, rhs: GetTemplatesFileOptions) -> GetTemplatesFileOptions {
        GetTemplatesFileOptions { bits: self.bits & rhs.bits }
    }
}

impl Default for GetTemplatesFileOptions {
    /// No flags set.
    fn default() -> (flags: GetTemplatesFileOptions)
        ensures
            flags@ == 0,
    {
        GetTemplatesFileOptions { bits: 0 }
    }
}

} // verus!
