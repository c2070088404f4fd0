//! A licence the engine is holding.
use vstd::prelude::*;

use crate::license::LicenseType;

verus! {

/// A licence acquired from the engine.
///
/// The engine holds a licence type until every handle for it is released, so
/// this must stay alive for as long as the host needs to run. Giving it back
/// is [`HeldLicense::release`], which hands over the handle the engine's
/// `ReleaseLicense` call takes.
#[derive(Debug)]
pub struct HeldLicense {
    handle: i32,
    kind: LicenseType,
}

impl HeldLicense {
    /// The engine's handle for the licence.
    pub closed spec fn held_handle(&self) -> i32 {
        self.handle
    }

    /// What the engine reported it was using when the licence was granted.
    pub closed spec fn held_kind(&self) -> LicenseType {
        self.kind
    }

    /// Wraps an acquired handle together with the type the engine reported.
    pub fn new(handle: i32, kind: LicenseType) -> (held: HeldLicense)
        ensures
            held.held_handle() == handle,
            held.held_kind() == kind,
    {
        HeldLicense { handle, kind }
    }

    /// What the engine reports it is using.
    ///
    /// Informational, not the decision: holding this object at all means a
    /// licence was granted. After an unspecified request the engine may still
    /// report `NoLicense` here.
    pub fn kind(&self) -> (kind: LicenseType)
        ensures
            kind == self.held_kind(),
    {
        self.kind
    }

    /// The engine's handle for this licence.
    pub fn handle(&self) -> (handle: i32)
        ensures
            handle == self.held_handle(),
    {
        self.handle
    }

    /// Gives the licence back: consumes the guard and returns the handle the
    /// engine's `ReleaseLicense` must receive, so the same handle cannot be
    /// released twice.
    pub fn release(self) -> (handle: i32)
        ensures
            handle == self.held_handle(),
    {
        self.handle
    }
}

} // verus!
