//! Licensing: what the engine is running on, and how to ask for it without a
//! dialog.
//!
//! Asking for a license that cannot be granted makes the engine put up a
//! window that waits for a person. Passing
//! [`AcquireLicenseOptions::suppress_startup_dialog`] turns that same situation
//! into a returned error.
use vstd::prelude::*;

pub mod acquire;
mod application_license;
mod held;
mod license_type;
mod options;

pub use acquire::{after_attempt, grant_from_handle, license_request, LicenseAttempt};
pub use application_license::ApplicationLicense;
pub use held::HeldLicense;
pub use license_type::LicenseType;
pub use options::AcquireLicenseOptions;

verus! {

} // verus!
