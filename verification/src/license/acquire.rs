//! The decisions a host makes while acquiring a licence.
//!
//! The engine calls themselves (`AcquireLicense`, `LicenseType`) are made by
//! the host; what it does with each answer is decided here.
use vstd::prelude::*;

use crate::error::Error;
use crate::license::{AcquireLicenseOptions, ApplicationLicense};

verus! {

/// How long a refusal is retried before it is believed, in milliseconds.
///
/// The licensing subsystem is not ready the instant the engine object exists:
/// on a properly licensed station, acquiring immediately after construction is
/// refused, while the same call half a second later succeeds.
pub const LICENSE_PATIENCE_MS: u64 = 3000;

/// The gap between two attempts, in milliseconds.
pub const LICENSE_RETRY_INTERVAL_MS: u64 = 100;

/// What to do after one attempt to acquire a licence.
#[derive(Debug)]
pub enum LicenseAttempt {
    /// The licence was granted under this handle.
    Granted(i32),
    /// Refused, but too soon to believe it: wait this many milliseconds and
    /// ask again.
    RetryAfter(u64),
    /// Give up with this error.
    Refused(Error),
}

/// The request every attempt makes: an unspecified licence, with the startup
/// dialog suppressed (`AcquireLicenseOption_SuppressStartupDialog`, the mask 1).
///
/// Unspecified lets the engine grant whatever it has; naming a kind can be
/// refused even on a properly licensed station. With the dialog suppressed an
/// unlicensed station returns an error rather than opening a window nobody
/// will close.
pub fn license_request() -> (request: (ApplicationLicense, AcquireLicenseOptions))
    ensures
        request.0 == ApplicationLicense::Unspecified,
        request.1@ == 1,
{
    (ApplicationLicense::Unspecified, AcquireLicenseOptions::suppress_startup_dialog())
}

/// `next` is what follows an attempt that ended in `outcome`, `elapsed_ms`
/// after the first attempt: a grant is taken, a refusal is retried after
/// [`LICENSE_RETRY_INTERVAL_MS`] while fewer than [`LICENSE_PATIENCE_MS`] have
/// passed and believed after that, and any other failure is reported as it is.
pub open spec fn follows(outcome: Result<i32, Error>, elapsed_ms: u64, next: LicenseAttempt) -> bool {
    match outcome {
        Ok(handle) => next matches LicenseAttempt::Granted(granted) && granted == handle,
        Err(Error::NoLicense) => if elapsed_ms < LICENSE_PATIENCE_MS {
            next matches LicenseAttempt::RetryAfter(wait) && wait == LICENSE_RETRY_INTERVAL_MS
        } else {
            next matches LicenseAttempt::Refused(Error::NoLicense)
        },
        Err(error) => next matches LicenseAttempt::Refused(refused) && refused == error,
    }
}

/// Turns the handle `Engine.AcquireLicense` returned into a grant.
///
/// A handle of zero is refusal. The reference says the member returns an error
/// when it cannot acquire the license; measured against an unlicensed station
/// it succeeds and hands back zero instead, so the zero becomes the error a
/// caller was promised.
pub fn grant_from_handle(handle: i32) -> (grant: Result<i32, Error>)
    ensures
        handle == 0 ==> grant matches Err(Error::NoLicense),
        handle != 0 ==> grant == Ok::<i32, Error>(handle),
{
    if handle == 0 {
        Err(Error::NoLicense)
    } else {
        Ok(handle)
    }
}

/// Decides what follows one attempt of the unspecified, dialog-free request a
/// host makes before anything else, `elapsed_ms` after the first attempt.
///
/// A grant is taken; a refusal is retried every
/// [`LICENSE_RETRY_INTERVAL_MS`] until [`LICENSE_PATIENCE_MS`] have passed;
/// any other failure is reported at once.
pub fn after_attempt(outcome: Result<i32, Error>, elapsed_ms: u64) -> (next: LicenseAttempt)
    ensures
        follows(outcome, elapsed_ms, next),
{
    match outcome {
        Ok(handle) => LicenseAttempt::Granted(handle),
        Err(Error::NoLicense) => {
            if elapsed_ms < LICENSE_PATIENCE_MS {
                LicenseAttempt::RetryAfter(LICENSE_RETRY_INTERVAL_MS)
            } else {
                LicenseAttempt::Refused(Error::NoLicense)
            }
        },
        Err(error) => LicenseAttempt::Refused(error),
    }
}

/// A refusal is retried only while patience lasts: once
/// [`LICENSE_PATIENCE_MS`] have passed, every outcome ends the attempts.
pub proof fn lemma_attempts_end_once_patience_runs_out(
    outcome: Result<i32, Error>,
    elapsed_ms: u64,
    next: LicenseAttempt,
)
    requires
        elapsed_ms >= LICENSE_PATIENCE_MS,
        follows(outcome, elapsed_ms, next),
    ensures
        !(next is RetryAfter),
{
}

} // verus!
