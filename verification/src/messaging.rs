//! Messages the engine posts to its host, and the protocol a headless host
//! follows while waiting on them.
use vstd::prelude::*;

pub mod shutdown;
pub mod ui_message_code;

pub use shutdown::{shutdown_progress, shutdown_step, ShutdownAction, ShutdownEvent, ShutdownProgress};
pub use ui_message_code::UIMessageCode;

verus! {

} // verus!
