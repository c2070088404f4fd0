//! Waiting for the engine to finish shutting down.
//!
//! `Engine.ShutDown` is asynchronous: it returns as soon as the request is
//! accepted, and the engine reports completion later by posting
//! `UIMsg_ShutDownComplete` to its message queue. A host enables message
//! polling, asks the engine to shut down, then pumps the thread's queue and
//! drains the engine's, acknowledging every message before deciding on it,
//! until the engine answers or a timeout passes. The decision for each message
//! is [`shutdown_progress`]; the whole wait, one step at a time, is
//! [`shutdown_step`], which the host drives by performing each action it
//! returns and reporting back how it went.
use vstd::prelude::*;

use crate::messaging::UIMessageCode;

verus! {

/// Where a shutdown stands after one message from the engine.
#[derive(Debug, Clone, Copy, PartialEq, Eq, Structural)]
pub enum ShutdownProgress {
    /// The engine confirmed the shutdown: the wait ends in success.
    Confirmed,
    /// The engine cancelled it, which a sequence can cause by refusing to
    /// terminate: the wait ends in failure.
    Cancelled,
    /// Neither: keep waiting.
    Pending,
}

/// Classifies one message code drained from the engine's queue while waiting
/// for a shutdown.
pub fn shutdown_progress(event: i32) -> (progress: ShutdownProgress)
    ensures
        event == UIMessageCode::ShutDownComplete.number() ==> progress == ShutdownProgress::Confirmed,
        event == UIMessageCode::ShutDownCancelled.number() ==> progress == ShutdownProgress::Cancelled,
        event != UIMessageCode::ShutDownComplete.number() && event
            != UIMessageCode::ShutDownCancelled.number() ==> progress == ShutdownProgress::Pending,
{
    match UIMessageCode::from_bits(event) {
        Ok(UIMessageCode::ShutDownComplete) => ShutdownProgress::Confirmed,
        Ok(UIMessageCode::ShutDownCancelled) => ShutdownProgress::Cancelled,
        _ => ShutdownProgress::Pending,
    }
}

/// What the host did last in a shutdown wait, and how it went: the input to
/// [`shutdown_step`].
#[derive(Debug, Clone, Copy, PartialEq, Eq, Structural)]
pub enum ShutdownEvent {
    /// Nothing yet: the wait is about to begin.
    Begin,
    /// Message polling is now enabled.
    PollingEnabled,
    /// The engine accepted the shutdown request. The wait's clock starts here.
    ShutdownRequested,
    /// The thread's message queue was pumped; `quit` when it held a quit
    /// message.
    Pumped { quit: bool },
    /// The engine's message queue was checked; `empty` when it held nothing.
    QueueChecked { empty: bool },
    /// A message was taken from the engine's queue; `code` is its event code.
    Taken { code: i32 },
    /// The message with event code `code` was acknowledged.
    Acknowledged { code: i32 },
}

/// What the host is to do next in a shutdown wait: the output of
/// [`shutdown_step`].
#[derive(Debug, Clone, Copy, PartialEq, Eq, Structural)]
pub enum ShutdownAction {
    /// Set `Engine.UIMessagePollingEnabled` to `enabled`.
    SetPolling { enabled: bool },
    /// Call `Engine.ShutDown` with `final_shutdown`.
    RequestShutdown { final_shutdown: bool },
    /// Pump the thread's message queue.
    Pump,
    /// Ask whether the engine's message queue is empty.
    CheckQueue,
    /// Take the next message from the engine's queue and read its event code.
    Take,
    /// Acknowledge the message just taken, whose event code is `code`.
    Acknowledge { code: i32 },
    /// The wait is over: `confirmed` when the engine confirmed the shutdown.
    Finish { confirmed: bool },
}

/// `action` is what follows `event` in a shutdown wait that has run for
/// `elapsed_ms` of its `timeout_ms` since the shutdown request:
/// - polling is enabled first, and the shutdown is requested only once it is;
/// - while time remains, the thread's queue is pumped, then the engine's queue
///   is drained one message at a time, each acknowledged before it is decided
///   on;
/// - a confirmation ends the wait with `true`, a cancellation, a quit from the
///   pump, or the timeout running out with `false`; any other message lets
///   the draining go on.
pub open spec fn shutdown_follows(
    event: ShutdownEvent,
    elapsed_ms: u64,
    timeout_ms: u64,
    action: ShutdownAction,
) -> bool {
    match event {
        ShutdownEvent::Begin => action == ShutdownAction::SetPolling { enabled: true },
        ShutdownEvent::PollingEnabled => action == ShutdownAction::RequestShutdown {
            final_shutdown: true,
        },
        ShutdownEvent::ShutdownRequested | ShutdownEvent::QueueChecked { empty: true } => if elapsed_ms
            < timeout_ms {
            action == ShutdownAction::Pump
        } else {
            action == ShutdownAction::Finish { confirmed: false }
        },
        ShutdownEvent::Pumped { quit } => if quit {
            action == ShutdownAction::Finish { confirmed: false }
        } else {
            action == ShutdownAction::CheckQueue
        },
        ShutdownEvent::QueueChecked { empty: false } => action == ShutdownAction::Take,
        ShutdownEvent::Taken { code } => action == ShutdownAction::Acknowledge { code },
        ShutdownEvent::Acknowledged { code } => if code == UIMessageCode::ShutDownComplete.number() {
            action == ShutdownAction::Finish { confirmed: true }
        } else if code == UIMessageCode::ShutDownCancelled.number() {
            action == ShutdownAction::Finish { confirmed: false }
        } else {
            action == ShutdownAction::CheckQueue
        },
    }
}

/// Decides the next step of a shutdown wait from what the host did last, how
/// long the wait has run since the shutdown request (`elapsed_ms`) and how long
/// it may run (`timeout_ms`).
///
/// Without polling the completion message would go to an event sink a
/// headless host does not have, so polling is enabled before the request.
/// Each message is acknowledged before it is decided on: an unacknowledged
/// synchronous message would hold up the very shutdown being waited on. The
/// timeout is checked before each pump, so the wait is bounded.
pub fn shutdown_step(event: ShutdownEvent, elapsed_ms: u64, timeout_ms: u64) -> (action:
    ShutdownAction)
    ensures
        shutdown_follows(event, elapsed_ms, timeout_ms, action),
{
    match event {
        ShutdownEvent::Begin => ShutdownAction::SetPolling { enabled: true },
        ShutdownEvent::PollingEnabled => ShutdownAction::RequestShutdown { final_shutdown: true },
        ShutdownEvent::ShutdownRequested | ShutdownEvent::QueueChecked { empty: true } => {
            if elapsed_ms < timeout_ms {
                ShutdownAction::Pump
            } else {
                ShutdownAction::Finish { confirmed: false }
            }
        },
        ShutdownEvent::Pumped { quit } => {
            if quit {
                ShutdownAction::Finish { confirmed: false }
            } else {
                ShutdownAction::CheckQueue
            }
        },
        ShutdownEvent::QueueChecked { empty: false } => ShutdownAction::Take,
        ShutdownEvent::Taken { code } => ShutdownAction::Acknowledge { code },
        ShutdownEvent::Acknowledged { code } => match shutdown_progress(code) {
            ShutdownProgress::Confirmed => ShutdownAction::Finish { confirmed: true },
            ShutdownProgress::Cancelled => ShutdownAction::Finish { confirmed: false },
            ShutdownProgress::Pending => ShutdownAction::CheckQueue,
        },
    }
}

/// The order of a shutdown wait: the request is made only once polling is
/// enabled, and polling is enabled only at the start.
pub proof fn lemma_polling_precedes_the_request(
    event: ShutdownEvent,
    elapsed_ms: u64,
    timeout_ms: u64,
    action: ShutdownAction,
)
    requires
        shutdown_follows(event, elapsed_ms, timeout_ms, action),
    ensures
        (action is RequestShutdown) ==> event == ShutdownEvent::PollingEnabled,
        (action is SetPolling) ==> event == ShutdownEvent::Begin,
{
}

/// No message is decided on before it is acknowledged: the wait ends on a
/// message only after its acknowledgement, taking a message always leads to
/// acknowledging that same message, and only a confirmation ends it in
/// success.
pub proof fn lemma_messages_are_acknowledged_before_deciding(
    event: ShutdownEvent,
    elapsed_ms: u64,
    timeout_ms: u64,
    action: ShutdownAction,
)
    requires
        shutdown_follows(event, elapsed_ms, timeout_ms, action),
    ensures
        (event matches ShutdownEvent::Taken { code } ==> action == (ShutdownAction::Acknowledge {
            code,
        })),
        action == (ShutdownAction::Finish { confirmed: true }) ==> event == (
        ShutdownEvent::Acknowledged { code: UIMessageCode::ShutDownComplete.number() }),
{
}

/// The wait is bounded: once the timeout has run out the queue is no longer
/// pumped, and the next chance to wait ends it without confirmation; a quit
/// from the pump ends it the same way.
pub proof fn lemma_the_wait_is_bounded(
    event: ShutdownEvent,
    elapsed_ms: u64,
    timeout_ms: u64,
    action: ShutdownAction,
)
    requires
        shutdown_follows(event, elapsed_ms, timeout_ms, action),
    ensures
        elapsed_ms >= timeout_ms ==> action != ShutdownAction::Pump,
        elapsed_ms >= timeout_ms && (event == ShutdownEvent::ShutdownRequested || event == (
        ShutdownEvent::QueueChecked { empty: true })) ==> action == (ShutdownAction::Finish {
            confirmed: false,
        }),
        event == (ShutdownEvent::Pumped { quit: true }) ==> action == (ShutdownAction::Finish {
            confirmed: false,
        }),
{
}

/// Only the engine's two answers to a shutdown end the wait on a message:
/// an acknowledged `UIMsg_ShutDownComplete` (9) ends it in success, an
/// acknowledged `UIMsg_ShutDownCancelled` (20) in failure, and every other
/// acknowledged message, whatever its code, lets the draining go on.
pub proof fn lemma_only_the_shutdown_answers_end_the_wait(
    code: i32,
    elapsed_ms: u64,
    timeout_ms: u64,
    action: ShutdownAction,
)
    requires
        shutdown_follows(ShutdownEvent::Acknowledged { code }, elapsed_ms, timeout_ms, action),
    ensures
        code != 9 && code != 20 ==> action == ShutdownAction::CheckQueue,
        code == 9 ==> action == (ShutdownAction::Finish { confirmed: true }),
        code == 20 ==> action == (ShutdownAction::Finish { confirmed: false }),
        action == (ShutdownAction::Finish { confirmed: false }) ==> code == 20,
{
}

} // verus!
