use rs_teststand::messaging::{shutdown_progress, shutdown_step, ShutdownAction, ShutdownEvent};
use rs_teststand::{ShutdownProgress, UIMessageCode};

#[test]
fn every_code_round_trips() {
    for code in UIMessageCode::ALL {
        assert_eq!(UIMessageCode::from_bits(code.bits()), Ok(code));
    }
}

#[test]
fn engine_codes_sit_below_the_user_range() {
    for code in UIMessageCode::ALL {
        assert!(
            !UIMessageCode::is_user_message(code.bits()),
            "{code:?} collides with the user range"
        );
    }
}

#[test]
fn a_sequence_posted_code_is_recognised() {
    assert!(UIMessageCode::is_user_message(
        UIMessageCode::USER_MESSAGE_BASE
    ));
    assert!(UIMessageCode::is_user_message(
        UIMessageCode::USER_MESSAGE_BASE + 1
    ));
    assert_eq!(
        UIMessageCode::from_bits(UIMessageCode::USER_MESSAGE_BASE + 1),
        Err(10001)
    );
}

#[test]
fn shutdown_complete_keeps_the_value_the_watchdog_relies_on() {
    assert_eq!(UIMessageCode::ShutDownComplete.bits(), 9);
}

#[test]
fn the_code_table_is_dense_from_one() {
    assert_eq!(UIMessageCode::ALL.len(), 45);
    for (index, code) in UIMessageCode::ALL.iter().enumerate() {
        assert_eq!(code.bits(), index as i32 + 1);
    }
    assert_eq!(UIMessageCode::from_bits(0), Err(0));
    assert_eq!(UIMessageCode::from_bits(46), Err(46));
    assert!(!UIMessageCode::is_user_message(9999));
}

#[test]
fn a_shutdown_waits_for_the_engine_to_answer() {
    assert_eq!(shutdown_progress(9), ShutdownProgress::Confirmed);
    assert_eq!(shutdown_progress(20), ShutdownProgress::Cancelled);
    assert_eq!(shutdown_progress(8), ShutdownProgress::Pending);
    assert_eq!(shutdown_progress(10009), ShutdownProgress::Pending);
    assert_eq!(
        shutdown_progress(UIMessageCode::EndExecution.bits()),
        ShutdownProgress::Pending
    );
}

#[test]
fn a_shutdown_wait_runs_its_protocol_in_order() {
    assert_eq!(shutdown_step(ShutdownEvent::Begin, 0, 1000), ShutdownAction::SetPolling { enabled: true });
    assert_eq!(shutdown_step(ShutdownEvent::PollingEnabled, 0, 1000), ShutdownAction::RequestShutdown { final_shutdown: true });
    assert_eq!(shutdown_step(ShutdownEvent::ShutdownRequested, 0, 1000), ShutdownAction::Pump);
    assert_eq!(shutdown_step(ShutdownEvent::Pumped { quit: false }, 10, 1000), ShutdownAction::CheckQueue);
    assert_eq!(shutdown_step(ShutdownEvent::QueueChecked { empty: false }, 10, 1000), ShutdownAction::Take);
    assert_eq!(shutdown_step(ShutdownEvent::Taken { code: 8 }, 10, 1000), ShutdownAction::Acknowledge { code: 8 });
    assert_eq!(shutdown_step(ShutdownEvent::Acknowledged { code: 8 }, 10, 1000), ShutdownAction::CheckQueue);
    assert_eq!(shutdown_step(ShutdownEvent::QueueChecked { empty: true }, 20, 1000), ShutdownAction::Pump);
    assert_eq!(shutdown_step(ShutdownEvent::Taken { code: 9 }, 30, 1000), ShutdownAction::Acknowledge { code: 9 });
    assert_eq!(shutdown_step(ShutdownEvent::Acknowledged { code: 9 }, 30, 1000), ShutdownAction::Finish { confirmed: true });
}

#[test]
fn a_shutdown_wait_ends_unconfirmed_on_cancel_quit_or_timeout() {
    assert_eq!(shutdown_step(ShutdownEvent::Acknowledged { code: 20 }, 0, 1000), ShutdownAction::Finish { confirmed: false });
    assert_eq!(shutdown_step(ShutdownEvent::Pumped { quit: true }, 0, 1000), ShutdownAction::Finish { confirmed: false });
    assert_eq!(shutdown_step(ShutdownEvent::QueueChecked { empty: true }, 1000, 1000), ShutdownAction::Finish { confirmed: false });
    assert_eq!(shutdown_step(ShutdownEvent::ShutdownRequested, 0, 0), ShutdownAction::Finish { confirmed: false });
    // A message taken after the timeout is still acknowledged and decided on.
    assert_eq!(shutdown_step(ShutdownEvent::Taken { code: 9 }, 5000, 1000), ShutdownAction::Acknowledge { code: 9 });
    assert_eq!(shutdown_step(ShutdownEvent::Acknowledged { code: 9 }, 5000, 1000), ShutdownAction::Finish { confirmed: true });
}
