use rs_teststand::license::{after_attempt, grant_from_handle, license_request, LicenseAttempt};
use rs_teststand::license::acquire::{LICENSE_PATIENCE_MS, LICENSE_RETRY_INTERVAL_MS};
use rs_teststand::{AcquireLicenseOptions, ApplicationLicense, Error, HeldLicense, LicenseType};

#[test]
fn application_license_every_documented_value_round_trips() {
    for kind in [
        ApplicationLicense::Unspecified,
        ApplicationLicense::OperatorInterface,
        ApplicationLicense::CustomEditor,
        ApplicationLicense::SequenceEditor,
    ] {
        assert_eq!(ApplicationLicense::from_bits(kind.bits()), Ok(kind));
    }
}

#[test]
fn the_values_are_not_ordinals() {
    assert_eq!(ApplicationLicense::OperatorInterface.bits(), 100);
    assert_eq!(ApplicationLicense::SequenceEditor.bits(), 300);
    assert_eq!(ApplicationLicense::from_bits(1), Err(1));
}

#[test]
fn license_type_every_documented_value_round_trips() {
    for raw in 1..=9 {
        let parsed = LicenseType::from_bits(raw);
        assert_eq!(
            parsed.map(LicenseType::bits),
            Ok(raw),
            "{raw} is documented but did not round-trip"
        );
    }
}

#[test]
fn license_type_an_unknown_value_is_returned_rather_than_guessed() {
    assert_eq!(LicenseType::from_bits(99), Err(99));
    assert_eq!(LicenseType::from_bits(0), Err(0));
}

#[test]
fn only_no_license_is_unusable() {
    assert!(!LicenseType::NoLicense.is_usable());
    for usable in [
        LicenseType::DevelopmentSystem,
        LicenseType::DebugDeploymentEnv,
        LicenseType::BaseDeploymentEngine,
        LicenseType::Oem,
        LicenseType::Evaluation,
        LicenseType::Temporary,
        LicenseType::Other,
        LicenseType::CustomEditorDeployment,
    ] {
        assert!(usable.is_usable(), "{usable:?} should count as usable");
    }
}

#[test]
fn the_documented_bits_are_what_the_engine_expects() {
    assert_eq!(AcquireLicenseOptions::none().bits(), 0);
    assert_eq!(AcquireLicenseOptions::suppress_startup_dialog().bits(), 1);
    assert_eq!(
        AcquireLicenseOptions::suppress_startup_dialog_if_already_shown().bits(),
        2
    );
    assert_eq!(AcquireLicenseOptions::show_exit_button().bits(), 4);
}

#[test]
fn suppressing_and_exiting_are_independent() {
    let both = AcquireLicenseOptions::suppress_startup_dialog()
        | AcquireLicenseOptions::show_exit_button();
    assert_eq!(both.bits(), 5);
    assert!(both.contains(AcquireLicenseOptions::suppress_startup_dialog()));
}

#[test]
fn a_held_license_reports_what_it_was_granted_with() {
    let held = HeldLicense::new(42, LicenseType::DevelopmentSystem);
    assert_eq!(held.handle(), 42);
    assert_eq!(held.kind(), LicenseType::DevelopmentSystem);
    assert_eq!(held.release(), 42);
}

#[test]
fn a_zero_handle_is_a_refusal() {
    assert!(matches!(grant_from_handle(0), Err(Error::NoLicense)));
    assert!(matches!(grant_from_handle(7), Ok(7)));
    assert!(matches!(grant_from_handle(-3), Ok(-3)));
}

#[test]
fn a_refusal_is_retried_only_while_patience_lasts() {
    assert!(matches!(after_attempt(Ok(9), 0), LicenseAttempt::Granted(9)));
    assert!(matches!(
        after_attempt(Err(Error::NoLicense), 0),
        LicenseAttempt::RetryAfter(LICENSE_RETRY_INTERVAL_MS)
    ));
    assert!(matches!(
        after_attempt(Err(Error::NoLicense), LICENSE_PATIENCE_MS - 1),
        LicenseAttempt::RetryAfter(100)
    ));
    assert!(matches!(
        after_attempt(Err(Error::NoLicense), LICENSE_PATIENCE_MS),
        LicenseAttempt::Refused(Error::NoLicense)
    ));
    assert!(matches!(
        after_attempt(Err(Error::Com { hresult: -5, dispid: 0 }), 0),
        LicenseAttempt::Refused(Error::Com { hresult: -5, dispid: 0 })
    ));
    assert_eq!(LICENSE_PATIENCE_MS, 3000);
}

#[test]
fn every_attempt_asks_for_any_licence_without_a_dialog() {
    let (kind, options) = license_request();
    assert_eq!(kind, ApplicationLicense::Unspecified);
    assert_eq!(options, AcquireLicenseOptions::suppress_startup_dialog());
    assert_eq!(options.bits(), 1);
}
