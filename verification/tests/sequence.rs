use rs_teststand::dispids::sequence;
use rs_teststand::{
    BreakpointScope, ConflictHandler, GetSeqFileOptions, ResultRecordingOption, RunMode,
};

#[test]
fn flags_combine() {
    let options = GetSeqFileOptions::preload_modules() | GetSeqFileOptions::find_file();
    assert_eq!(options.bits(), 1 | 32);
    assert!(options.contains(GetSeqFileOptions::find_file()));
    assert!(!options.contains(GetSeqFileOptions::only_if_in_cache()));
}

#[test]
fn operator_interface_is_a_composite_of_named_flags() {
    let operator = GetSeqFileOptions::operator_interface();
    assert!(operator.contains(GetSeqFileOptions::preload_modules()));
    assert!(operator.contains(GetSeqFileOptions::update_from_disk()));
    assert!(operator.contains(GetSeqFileOptions::find_file()));
}

#[test]
fn conflict_handler_maps_to_documented_values() {
    assert_eq!(ConflictHandler::Error.bits(), 1);
    assert_eq!(ConflictHandler::Prompt.bits(), 3);
    assert_eq!(ConflictHandler::UseGlobalType.bits(), 4);
}

#[test]
fn a_step_records_its_result_unless_told_otherwise() {
    assert_eq!(
        ResultRecordingOption::default(),
        ResultRecordingOption::Enabled
    );
}

#[test]
fn every_option_round_trips_through_its_raw_value() {
    for option in [
        ResultRecordingOption::Disabled,
        ResultRecordingOption::Enabled,
        ResultRecordingOption::EnabledAndOverrideSequenceSetting,
    ] {
        assert_eq!(
            ResultRecordingOption::from_bits(option.bits()).ok(),
            Some(option)
        );
    }
}

#[test]
fn an_unknown_value_is_reported_rather_than_guessed() {
    assert!(ResultRecordingOption::from_bits(7).is_err());
    assert!(ResultRecordingOption::from_bits(-1).is_err());
}

#[test]
fn result_recording_options_use_the_engine_numbers() {
    assert_eq!(ResultRecordingOption::Disabled.bits(), 0);
    assert_eq!(
        ResultRecordingOption::from_bits(2).ok(),
        Some(ResultRecordingOption::EnabledAndOverrideSequenceSetting)
    );
}

#[test]
fn the_forcing_modes_do_not_spell_themselves_the_way_they_are_named() {
    assert_eq!(RunMode::ForcePass.as_str(), "Pass");
    assert_eq!(RunMode::ForceFail.as_str(), "Fail");
}

#[test]
fn every_mode_round_trips() {
    for mode in [
        RunMode::Normal,
        RunMode::Skip,
        RunMode::ForcePass,
        RunMode::ForceFail,
    ] {
        assert_eq!(RunMode::from_value(mode.as_str()), Some(mode));
    }
}

#[test]
fn a_step_runs_unless_told_otherwise() {
    assert_eq!(RunMode::default(), RunMode::Normal);
}

#[test]
fn an_unrecognized_mode_is_reported_rather_than_guessed() {
    assert_eq!(RunMode::from_value("0"), None);
    assert_eq!(RunMode::from_value("normal"), None);
}

#[test]
fn locals_and_parameters_are_distinct_dispids() {
    assert_ne!(sequence::LOCALS, sequence::PARAMETERS);
    assert_eq!(sequence::LOCALS, 0x33);
    assert_eq!(sequence::PARAMETERS, 0x32);
}

#[test]
fn step_scope_sends_an_absent_argument() {
    let step: BreakpointScope<'_, u32> = BreakpointScope::Step;
    assert!(step.argument().is_none());
    let execution = 7_u32;
    let scoped = BreakpointScope::Execution(&execution);
    assert_eq!(scoped.argument(), Some(&7));
}

#[test]
fn the_spelled_modes_read_back() {
    assert_eq!(RunMode::from_value("Skip"), Some(RunMode::Skip));
    assert_eq!(RunMode::from_value("Pass"), Some(RunMode::ForcePass));
    assert_eq!(RunMode::from_value("ForcePass"), None);
    assert_eq!(RunMode::Normal.as_str(), "Normal");
    assert_eq!(GetSeqFileOptions::operator_interface().bits(), 107);
    assert_eq!(GetSeqFileOptions::default().bits(), 0);
}
