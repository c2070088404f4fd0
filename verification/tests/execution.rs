use rs_teststand::execution::{
    limits_from_bounds, measurement_source, recorded_text, text_or_empty, unread_range,
    MeasurementSource,
};
use rs_teststand::{ResultError, ThreadTerminationOption};

#[test]
fn termination_option_every_documented_value_round_trips() {
    for raw in 0..=2 {
        assert_eq!(
            ThreadTerminationOption::from_bits(raw).map(ThreadTerminationOption::bits),
            Ok(raw),
            "{raw} is documented but did not round-trip"
        );
    }
}

#[test]
fn termination_option_an_unknown_value_is_returned_rather_than_guessed() {
    assert_eq!(ThreadTerminationOption::from_bits(7), Err(7));
}

#[test]
fn only_normal_stops_with_its_execution() {
    assert!(ThreadTerminationOption::Normal.stops_with_execution());
    assert!(!ThreadTerminationOption::Prompt.stops_with_execution());
    assert!(!ThreadTerminationOption::Never.stops_with_execution());
}

#[test]
fn termination_options_use_the_engine_numbers() {
    assert_eq!(ThreadTerminationOption::Normal.bits(), 0);
    assert_eq!(ThreadTerminationOption::Prompt.bits(), 1);
    assert_eq!(ThreadTerminationOption::Never.bits(), 2);
    assert_eq!(ThreadTerminationOption::from_bits(-1), Err(-1));
}

#[test]
fn a_result_error_defaults_to_nothing_having_happened() {
    let error = ResultError::default();
    assert!(!error.occurred);
    assert_eq!(error.code, 0);
    assert!(error.message.is_empty());
    assert_eq!(error.clone(), error);
}

#[test]
fn no_measurement_is_not_a_numeric_reading() {
    assert_eq!(measurement_source(false, None), MeasurementSource::Absent);
    assert_eq!(measurement_source(true, None), MeasurementSource::Number);
    assert_ne!(measurement_source(false, None), measurement_source(true, None));
}

#[test]
fn a_string_reading_is_taken_from_the_text_slot() {
    assert_eq!(measurement_source(false, Some("SN-001")), MeasurementSource::Text);
    // The number is the reading when both slots hold something.
    assert_eq!(measurement_source(true, Some("1.5")), MeasurementSource::Number);
    // An empty string is no reading.
    assert_eq!(measurement_source(false, Some("")), MeasurementSource::Absent);
}

#[test]
fn empty_units_read_as_none() {
    assert_eq!(recorded_text(Some("V".to_owned())), Some("V".to_owned()));
    assert_eq!(recorded_text(Some(String::new())), None);
    assert_eq!(recorded_text(None), None);
}

#[test]
fn a_poll_reads_only_what_is_new() {
    assert_eq!(unread_range(0, 5), (0, 5));
    assert_eq!(unread_range(3, 5), (3, 5));
    assert_eq!(unread_range(-4, 5), (0, 5));
    let (first, end) = unread_range(7, 5);
    assert!((first..end).next().is_none());
}

#[test]
fn limits_need_both_bounds() {
    assert_eq!(limits_from_bounds(Some(1.5_f64), Some(2.5_f64)), Some((1.5, 2.5)));
    assert_eq!(limits_from_bounds(Some(1.5_f64), None), None);
    assert_eq!(limits_from_bounds(None, Some(2.5_f64)), None);
    assert_eq!(limits_from_bounds::<f64>(None, None), None);
}

#[test]
fn missing_text_becomes_empty() {
    assert_eq!(text_or_empty(None), "");
    assert_eq!(text_or_empty(Some("Passed".to_owned())), "Passed");
    assert_eq!(text_or_empty(Some(String::new())), "");
}
