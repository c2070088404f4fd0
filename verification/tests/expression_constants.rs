use rs_teststand::{ColorConstant, DecimalPointLocalizationOption, OtherConstant};

#[test]
fn color_every_name_is_distinct() {
    let mut names: Vec<&str> = ColorConstant::ALL.iter().map(|item| item.name()).collect();
    names.sort_unstable();
    let count = names.len();
    names.dedup();
    assert_eq!(names.len(), count);
}

#[test]
fn the_byte_order_is_little_endian() {
    assert_eq!(ColorConstant::Red.value(), 0x0000_00ff);
    assert_eq!(ColorConstant::Green.value(), 0x0000_ff00);
    assert_eq!(ColorConstant::Blue.value(), 0x00ff_0000);
}

#[test]
fn every_name_carries_the_engine_prefix() {
    assert!(
        ColorConstant::ALL
            .iter()
            .all(|c| c.name().starts_with("ts"))
    );
}

#[test]
fn color_values_are_the_measured_ones() {
    assert_eq!(ColorConstant::Black.value(), 0);
    assert_eq!(ColorConstant::White.value(), 0x00ff_ffff);
    assert_eq!(ColorConstant::Gray.value(), 0x00a0_a0a0);
    assert_eq!(ColorConstant::DarkGray.value(), 0x0080_8080);
    assert_eq!(ColorConstant::LightGray.value(), 0x00c0_c0c0);
    assert_eq!(ColorConstant::DarkMagenta.name(), "tsDarkMagenta");
    assert!(ColorConstant::ALL.iter().all(|c| c.value() <= 0x00ff_ffff));
}

#[test]
fn other_every_name_is_distinct() {
    let mut names: Vec<&str> = OtherConstant::ALL.iter().map(|item| item.name()).collect();
    names.sort_unstable();
    let count = names.len();
    names.dedup();
    assert_eq!(names.len(), count);
}

#[test]
fn the_non_finite_constants_are_grouped() {
    for constant in [OtherConstant::Nan, OtherConstant::Ind, OtherConstant::Inf] {
        assert!(constant.is_non_finite(), "{constant:?}");
    }
    assert!(!OtherConstant::Pi.is_non_finite());
}

#[test]
fn the_other_constants_are_spelled_as_the_engine_writes_them() {
    assert_eq!(OtherConstant::Pi.name(), "PI");
    assert_eq!(OtherConstant::Nothing.name(), "Nothing");
    assert!(!OtherConstant::True.is_non_finite());
    assert!(!OtherConstant::Nothing.is_non_finite());
}

#[test]
fn every_option_round_trips_through_the_engine_numbering() {
    for option in [
        DecimalPointLocalizationOption::UsePreference,
        DecimalPointLocalizationOption::UseSystemSetting,
        DecimalPointLocalizationOption::UsePeriod,
        DecimalPointLocalizationOption::UseComma,
    ] {
        assert_eq!(
            DecimalPointLocalizationOption::from_bits(option.bits()),
            Ok(option),
        );
    }
}

#[test]
fn zero_is_rejected_rather_than_silently_accepted() {
    assert_eq!(DecimalPointLocalizationOption::from_bits(0), Err(0));
}

#[test]
fn decimal_point_options_are_numbered_from_one() {
    assert_eq!(DecimalPointLocalizationOption::UsePreference.bits(), 1);
    assert_eq!(DecimalPointLocalizationOption::UseComma.bits(), 4);
    assert_eq!(DecimalPointLocalizationOption::from_bits(5), Err(5));
}
