use rs_teststand::property::{dimension_lengths, dimension_lengths_fit, parse_bounds};
use rs_teststand::{Error, GetTemplatesFileOptions, PropertyOptions, PropertyRepresentation};

#[test]
fn bounds_parse_one_group_per_dimension() -> Result<(), Error> {
    assert_eq!(parse_bounds("[0]")?, vec![0]);
    assert_eq!(parse_bounds("[9][1]")?, vec![9, 1]);
    assert_eq!(parse_bounds("[0][0][0]")?, vec![0, 0, 0]);
    assert_eq!(parse_bounds("[-1]")?, vec![-1]);
    Ok(())
}

#[test]
fn a_two_dimensional_shape_multiplies_out_to_its_element_count() -> Result<(), Error> {
    let lower = parse_bounds("[0][0]")?;
    let upper = parse_bounds("[9][1]")?;
    let lengths: Vec<i32> = lower
        .iter()
        .zip(upper.iter())
        .map(|(low, high)| high - low + 1)
        .collect();
    assert_eq!(lengths, vec![10, 2]);
    assert_eq!(lengths.iter().product::<i32>(), 20);
    Ok(())
}

#[test]
fn an_empty_array_has_a_dimension_of_length_zero() -> Result<(), Error> {
    assert_eq!(parse_bounds("[0]")?, vec![0]);
    assert!(parse_bounds("[]")?.is_empty());
    Ok(())
}

#[test]
fn a_non_array_reports_no_bounds() -> Result<(), Error> {
    assert!(parse_bounds("")?.is_empty());
    assert!(parse_bounds("[]")?.is_empty());
    Ok(())
}

#[test]
fn a_malformed_bound_is_reported_not_guessed() {
    assert!(parse_bounds("[0,oops]").is_err());
}

#[test]
fn bounds_tolerate_white_space_and_signs() -> Result<(), Error> {
    assert_eq!(parse_bounds("  [ 3 ] [ +4 ]  ")?, vec![3, 4]);
    assert_eq!(parse_bounds("\t[]\n")?, Vec::<i32>::new());
    assert_eq!(parse_bounds("[[7]")?, vec![7]);
    assert_eq!(parse_bounds("5]")?, vec![5]);
    assert_eq!(parse_bounds("[2147483647][-2147483648]")?, vec![i32::MAX, i32::MIN]);
    Ok(())
}

#[test]
fn malformed_bounds_are_errors() {
    for text in ["[2147483648]", "[-]", "[+]", "[1][", "[0x10]", "[1 2]", "[]]", "[--1]", "[ ]"] {
        assert!(
            matches!(parse_bounds(text), Err(Error::UnexpectedType { .. })),
            "{text} should not parse"
        );
    }
}

#[test]
fn a_trailing_group_without_its_closing_bracket_still_counts() {
    assert_eq!(parse_bounds("[1").ok(), Some(vec![1]));
}

#[test]
fn lengths_follow_from_the_bound_strings() {
    assert_eq!(dimension_lengths("[0][0]", "[9][1]").ok(), Some(vec![10, 2]));
    assert_eq!(dimension_lengths("[0]", "[]").ok(), Some(vec![0]));
    assert_eq!(dimension_lengths("", "").ok(), Some(Vec::new()));
    assert_eq!(dimension_lengths("[1]", "[3]").ok(), Some(vec![3]));
    assert!(matches!(
        dimension_lengths("[0][0]", "[9]"),
        Err(Error::UnexpectedType { expected: "matching lower and upper bound counts", .. })
    ));
    assert!(matches!(
        dimension_lengths("[x]", "[9]"),
        Err(Error::UnexpectedType { actual: "an unparsable bound string", .. })
    ));
    assert!(dimension_lengths("[0]", "[y]").is_err());
}

#[test]
fn none_is_empty_and_combines_to_nothing() {
    assert!(PropertyOptions::none().is_empty());
    assert_eq!(PropertyOptions::none().bits(), 0);
}

#[test]
fn flags_combine_and_test_membership() {
    let options = PropertyOptions::insert_if_missing() | PropertyOptions::coerce_to_string();
    assert!(options.contains(PropertyOptions::insert_if_missing()));
    assert!(options.contains(PropertyOptions::coerce_to_string()));
    assert!(!options.contains(PropertyOptions::do_not_recurse()));
    assert_eq!(options.bits(), 1 | 128);
}

#[test]
fn round_trips_through_raw_bits() {
    let raw = PropertyOptions::coerce().bits();
    assert_eq!(
        PropertyOptions::from_bits_retain(raw),
        PropertyOptions::coerce()
    );
}

#[test]
fn asking_for_the_templates_file_defaults_to_not_loading_it() {
    assert_eq!(GetTemplatesFileOptions::default().bits(), 0);
    assert!(
        !GetTemplatesFileOptions::default()
            .contains(GetTemplatesFileOptions::load_if_not_loaded())
    );
}

#[test]
fn unknown_bits_from_the_engine_are_preserved() {
    let unknown = 1 << 30;
    assert_eq!(PropertyOptions::from_bits_retain(unknown).bits(), unknown);
}

#[test]
fn shared_bits_name_the_same_flag() {
    assert_eq!(PropertyOptions::insert_if_missing(), PropertyOptions::insert_element());
    assert_eq!(PropertyOptions::delete_if_exists(), PropertyOptions::remove_element());
    assert_eq!(PropertyOptions::coerce().bits(), 197_112);
    assert_eq!(PropertyOptions::copy_all_flags().bits(), 536_870_912);
    assert_eq!(
        (PropertyOptions::coerce() & PropertyOptions::coerce_to_string()).bits(),
        128
    );
    assert_eq!(PropertyOptions::default(), PropertyOptions::none());
}

#[test]
fn representations_decode_from_the_engine_numbering() {
    assert_eq!(PropertyRepresentation::NoRepresentation.bits(), 0);
    assert_eq!(PropertyRepresentation::Float64.bits(), 1);
    assert_eq!(PropertyRepresentation::from_bits(2), Ok(PropertyRepresentation::Int64));
    assert_eq!(PropertyRepresentation::from_bits(3), Ok(PropertyRepresentation::UInt64));
    assert_eq!(PropertyRepresentation::from_bits(4), Err(4));
}

#[test]
fn comma_separated_bounds_list_one_dimension_each() -> Result<(), Error> {
    assert_eq!(parse_bounds("[0,0]")?, vec![0, 0]);
    assert_eq!(parse_bounds("[2,4]")?, vec![2, 4]);
    assert_eq!(parse_bounds(" [ 1 , -2 ][3] ")?, vec![1, -2, 3]);
    assert_eq!(dimension_lengths("[0,0]", "[2,4]").ok(), Some(vec![3, 5]));
    assert_eq!(dimension_lengths("[0][0]", "[2,4]").ok(), Some(vec![3, 5]));
    for text in ["[1,]", "[,1]", "[1,,2]", "[0,oops]"] {
        assert!(parse_bounds(text).is_err(), "{text} should not parse");
    }
    Ok(())
}

#[test]
fn bounds_written_one_per_group_read_back() -> Result<(), Error> {
    let values = vec![0, -1, 9, i32::MAX, i32::MIN];
    let text: String = values.iter().map(|x| format!("[{x}]")).collect();
    assert_eq!(parse_bounds(&text)?, values);
    assert_eq!(parse_bounds("")?, Vec::<i32>::new());
    Ok(())
}

#[test]
fn span_check_tells_which_bounds_fit() {
    assert!(dimension_lengths_fit("[0][0]", "[9][1]"));
    assert!(dimension_lengths_fit("[x]", "[9]"));
    assert!(!dimension_lengths_fit("[-2147483648]", "[2147483647]"));
    assert!(!dimension_lengths_fit("[0,0]", "[1,2147483647]"));
}
