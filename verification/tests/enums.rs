use rs_teststand::{
    ExecRunState, ExecTermState, OpenWorkspaceFileOptions, PropValType, PropertyValueTypeFlags,
    SaveWorkspaceFileOptions, SearchDirectoryType, StepGroup,
};

#[test]
fn discriminants_match_tlb_ground_truth() {
    assert_eq!(PropValType::Container.bits(), 0);
    assert_eq!(PropValType::String.bits(), 1);
    assert_eq!(PropValType::Boolean.bits(), 2);
    assert_eq!(PropValType::Number.bits(), 3);
    assert_eq!(PropValType::Enum.bits(), 7);

    assert_eq!(PropertyValueTypeFlags::any().bits(), -1);
    assert_eq!(PropertyValueTypeFlags::container().bits(), 16);
    assert_eq!(PropertyValueTypeFlags::enum_flag().bits(), 131_072);
}

#[test]
fn value_type_flags_combine_and_round_trip() {
    let mask = PropertyValueTypeFlags::number() | PropertyValueTypeFlags::string();
    assert_eq!(mask.bits(), 6);
    assert!(mask.contains(PropertyValueTypeFlags::number()));
    assert!(mask.contains(PropertyValueTypeFlags::string()));
    assert!(!mask.contains(PropertyValueTypeFlags::container()));
    assert_eq!(PropertyValueTypeFlags::from_bits_retain(mask.bits()), mask);

    let mut acc = PropertyValueTypeFlags::none();
    assert!(acc.is_empty());
    acc = acc | PropertyValueTypeFlags::container();
    assert_eq!(acc, PropertyValueTypeFlags::container());
    assert_eq!(
        acc & PropertyValueTypeFlags::container(),
        PropertyValueTypeFlags::container()
    );
}

#[test]
fn remaining_discriminants_match_tlb_ground_truth() {
    assert_eq!(StepGroup::Setup.bits(), 0);
    assert_eq!(StepGroup::Main.bits(), 1);
    assert_eq!(StepGroup::Cleanup.bits(), 2);

    assert_eq!(ExecRunState::Running.bits(), 1);
    assert_eq!(ExecTermState::Normal.bits(), 1);

    assert_eq!(SearchDirectoryType::ExplicitDir.bits(), 15);
    assert_eq!(
        SearchDirectoryType::try_from(15),
        Ok(SearchDirectoryType::ExplicitDir)
    );

    assert_eq!(OpenWorkspaceFileOptions::NoOptions.bits(), 0);
    assert_eq!(OpenWorkspaceFileOptions::UseSearchDirectories.bits(), 4);

    assert_eq!(SaveWorkspaceFileOptions::NoOptions.bits(), 0);
    assert_eq!(SaveWorkspaceFileOptions::SkipReadOnlyFiles.bits(), 4);
}

#[test]
fn step_groups_run_in_order_and_round_trip() {
    assert_eq!(
        StepGroup::ALL,
        [StepGroup::Setup, StepGroup::Main, StepGroup::Cleanup]
    );
    for group in StepGroup::ALL {
        assert_eq!(StepGroup::from_bits(group.bits()), Ok(group));
    }
    assert_eq!(StepGroup::from_bits(3), Err(3));
    assert_eq!(StepGroup::from_bits(-1), Err(-1));
}

#[test]
fn search_directory_types_skip_ten() {
    // The type library has no value 10; it must not decode to a neighbour.
    assert_eq!(SearchDirectoryType::try_from(10), Err(10));
    assert_eq!(
        SearchDirectoryType::try_from(9),
        Ok(SearchDirectoryType::CurrentSequenceFileDir)
    );
    assert_eq!(
        SearchDirectoryType::try_from(11),
        Ok(SearchDirectoryType::UserComponentsDir)
    );
    assert_eq!(SearchDirectoryType::try_from(0), Err(0));
    assert_eq!(SearchDirectoryType::try_from(17), Err(17));
}

#[test]
fn value_types_decode_from_the_engine_numbering() {
    for raw in 0..=7 {
        assert_eq!(PropValType::from_bits(raw).map(PropValType::bits), Ok(raw));
    }
    assert_eq!(PropValType::from_bits(6), Ok(PropValType::Array));
    assert_eq!(PropValType::from_bits(8), Err(8));
}

#[test]
fn the_remaining_state_numbers_are_exact() {
    assert_eq!(ExecRunState::Paused.bits(), 2);
    assert_eq!(ExecRunState::Stopped.bits(), 3);
    assert_eq!(ExecTermState::KillingThreads.bits(), 5);
    assert_eq!(SaveWorkspaceFileOptions::SkipWorkspaceFile.bits(), 2);
    assert_eq!(OpenWorkspaceFileOptions::SearchCurrentDirectory.bits(), 2);
}
