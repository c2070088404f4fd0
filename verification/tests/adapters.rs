use rs_teststand::AdapterKeyName;

#[test]
fn every_key_round_trips() {
    for adapter in [
        AdapterKeyName::NoneAdapter,
        AdapterKeyName::LabViewStdPrototype,
        AdapterKeyName::LabView,
        AdapterKeyName::LabViewNxg,
        AdapterKeyName::CviStdPrototype,
        AdapterKeyName::Cvi,
        AdapterKeyName::DllFlex,
        AdapterKeyName::Sequence,
        AdapterKeyName::Automation,
        AdapterKeyName::DotNet,
        AdapterKeyName::Python,
        AdapterKeyName::HtBasic,
    ] {
        assert_eq!(AdapterKeyName::from_key(adapter.as_str()), Some(adapter));
    }
}

#[test]
fn an_unrecognised_key_is_reported_rather_than_guessed() {
    assert_eq!(AdapterKeyName::from_key("Some Future Adapter"), None);
    assert_eq!(AdapterKeyName::from_key(""), None);
}

#[test]
fn the_obsolete_keys_point_at_their_replacements() {
    assert_eq!(
        AdapterKeyName::LabViewStdPrototype.replacement(),
        Some(AdapterKeyName::LabView)
    );
    assert_eq!(
        AdapterKeyName::CviStdPrototype.replacement(),
        Some(AdapterKeyName::Cvi)
    );
    assert!(AdapterKeyName::LabViewStdPrototype.is_obsolete());
    assert!(AdapterKeyName::CviStdPrototype.is_obsolete());

    for current in [
        AdapterKeyName::LabView,
        AdapterKeyName::Cvi,
        AdapterKeyName::LabViewNxg,
        AdapterKeyName::DllFlex,
        AdapterKeyName::NoneAdapter,
    ] {
        assert!(!current.is_obsolete(), "{current:?} is not obsolete");
        assert_eq!(current.replacement(), None);
    }
}

#[test]
fn the_maintained_labview_adapter_is_the_flexible_one() {
    assert_eq!(AdapterKeyName::LabView.as_str(), "G Flexible VI Adapter");
    assert_eq!(
        AdapterKeyName::LabViewStdPrototype.as_str(),
        "G Std Prototype Adapter"
    );
    assert_ne!(AdapterKeyName::LabViewNxg, AdapterKeyName::LabView);
}

#[test]
fn keys_are_distinct() {
    let keys = [
        AdapterKeyName::NoneAdapter.as_str(),
        AdapterKeyName::LabViewStdPrototype.as_str(),
        AdapterKeyName::LabView.as_str(),
        AdapterKeyName::LabViewNxg.as_str(),
        AdapterKeyName::CviStdPrototype.as_str(),
        AdapterKeyName::Cvi.as_str(),
        AdapterKeyName::DllFlex.as_str(),
        AdapterKeyName::Sequence.as_str(),
        AdapterKeyName::Automation.as_str(),
        AdapterKeyName::DotNet.as_str(),
        AdapterKeyName::Python.as_str(),
        AdapterKeyName::HtBasic.as_str(),
    ];
    let mut sorted = keys.to_vec();
    sorted.sort_unstable();
    sorted.dedup();
    assert_eq!(sorted.len(), keys.len());
}

#[test]
fn the_documented_key_strings_are_exact() {
    assert_eq!(AdapterKeyName::NoneAdapter.as_str(), "None Adapter");
    assert_eq!(AdapterKeyName::Cvi.as_str(), "C/CVI Flexible Prototype Adapter");
    assert_eq!(AdapterKeyName::DotNet.as_str(), "DotNet Adapter");
    assert_eq!(
        AdapterKeyName::from_key("Sequence Adapter"),
        Some(AdapterKeyName::Sequence)
    );
    // A key differing only in case or by surrounding space is not recognised.
    assert_eq!(AdapterKeyName::from_key("sequence adapter"), None);
    assert_eq!(AdapterKeyName::from_key(" Sequence Adapter"), None);
    assert_eq!(AdapterKeyName::from_key("Sequence Adapter2"), None);
}
