use rs_teststand::{
    ArrayFunction, NumericFunction, OtherFunction, PropertyFunction, StringFunction,
    SwitchingFunction, TimeFunction,
};

#[test]
fn array_every_name_is_distinct() {
    let mut names: Vec<&str> = ArrayFunction::ALL.iter().map(|f| f.name()).collect();
    names.sort_unstable();
    let count = names.len();
    names.dedup();
    assert_eq!(names.len(), count);
}

#[test]
fn numeric_every_name_is_distinct() {
    let mut names: Vec<&str> = NumericFunction::ALL.iter().map(|f| f.name()).collect();
    names.sort_unstable();
    let count = names.len();
    names.dedup();
    assert_eq!(names.len(), count);
}

#[test]
fn other_function_every_name_is_distinct() {
    let mut names: Vec<&str> = OtherFunction::ALL.iter().map(|f| f.name()).collect();
    names.sort_unstable();
    let count = names.len();
    names.dedup();
    assert_eq!(names.len(), count);
}

#[test]
fn property_every_name_is_distinct() {
    let mut names: Vec<&str> = PropertyFunction::ALL.iter().map(|f| f.name()).collect();
    names.sort_unstable();
    let count = names.len();
    names.dedup();
    assert_eq!(names.len(), count);
}

#[test]
fn string_every_name_is_distinct() {
    let mut names: Vec<&str> = StringFunction::ALL.iter().map(|f| f.name()).collect();
    names.sort_unstable();
    let count = names.len();
    names.dedup();
    assert_eq!(names.len(), count);
}

#[test]
fn switching_every_name_is_distinct() {
    let mut names: Vec<&str> = SwitchingFunction::ALL.iter().map(|f| f.name()).collect();
    names.sort_unstable();
    let count = names.len();
    names.dedup();
    assert_eq!(names.len(), count);
}

#[test]
fn time_every_name_is_distinct() {
    let mut names: Vec<&str> = TimeFunction::ALL.iter().map(|f| f.name()).collect();
    names.sort_unstable();
    let count = names.len();
    names.dedup();
    assert_eq!(names.len(), count);
}

#[test]
fn function_names_are_spelled_as_the_engine_writes_them() {
    assert_eq!(OtherFunction::Rgb.name(), "RGB");
    assert_eq!(NumericFunction::ACos.name(), "ACos");
    assert_eq!(StringFunction::SearchPatternAndReplace.name(), "SearchPatternAndReplace");
    assert_eq!(ArrayFunction::GetNumElements.name(), "GetNumElements");
    assert_eq!(PropertyFunction::PropertyExists.name(), "PropertyExists");
    assert_eq!(TimeFunction::Seconds.name(), "Seconds");
    assert!(SwitchingFunction::ALL.iter().all(|f| f.name().starts_with("Switch")));
    assert_eq!(StringFunction::ALL.len(), 24);
    assert_eq!(NumericFunction::ALL.len(), 21);
}
