use congen::{ChangeVerb, Configuration, CongenChange, Description, OptionChange, VecChange, VerbError};

#[test]
fn option_change_unwrap() {
    assert_eq!(OptionChange::Apply(Some(4u32)).unwrap(), Some(4));
}

#[test]
fn option_apply() {
    let mut v: Option<u32> = None;
    Configuration::apply_change(&mut v, OptionChange::Apply(Some(5)));
    assert_eq!(v, Some(5));
    Configuration::apply_change(&mut v, OptionChange::Apply(Some(6)));
    assert_eq!(v, Some(6));
    Configuration::apply_change(&mut v, OptionChange::NoChange);
    assert_eq!(v, Some(6));
    Configuration::apply_change(&mut v, OptionChange::Unset);
    assert_eq!(v, None);
}

#[test]
fn option_default_used_when_inner_change_does_not_unwrap() {
    let mut v: Option<Option<u32>> = None;
    v.apply_change_with_default(OptionChange::Apply(OptionChange::Apply(Some(3))), Some(Some(None)));
    assert_eq!(v, Some(Some(3)));
}

#[test]
fn option_change_merge() {
    let mut c: OptionChange<Option<u32>> = CongenChange::empty();
    assert!(matches!(c, OptionChange::NoChange));
    c.apply_change(OptionChange::Apply(Some(1)));
    c.apply_change(OptionChange::NoChange);
    assert!(matches!(c, OptionChange::Apply(Some(1))));
    c.apply_change(OptionChange::Unset);
    assert!(matches!(c, OptionChange::Unset));
}

#[test]
fn option_of_field_from_path() {
    let f = |path: &[&str], verb| <OptionChange<Option<u32>> as CongenChange>::from_path_and_verb(path, verb);
    assert!(matches!(f(&[], ChangeVerb::SetValue("42".to_string())), Ok(OptionChange::Apply(Some(42)))));
    assert!(matches!(f(&[], ChangeVerb::Unset), Ok(OptionChange::Unset)));
    assert!(matches!(f(&[], ChangeVerb::UseDefault), Ok(OptionChange::Unset)));
    assert!(matches!(f(&[], ChangeVerb::SetFlag), Err(VerbError::UnsupportedVerb(ChangeVerb::SetFlag))));
    assert!(matches!(f(&["x"], ChangeVerb::Unset), Err(VerbError::InvalidPath)));
    assert!(matches!(f(&[], ChangeVerb::SetValue("x".to_string())), Err(VerbError::ParseError(_))));
}

#[test]
fn option_parses_like_inner() {
    assert!(matches!(<OptionChange<Option<u32>> as CongenChange>::parse("9"), Ok(Ok(OptionChange::Apply(Some(9))))));
    assert!(matches!(<OptionChange<Option<u32>> as CongenChange>::parse("z"), Ok(Err(_))));
}

#[test]
fn option_description_and_label() {
    let Description::Field(f) = <Option<u32>>::description("e") else { panic!() };
    assert_eq!(f.field_name, "e");
    assert_eq!(f.type_label, "u32?");
    assert!(f.allow_unset);
    assert!(!f.is_flag);
    let Description::Field(f) = <Option<bool>>::description("flag") else { panic!() };
    assert!(!f.is_flag);
    assert_eq!(<Option<Option<String>>>::type_label(), "alloc::string::String??");
    assert_eq!(<Option<u32> as Configuration>::default().unwrap(), None);
}

#[test]
fn option_merge_keeps_both_inner_changes() {
    let mut merged: OptionChange<VecChange<Option<u32>>> = OptionChange::Apply(VecChange::Append(Some(1)));
    merged.apply_change(OptionChange::Apply(VecChange::Append(Some(2))));
    let mut once: Option<Vec<u32>> = Some(vec![]);
    Configuration::apply_change(&mut once, merged);
    let mut twice: Option<Vec<u32>> = Some(vec![]);
    Configuration::apply_change(&mut twice, OptionChange::Apply(VecChange::Append(Some(1))));
    Configuration::apply_change(&mut twice, OptionChange::Apply(VecChange::Append(Some(2))));
    assert_eq!(once, Some(vec![1, 2]));
    assert_eq!(once, twice);
}

#[test]
fn set_value_builds_the_setting_change() {
    assert!(matches!(<Option<u32> as CongenChange>::set_value(3), Ok(Some(3))));
    assert!(matches!(<OptionChange<Option<u32>> as CongenChange>::set_value(Some(3)), Ok(OptionChange::Apply(Some(3)))));
    assert!(matches!(<OptionChange<Option<u32>> as CongenChange>::set_value(None), Ok(OptionChange::Unset)));
    assert!(<VecChange<Option<u32>> as CongenChange>::set_value(vec![1]).is_err());
    let mut v: Option<u32> = Some(1);
    Configuration::apply_change(&mut v, <OptionChange<Option<u32>> as CongenChange>::set_value(None).unwrap());
    assert_eq!(v, None);
}
