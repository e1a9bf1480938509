use congen::{ChangeVerb, Configuration, CongenChange, Description, ListVerb, NotSupported, ValueHint, VerbError};

#[test]
fn u32_parses_decimal_numbers() {
    assert!(matches!(<Option<u32> as CongenChange>::parse("10"), Ok(Ok(Some(10)))));
    assert!(matches!(<Option<u32> as CongenChange>::parse("+7"), Ok(Ok(Some(7)))));
    assert!(matches!(<Option<u32> as CongenChange>::parse("0042"), Ok(Ok(Some(42)))));
    assert!(matches!(<Option<u32> as CongenChange>::parse("4294967295"), Ok(Ok(Some(4294967295)))));
}

#[test]
fn u32_refuses_other_text() {
    for input in ["", "abc", "-1", "+", " 1", "4294967296", "1.5"] {
        match <Option<u32> as CongenChange>::parse(input) {
            Ok(Err(e)) => assert!(!e.0.is_empty()),
            other => panic!("{input:?} gave {other:?}"),
        }
    }
}

#[test]
fn bool_parses_exactly_true_and_false() {
    assert!(matches!(<Option<bool> as CongenChange>::parse("true"), Ok(Ok(Some(true)))));
    assert!(matches!(<Option<bool> as CongenChange>::parse("false"), Ok(Ok(Some(false)))));
    assert!(matches!(<Option<bool> as CongenChange>::parse("True"), Ok(Err(_))));
    assert!(matches!(<Option<bool> as CongenChange>::parse("1"), Ok(Err(_))));
}

#[test]
fn string_parses_anything() {
    match <Option<String> as CongenChange>::parse("hello world") {
        Ok(Ok(Some(s))) => assert_eq!(s, "hello world"),
        other => panic!("{other:?}"),
    }
}

#[test]
fn u32_set_and_unsupported_verbs() {
    let c = <Option<u32> as CongenChange>::from_path_and_verb(&[], ChangeVerb::SetValue("10".to_string()));
    assert!(matches!(c, Ok(Some(10))));
    let c = <Option<u32> as CongenChange>::from_path_and_verb(&[], ChangeVerb::SetValue("x".to_string()));
    assert!(matches!(c, Err(VerbError::ParseError(_))));
    for verb in [ChangeVerb::SetFlag, ChangeVerb::Unset, ChangeVerb::UseDefault, ChangeVerb::List(ListVerb::Empty)] {
        let c = <Option<u32> as CongenChange>::from_path_and_verb(&[], verb);
        assert!(matches!(c, Err(VerbError::UnsupportedVerb(_))));
    }
}

#[test]
fn bool_verbs() {
    let f = |verb| <Option<bool> as CongenChange>::from_path_and_verb(&[], verb);
    assert!(matches!(f(ChangeVerb::SetFlag), Ok(Some(true))));
    assert!(matches!(f(ChangeVerb::Unset), Ok(Some(false))));
    assert!(matches!(f(ChangeVerb::UseDefault), Ok(Some(false))));
    assert!(matches!(f(ChangeVerb::SetValue("true".to_string())), Ok(Some(true))));
    assert!(matches!(f(ChangeVerb::SetValue("nope".to_string())), Err(VerbError::ParseError(_))));
    assert!(matches!(f(ChangeVerb::List(ListVerb::Empty)), Err(VerbError::UnsupportedVerb(_))));
}

#[test]
fn string_verbs() {
    let c = <Option<String> as CongenChange>::from_path_and_verb(&[], ChangeVerb::SetValue("foo".to_string()));
    assert_eq!(c.unwrap(), Some("foo".to_string()));
    let c = <Option<String> as CongenChange>::from_path_and_verb(&[], ChangeVerb::UseDefault);
    assert!(matches!(c, Err(VerbError::UnsupportedVerb(ChangeVerb::UseDefault))));
}

#[test]
fn primitive_apply_and_merge() {
    let mut a = 1u32;
    a.apply_change(Some(10));
    assert_eq!(a, 10);
    a.apply_change(None);
    assert_eq!(a, 10);

    let mut s = "test".to_string();
    s.apply_change(Some("foo".to_string()));
    assert_eq!(s, "foo");

    let mut b = false;
    b.apply_change(Some(true));
    assert!(b);

    let mut change: Option<u32> = CongenChange::empty();
    CongenChange::apply_change(&mut change, Some(3));
    CongenChange::apply_change(&mut change, None);
    assert_eq!(change, Some(3));
    CongenChange::apply_change(&mut change, Some(4));
    assert_eq!(change, Some(4));
}

#[test]
fn merge_law_on_numbers() {
    let a = Some(3u32);
    let b = None;
    let mut merged = a;
    CongenChange::apply_change(&mut merged, b);
    let mut one = 1u32;
    one.apply_change(merged);
    let mut two = 1u32;
    two.apply_change(a);
    two.apply_change(b);
    assert_eq!(one, two);
    assert_eq!(one, 3);
}

#[test]
fn primitive_descriptions() {
    let Description::Field(f) = u32::description("a") else { panic!() };
    assert_eq!(f.field_name, "a");
    assert_eq!(f.type_label, "u32");
    assert!(!f.is_flag && !f.allow_unset && !f.has_default);
    assert_eq!(f.cmd_value_hint, ValueHint::Other);

    let Description::Field(f) = bool::description("c") else { panic!() };
    assert_eq!(f.type_label, "bool");
    assert!(f.is_flag && f.allow_unset && !f.has_default);
    assert_eq!(f.cmd_value_hint, ValueHint::Unknown);

    let Description::Field(f) = String::description("b2") else { panic!() };
    assert_eq!(f.type_label, "alloc::string::String");
    assert!(!f.is_flag && !f.allow_unset);
    assert_eq!(f.cmd_value_hint, ValueHint::Unknown);
}

#[test]
fn primitive_defaults() {
    assert_eq!(<bool as Configuration>::default().unwrap(), false);
    assert!(matches!(<u32 as Configuration>::default(), Err(NotSupported)));
    assert!(matches!(<String as Configuration>::default(), Err(NotSupported)));
    assert!(matches!(<Option<u32> as CongenChange>::default(), Err(NotSupported)));
}

#[test]
fn primitive_unwrap_field() {
    assert_eq!(CongenChange::unwrap_field(Some(5u32)).unwrap(), 5);
    assert_eq!(CongenChange::unwrap_field(Some("x".to_string())).unwrap(), "x");
}
