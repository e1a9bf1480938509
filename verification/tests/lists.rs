use congen::{ChangeVerb, Configuration, CongenChange, Description, ListKey, ListVerb, VecChange, VerbError};

#[test]
fn vec_apply_each_change() {
    let mut v = vec![1u32, 2, 3];
    v.apply_change(VecChange::Append(Some(10)));
    assert_eq!(v, vec![1, 2, 3, 10]);
    v.apply_change(VecChange::Update(1, Some(20)));
    assert_eq!(v, vec![1, 20, 3, 10]);
    v.apply_change(VecChange::Remove(0));
    assert_eq!(v, vec![20, 3, 10]);
    v.apply_change(VecChange::NoChange);
    assert_eq!(v, vec![20, 3, 10]);
    v.apply_change(VecChange::Empty);
    assert!(v.is_empty());
}

#[test]
fn vec_apply_many_in_order() {
    let mut v = vec![1u32];
    v.apply_change(VecChange::ApplyMany(vec![VecChange::Append(Some(2)), VecChange::Remove(0), VecChange::Append(Some(3))]));
    assert_eq!(v, vec![2, 3]);
}

#[test]
fn vec_change_merge_queues() {
    let mut c: VecChange<Option<u32>> = CongenChange::empty();
    c.apply_change(VecChange::Append(Some(1)));
    assert!(matches!(c, VecChange::Append(Some(1))));
    c.apply_change(VecChange::Append(Some(2)));
    c.apply_change(VecChange::Remove(0));
    match &c {
        VecChange::ApplyMany(changes) => assert_eq!(changes.len(), 3),
        other => panic!("{other:?}"),
    }
    c.apply_change(VecChange::NoChange);
    assert!(matches!(&c, VecChange::ApplyMany(changes) if changes.len() == 3));
    c.apply_change(VecChange::Empty);
    assert!(matches!(c, VecChange::Empty));
}

#[test]
fn vec_merge_law_on_example() {
    let start = vec![5u32, 6];
    let mut merged: VecChange<Option<u32>> = VecChange::Append(Some(7));
    merged.apply_change(VecChange::Update(0, Some(1)));
    let mut one = start.clone();
    one.apply_change(merged);
    let mut two = start.clone();
    two.apply_change(VecChange::Append(Some(7)));
    two.apply_change(VecChange::Update(0, Some(1)));
    assert_eq!(one, two);
    assert_eq!(one, vec![1, 6, 7]);
}

#[test]
fn vec_append_uses_default_prototype() {
    let mut v: Vec<Option<u32>> = vec![];
    v.apply_change_with_default(
        VecChange::ApplyMany(vec![
            VecChange::Append(congen::OptionChange::Apply(Some(4))),
            VecChange::Append(congen::OptionChange::Unset),
        ]),
        Some(vec![Some(9)]),
    );
    assert_eq!(v, vec![Some(4), None]);
}

#[test]
fn vec_from_list_verbs() {
    let f = |verb| <VecChange<Option<u32>> as CongenChange>::from_path_and_verb(&[], ChangeVerb::List(verb));
    assert!(matches!(f(ListVerb::Append { new_value: "10".to_string() }), Ok(VecChange::Append(Some(10)))));
    assert!(matches!(
        f(ListVerb::Update { key: ListKey::Int(1), updated_value: "10".to_string() }),
        Ok(VecChange::Update(1, Some(10)))
    ));
    assert!(matches!(f(ListVerb::Remove { key: ListKey::Int(2) }), Ok(VecChange::Remove(2))));
    assert!(matches!(f(ListVerb::Empty), Ok(VecChange::Empty)));
    assert!(matches!(f(ListVerb::Remove { key: ListKey::Name("a".to_string()) }), Err(VerbError::WrongKeyType)));
    assert!(matches!(
        f(ListVerb::Update { key: ListKey::Name("a".to_string()), updated_value: "1".to_string() }),
        Err(VerbError::WrongKeyType)
    ));
    assert!(matches!(f(ListVerb::Append { new_value: "x".to_string() }), Err(VerbError::ParseError(_))));
    let other = <VecChange<Option<u32>> as CongenChange>::from_path_and_verb(&[], ChangeVerb::UseDefault);
    assert!(matches!(other, Err(VerbError::UnsupportedVerb(ChangeVerb::UseDefault))));
}

#[test]
fn vec_description_and_label() {
    let Description::List(l) = <Vec<u32>>::description("field_list") else { panic!() };
    assert_eq!(l.field_name, "field_list");
    assert_eq!(l.type_label, "List<u32>");
    assert!(l.key_is_int);
    assert!(!l.has_default);
    let Description::Field(inner) = *l.inner_desc else { panic!() };
    assert_eq!(inner.field_name, "");
    assert_eq!(<Vec<u32> as Configuration>::default().unwrap(), Vec::<u32>::new());
}
