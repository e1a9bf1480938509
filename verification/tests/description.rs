use congen::description::{same_path, CompositDescription};
use congen::{Configuration, Description, FieldDescription, ListDescription, ValueHint};

fn field(name: &'static str, has_default: bool, allow_unset: bool) -> Description {
    Description::Field(FieldDescription {
        field_name: name,
        type_label: "u32".to_string(),
        is_flag: false,
        allow_unset,
        has_default,
        cmd_value_hint: ValueHint::Other,
    })
}

fn composite(name: &'static str, fields: Vec<Description>, has_default: bool, allow_unset: bool) -> Description {
    Description::Composit(CompositDescription {
        field_name: name,
        type_label: "S".to_string(),
        fields,
        has_default,
        allow_unset,
    })
}

fn sample() -> Description {
    composite(
        "",
        vec![
            field("a", false, false),
            composite("sub", vec![field("d", true, false), field("e", true, true)], true, false),
            composite("plain", vec![field("x", false, false)], false, false),
            Description::List(ListDescription {
                field_name: "items",
                type_label: "List<u32>".to_string(),
                inner_desc: Box::new(field("", false, false)),
                has_default: false,
                key_is_int: true,
            }),
        ],
        false,
        false,
    )
}

#[test]
fn with_default_sets_only_has_default() {
    let d = field("a", false, true).with_default();
    assert!(d.has_default());
    assert!(d.allow_unset());
    assert_eq!(d.name(), "a");
    let l = <Vec<u32>>::description("l").with_default();
    assert!(l.has_default());
    assert!(!l.allow_unset());
}

#[test]
fn path_validity() {
    let d = sample();
    assert!(d.is_path_valid(&["a"]));
    assert!(d.is_path_valid(&["sub", "d"]));
    assert!(d.is_path_valid(&["items"]));
    assert!(d.is_path_valid(&["sub"]));
    assert!(d.is_path_valid(&[]));
    assert!(!d.is_path_valid(&["sub", "zzz"]));
    assert!(!d.is_path_valid(&["a", "b"]));
    assert!(!d.is_path_valid(&["zzz"]));
    assert!(field("a", false, false).is_path_valid(&[]));
}

#[test]
fn field_lookup_finds_the_first() {
    let Description::Composit(c) = composite("", vec![field("a", false, false), field("a", true, false)], false, false) else {
        panic!()
    };
    assert!(!c.field("a").unwrap().has_default());
    assert!(c.field("b").is_none());
    assert!(!c.is_actionable());
}

#[test]
fn actionable_fields_in_order() {
    let d = sample();
    let paths: Vec<Vec<&str>> = d.actionable_fields().into_iter().map(|a| a.path).collect();
    assert_eq!(paths, vec![vec!["a"], vec!["sub", "d"], vec!["sub", "e"], vec!["sub"], vec!["plain", "x"], vec!["items"]]);
    let top = field("f", false, false);
    let own = top.actionable_fields();
    assert_eq!(own.len(), 1);
    assert!(own[0].path.is_empty());
}

#[test]
fn actionable_field_by_path() {
    let d = sample();
    let found = d.actionable_field(&["sub", "e"]).expect("present");
    assert_eq!(found.description.name(), "e");
    assert!(d.actionable_field(&["plain"]).is_none());
    assert!(d.actionable_field(&["sub"]).is_some());
}

#[test]
fn same_path_compares_segments() {
    assert!(same_path(&vec!["a", "b"], &["a", "b"]));
    assert!(!same_path(&vec!["a", "b"], &["a"]));
    assert!(!same_path(&vec!["a", "b"], &["a", "c"]));
}

#[test]
fn description_from_parts() {
    let d: Description = FieldDescription {
        field_name: "x",
        type_label: "u32".to_string(),
        is_flag: true,
        allow_unset: false,
        has_default: false,
        cmd_value_hint: ValueHint::Unknown,
    }
    .into();
    assert!(matches!(d, Description::Field(_)));
    assert_eq!(d.kind(), congen::description::DescriptionKind::Field);
}
