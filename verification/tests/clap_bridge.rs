use congen::clap_bridge::{field_commands, verb_from_args, ArgsError, KeyArg, ValueArg};
use congen::text::{join_path, split_path};
use congen::{ChangeVerb, Configuration, CongenChange, CongenClap, ListKey, ListVerb, OptionChange};

#[test]
fn verbs_from_arguments() {
    assert!(matches!(
        verb_from_args("set", ValueArg::Given("1".to_string()), KeyArg::Missing),
        Ok(ChangeVerb::SetValue(v)) if v == "1"
    ));
    assert!(matches!(verb_from_args("set", ValueArg::NotDefined, KeyArg::Missing), Ok(ChangeVerb::SetFlag)));
    assert!(matches!(verb_from_args("set", ValueArg::Missing, KeyArg::Missing), Err(ArgsError::TooFewValues)));
    assert!(matches!(verb_from_args("set", ValueArg::Invalid, KeyArg::Missing), Err(ArgsError::InvalidValue)));
    assert!(matches!(verb_from_args("unset", ValueArg::NotDefined, KeyArg::Missing), Ok(ChangeVerb::Unset)));
    assert!(matches!(verb_from_args("use-default", ValueArg::NotDefined, KeyArg::Missing), Ok(ChangeVerb::UseDefault)));
    assert!(matches!(
        verb_from_args("update", ValueArg::Given("3".to_string()), KeyArg::Given(ListKey::Int(1))),
        Ok(ChangeVerb::List(ListVerb::Update { key: ListKey::Int(1), .. }))
    ));
    assert!(matches!(verb_from_args("remove", ValueArg::NotDefined, KeyArg::Missing), Err(ArgsError::TooFewValues)));
    assert!(matches!(verb_from_args("empty", ValueArg::NotDefined, KeyArg::Missing), Ok(ChangeVerb::List(ListVerb::Empty))));
    assert!(matches!(verb_from_args("frobnicate", ValueArg::NotDefined, KeyArg::Missing), Err(ArgsError::InvalidSubcommand)));
}

#[test]
fn commands_for_a_field_and_a_list() {
    let commands = field_commands(&<Option<u32>>::description(""), false);
    assert_eq!(commands.len(), 1);
    assert_eq!(commands[0].name, "");
    assert!(commands[0].subcommand_required);
    let names: Vec<&str> = commands[0].verbs.iter().map(|v| v.name).collect();
    assert_eq!(names, vec!["set", "unset"]);
    let set = &commands[0].verbs[0];
    assert_eq!(set.args.len(), 1);
    assert_eq!(set.args[0].id, "value");
    assert_eq!(set.args[0].value_name, "U32?");
    assert!(set.args[0].required);

    let flag = field_commands(&bool::description(""), true);
    assert!(!flag[0].subcommand_required);
    assert!(flag[0].verbs[0].args.is_empty());
}

#[test]
fn split_and_join_paths() {
    assert_eq!(split_path("sub.d"), vec!["sub", "d"]);
    assert_eq!(split_path("a"), vec!["a"]);
    assert_eq!(split_path(""), vec![""]);
    assert_eq!(split_path("a..b."), vec!["a", "", "b", ""]);
    assert_eq!(join_path(&vec!["sub", "d"]), "sub.d");
    assert_eq!(join_path(&split_path("x.y.z")), "x.y.z");
}

#[test]
fn clap_collects_changes() {
    let mut clap = CongenClap::<Option<u32>>::new();
    assert!(matches!(clap.change, OptionChange::NoChange));
    let r = clap.update("x", ChangeVerb::Unset);
    assert!(matches!(r, Err(ArgsError::InvalidPath)));
    let change = clap.into_change();
    let mut v = Some(1u32);
    Configuration::apply_change(&mut v, change);
    assert_eq!(v, Some(1));
    let empty: OptionChange<Option<u32>> = CongenChange::empty();
    assert!(matches!(empty, OptionChange::NoChange));
}
