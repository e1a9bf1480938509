//! A configuration written by hand the way the derive writes it, driven the way a command
//! line drives it.

use congen::clap_bridge::{field_commands, verb_from_args, KeyArg, ValueArg};
use congen::composite::{composite_description, default_error, route, Route};
use congen::{
    ChangeVerb, Configuration, CongenChange, CongenClap, Description, ListKey, NotSupported, OptionChange, ParseError,
    VecChange, VerbError,
};

#[derive(Debug, Clone, PartialEq)]
struct SubConfig {
    d: u32,
    e: Option<u32>,
}

#[derive(Debug)]
struct SubConfigChange {
    d: Option<u32>,
    e: OptionChange<Option<u32>>,
}

fn unexpected(err: VerbError) -> NotSupported {
    match default_error(err) {
        Ok(n) => n,
        Err(e) => panic!("unexpected error while creating default CongenChange: {e:?}"),
    }
}

impl Configuration for SubConfig {
    type CongenChange = SubConfigChange;
    type Model = ();

    fn apply_change_with_default(&mut self, change: SubConfigChange, _default: Option<Self>) {
        self.d.apply_change_with_default(change.d, Some(5));
        let e_default = <u32 as Configuration>::default()
            .map(Some)
            .or_else(|_| <Option<u32> as Configuration>::default())
            .expect("field is marked as \"use_default\", but `default` is not implemented");
        self.e.apply_change_with_default(change.e, Some(e_default));
    }

    fn description(field_name: &'static str) -> Description {
        let fields = vec![u32::description("d").with_default(), <Option<u32>>::description("e").with_default()];
        composite_description(field_name, Self::type_label(), fields, true)
    }

    fn default() -> Result<Self, NotSupported> {
        Ok(SubConfig { d: 5, e: <Option<u32> as Configuration>::default()? })
    }

    fn duplicate(&self) -> Self {
        self.clone()
    }

    fn type_label() -> String {
        "SubConfig".to_string()
    }
}

impl CongenChange for SubConfigChange {
    type Configuration = SubConfig;

    fn empty() -> Self {
        SubConfigChange { d: CongenChange::empty(), e: CongenChange::empty() }
    }

    fn default() -> Result<Self, NotSupported> {
        let mut default = Self::empty();
        for name in ["d", "e"] {
            let change = Self::from_path_and_verb(&[name], ChangeVerb::UseDefault).map_err(unexpected)?;
            default.apply_change(change);
        }
        Ok(default)
    }

    fn set_value(_value: SubConfig) -> Result<Self, NotSupported> {
        Err(NotSupported)
    }

    fn parse(_input: &str) -> Result<Result<Self, ParseError>, NotSupported> {
        Err(NotSupported)
    }

    fn unwrap_field(self) -> Result<SubConfig, Self> {
        Err(self)
    }

    fn apply_change(&mut self, change: Self) {
        CongenChange::apply_change(&mut self.d, change.d);
        CongenChange::apply_change(&mut self.e, change.e);
    }

    fn from_path_and_verb(path: &[&str], verb: ChangeVerb) -> Result<Self, VerbError> {
        let mut change = Self::empty();
        match route(&["d", "e"], &[true, false], path, verb)? {
            Route::DefaultExpression { .. } => {
                let value: u32 = 5;
                CongenChange::apply_change(&mut change.d, <Option<u32>>::set_value(value)?);
            }
            Route::Field { index: 0, verb } => {
                CongenChange::apply_change(&mut change.d, <Option<u32>>::from_path_and_verb(&path[1..], verb)?);
            }
            Route::Field { verb, .. } => {
                CongenChange::apply_change(&mut change.e, <OptionChange<Option<u32>>>::from_path_and_verb(&path[1..], verb)?);
            }
            Route::UseDefault => return Ok(<Self as CongenChange>::default()?),
        }
        Ok(change)
    }
}

#[derive(Debug)]
struct Config {
    a: u32,
    b: Option<String>,
    b2: String,
    c: bool,
    sub: SubConfig,
    opt: Option<SubConfig>,
}

#[derive(Debug)]
struct ConfigChange {
    a: Option<u32>,
    b: OptionChange<Option<String>>,
    b2: Option<String>,
    c: Option<bool>,
    sub: SubConfigChange,
    opt: OptionChange<SubConfigChange>,
}

impl Configuration for Config {
    type CongenChange = ConfigChange;
    type Model = ();

    fn apply_change_with_default(&mut self, change: ConfigChange, _default: Option<Self>) {
        self.a.apply_change_with_default(change.a, None);
        self.b.apply_change_with_default(change.b, Some(<Option<String> as Configuration>::default().unwrap()));
        self.b2.apply_change_with_default(change.b2, None);
        self.c.apply_change_with_default(change.c, None);
        self.sub.apply_change_with_default(change.sub, Some(<SubConfig as Configuration>::default().unwrap()));
        self.opt.apply_change_with_default(change.opt, Some(<SubConfig as Configuration>::default().ok()));
    }

    fn description(field_name: &'static str) -> Description {
        let fields = vec![
            u32::description("a"),
            <Option<String>>::description("b").with_default(),
            String::description("b2"),
            bool::description("c"),
            SubConfig::description("sub").with_default(),
            <Option<SubConfig>>::description("opt").with_default(),
        ];
        composite_description(field_name, Self::type_label(), fields, false)
    }

    fn default() -> Result<Self, NotSupported> {
        Err(NotSupported)
    }

    fn duplicate(&self) -> Self {
        Config {
            a: self.a,
            b: self.b.clone(),
            b2: self.b2.clone(),
            c: self.c,
            sub: self.sub.clone(),
            opt: self.opt.clone(),
        }
    }

    fn type_label() -> String {
        "Config".to_string()
    }
}

impl CongenChange for ConfigChange {
    type Configuration = Config;

    fn empty() -> Self {
        ConfigChange {
            a: CongenChange::empty(),
            b: CongenChange::empty(),
            b2: CongenChange::empty(),
            c: CongenChange::empty(),
            sub: CongenChange::empty(),
            opt: CongenChange::empty(),
        }
    }

    fn default() -> Result<Self, NotSupported> {
        let mut default = Self::empty();
        for name in ["a", "b", "b2", "c", "sub", "opt"] {
            let change = Self::from_path_and_verb(&[name], ChangeVerb::UseDefault).map_err(unexpected)?;
            default.apply_change(change);
        }
        Ok(default)
    }

    fn set_value(_value: Config) -> Result<Self, NotSupported> {
        Err(NotSupported)
    }

    fn parse(_input: &str) -> Result<Result<Self, ParseError>, NotSupported> {
        Err(NotSupported)
    }

    fn unwrap_field(self) -> Result<Config, Self> {
        Err(self)
    }

    fn apply_change(&mut self, change: Self) {
        CongenChange::apply_change(&mut self.a, change.a);
        CongenChange::apply_change(&mut self.b, change.b);
        CongenChange::apply_change(&mut self.b2, change.b2);
        CongenChange::apply_change(&mut self.c, change.c);
        CongenChange::apply_change(&mut self.sub, change.sub);
        CongenChange::apply_change(&mut self.opt, change.opt);
    }

    fn from_path_and_verb(path: &[&str], verb: ChangeVerb) -> Result<Self, VerbError> {
        let mut change = Self::empty();
        let Route::Field { index, verb } = route(&["a", "b", "b2", "c", "sub", "opt"], &[false; 6], path, verb)? else {
            return Ok(<Self as CongenChange>::default()?);
        };
        let rest = &path[1..];
        match index {
            0 => CongenChange::apply_change(&mut change.a, <Option<u32>>::from_path_and_verb(rest, verb)?),
            1 => CongenChange::apply_change(&mut change.b, <OptionChange<Option<String>>>::from_path_and_verb(rest, verb)?),
            2 => CongenChange::apply_change(&mut change.b2, <Option<String>>::from_path_and_verb(rest, verb)?),
            3 => CongenChange::apply_change(&mut change.c, <Option<bool>>::from_path_and_verb(rest, verb)?),
            4 => CongenChange::apply_change(&mut change.sub, SubConfigChange::from_path_and_verb(rest, verb)?),
            _ => CongenChange::apply_change(&mut change.opt, <OptionChange<SubConfigChange>>::from_path_and_verb(rest, verb)?),
        }
        Ok(change)
    }
}

/// Builds the change that the command line `args` (after the command's own name) asks for.
fn change_for<T: Configuration>(args: &[&str]) -> T::CongenChange {
    let commands = field_commands(&T::description(""), false);
    let field = commands.iter().find(|c| c.name == args[0]).expect("known field");
    let verb_cmd = field.verbs.iter().find(|v| v.name == args[1]).expect("known verb");
    let mut rest = args[2..].iter();
    let key = if verb_cmd.args.iter().any(|a| a.id == "key") {
        let k = rest.next().expect("key given");
        KeyArg::Given(ListKey::Int(k.parse().expect("integer key")))
    } else {
        KeyArg::Missing
    };
    let value = if verb_cmd.args.iter().any(|a| a.id == "value") {
        match rest.next() {
            Some(v) => ValueArg::Given(v.to_string()),
            None => ValueArg::Missing,
        }
    } else {
        ValueArg::NotDefined
    };
    let verb = verb_from_args(args[1], value, key).expect("decodes the verb");
    let mut clap = CongenClap::<T>::new();
    clap.update(args[0], verb).expect("Failed to create change for path");
    clap.into_change()
}

fn base_config() -> Config {
    Config {
        a: 1,
        b: Some("foo".to_string()),
        b2: "test".to_string(),
        c: false,
        sub: SubConfig { d: 2, e: None },
        opt: None,
    }
}

fn apply_change(config: &mut Config, args: &[&str]) {
    let change = change_for::<Config>(&args[1..]);
    config.apply_change(change);
}

#[test]
fn config_a_set() {
    let mut config = base_config();
    apply_change(&mut config, &["config", "a", "set", "10"]);
    assert_eq!(config.a, 10);
}

#[test]
fn config_b_use_default() {
    let mut config = base_config();
    apply_change(&mut config, &["config", "b", "use-default"]);
    assert!(config.b.is_none());
}

#[test]
fn config_b_set() {
    let mut config = base_config();
    config.b = Some("shake".to_string());
    apply_change(&mut config, &["config", "b", "set", "foo"]);
    assert_eq!(config.b, Some("foo".to_string()));
}

#[test]
fn config_b_unset() {
    let mut config = base_config();
    apply_change(&mut config, &["config", "b", "unset"]);
    assert!(config.b.is_none());
}

#[test]
fn config_b2_set() {
    let mut config = base_config();
    apply_change(&mut config, &["config", "b2", "set", "foo"]);
    assert_eq!(config.b2, "foo");
}

#[test]
fn config_c_set() {
    let mut config = base_config();
    apply_change(&mut config, &["config", "c", "set"]);
    assert!(config.c);
}

#[test]
fn config_c_unset() {
    let mut config = base_config();
    config.c = true;
    apply_change(&mut config, &["config", "c", "unset"]);
    assert!(!config.c);
}

#[test]
fn config_sub_d_set() {
    let mut config = base_config();
    apply_change(&mut config, &["config", "sub.d", "set", "5"]);
    assert_eq!(config.sub.d, 5);
}

#[test]
fn config_sub_e_set() {
    let mut config = base_config();
    apply_change(&mut config, &["config", "sub.e", "set", "42"]);
    assert_eq!(config.sub.e, Some(42));
}

#[test]
fn config_opt_e_use_default() {
    let mut config = base_config();
    apply_change(&mut config, &["config", "opt.e", "use-default"]);
    let opt = config.opt.as_ref().expect("opt created");
    assert_eq!(opt.d, 5);
    assert!(opt.e.is_none());
}

#[test]
fn config_opt_d_set() {
    let mut config = base_config();
    apply_change(&mut config, &["config", "opt.d", "set", "2"]);
    let opt = config.opt.as_ref().expect("opt created");
    assert_eq!(opt.d, 2);
    assert!(opt.e.is_none());
}

#[test]
fn config_opt_d_use_default() {
    let mut config = base_config();
    config.opt = Some(SubConfig { d: 99, e: Some(1) });
    apply_change(&mut config, &["config", "opt.d", "use-default"]);
    let opt = config.opt.as_ref().expect("opt still present");
    assert_eq!(opt.d, 5);
    assert_eq!(opt.e, Some(1));
}

#[test]
fn config_opt_unset() {
    let mut config = base_config();
    config.opt = Some(SubConfig { d: 99, e: None });
    apply_change(&mut config, &["config", "opt", "unset"]);
    assert!(config.opt.is_none());
}

#[test]
fn config_opt_use_default() {
    let mut config = base_config();
    config.opt = Some(SubConfig { d: 99, e: Some(2) });
    apply_change(&mut config, &["config", "opt", "use-default"]);
    let opt = config.opt.as_ref().expect("opt reset");
    assert_eq!(opt.d, 5);
    assert!(opt.e.is_none());
}

#[test]
fn config_sub_use_default() {
    let mut config = base_config();
    config.sub = SubConfig { d: 99, e: Some(3) };
    apply_change(&mut config, &["config", "sub", "use-default"]);
    assert_eq!(config.sub.d, 5);
    assert!(config.sub.e.is_none());
}

#[test]
fn config_unknown_path_is_refused() {
    let mut clap = CongenClap::<Config>::new();
    let r = clap.update("sub.x", ChangeVerb::UseDefault);
    assert!(matches!(r, Err(congen::clap_bridge::ArgsError::InvalidPath)));
    let r = clap.update("a", ChangeVerb::UseDefault);
    assert!(matches!(r, Err(congen::clap_bridge::ArgsError::Change(VerbError::UnsupportedVerb(_)))));
}

#[derive(Debug)]
struct ListConfig {
    field: u32,
    field_list: Vec<u32>,
}

#[derive(Debug)]
struct ListConfigChange {
    field: Option<u32>,
    field_list: VecChange<Option<u32>>,
}

impl Configuration for ListConfig {
    type CongenChange = ListConfigChange;
    type Model = ();

    fn apply_change_with_default(&mut self, change: ListConfigChange, _default: Option<Self>) {
        self.field.apply_change_with_default(change.field, None);
        checked_list_change(&self.field_list, &change.field_list);
        self.field_list.apply_change_with_default(change.field_list, None);
    }

    fn description(field_name: &'static str) -> Description {
        composite_description(field_name, Self::type_label(), vec![u32::description("field"), <Vec<u32>>::description("field_list")], false)
    }

    fn default() -> Result<Self, NotSupported> {
        Err(NotSupported)
    }

    fn duplicate(&self) -> Self {
        ListConfig { field: self.field, field_list: self.field_list.clone() }
    }

    fn type_label() -> String {
        "ListConfig".to_string()
    }
}

/// Fails as a list does when a change addresses an index beyond its end.
fn checked_list_change(list: &Vec<u32>, change: &VecChange<Option<u32>>) {
    if let VecChange::Update(index, _) | VecChange::Remove(index) = change {
        assert!(
            *index < list.len(),
            "User specified index {index} is to large. List is 0 indexed with a lenght of {}",
            list.len()
        );
    }
}

impl CongenChange for ListConfigChange {
    type Configuration = ListConfig;

    fn empty() -> Self {
        ListConfigChange { field: CongenChange::empty(), field_list: CongenChange::empty() }
    }

    fn default() -> Result<Self, NotSupported> {
        Err(NotSupported)
    }

    fn set_value(_value: ListConfig) -> Result<Self, NotSupported> {
        Err(NotSupported)
    }

    fn parse(_input: &str) -> Result<Result<Self, ParseError>, NotSupported> {
        Err(NotSupported)
    }

    fn unwrap_field(self) -> Result<ListConfig, Self> {
        Err(self)
    }

    fn apply_change(&mut self, change: Self) {
        CongenChange::apply_change(&mut self.field, change.field);
        CongenChange::apply_change(&mut self.field_list, change.field_list);
    }

    fn from_path_and_verb(path: &[&str], verb: ChangeVerb) -> Result<Self, VerbError> {
        let mut change = Self::empty();
        match route(&["field", "field_list"], &[false, false], path, verb)? {
            Route::Field { index: 0, verb } => {
                CongenChange::apply_change(&mut change.field, <Option<u32>>::from_path_and_verb(&path[1..], verb)?)
            }
            Route::Field { verb, .. } => CongenChange::apply_change(
                &mut change.field_list,
                <VecChange<Option<u32>>>::from_path_and_verb(&path[1..], verb)?,
            ),
            Route::UseDefault | Route::DefaultExpression { .. } => return Ok(<Self as CongenChange>::default()?),
        }
        Ok(change)
    }
}

fn list_config() -> ListConfig {
    ListConfig { field: 67, field_list: vec![1, 2, 3] }
}

fn apply_list_change(config: &mut ListConfig, args: &[&str]) {
    let change = change_for::<ListConfig>(&args[1..]);
    config.apply_change(change);
}

#[test]
fn config_field_list_append() {
    let mut config = list_config();
    apply_list_change(&mut config, &["config", "field_list", "append", "10"]);
    assert_eq!(config.field_list, vec![1, 2, 3, 10]);
}

#[test]
fn config_field_list_update_valid_key() {
    let mut config = list_config();
    apply_list_change(&mut config, &["config", "field_list", "update", "1", "10"]);
    assert_eq!(config.field_list, vec![1, 10, 3]);
}

#[test]
fn config_field_list_remove_valid_key() {
    let mut config = list_config();
    apply_list_change(&mut config, &["config", "field_list", "remove", "1"]);
    assert_eq!(config.field_list, vec![1, 3]);
}

#[test]
fn config_field_list_empty() {
    let mut config = list_config();
    apply_list_change(&mut config, &["config", "field_list", "empty"]);
    assert!(config.field_list.is_empty());
}

#[test]
fn config_field_set_still_works_beside_a_list() {
    let mut config = list_config();
    apply_list_change(&mut config, &["config", "field", "set", "3"]);
    assert_eq!(config.field, 3);
    assert_eq!(config.field_list, vec![1, 2, 3]);
}

