use vstd::prelude::*;

use crate::config::{path_view, Configuration, CongenChange};
use crate::description::{actionable_model, actionable_of, has_actionable_path, ActionableField, Description, DescriptionKind};
use crate::error::VerbError;
use crate::text::{join_path, joined, parts_without, split_path, str_eq, to_uppercase, uppercase_of};
use crate::verb::{ChangeVerb, ListKey, ListVerb};

verus! {

/// What a command line gave for the `value` argument of a verb.
#[derive(Debug)]
pub enum ValueArg {
    /// A value was given.
    Given(String),
    /// The argument exists but no value was given.
    Missing,
    /// The verb has no such argument (a flag is set without a value).
    NotDefined,
    /// The argument could not be read.
    Invalid,
}

/// What a command line gave for the `key` argument of a list verb.
#[derive(Debug)]
pub enum KeyArg {
    /// A key was given.
    Given(ListKey),
    /// No key was given.
    Missing,
}

/// Why a command line could not be turned into a change.
#[derive(Debug)]
pub enum ArgsError {
    /// No field, or no verb, was named.
    MissingSubcommand,
    /// The named field path is not one that a change can address.
    InvalidPath,
    /// A verb that needs a value or key was given none.
    TooFewValues,
    /// A value could not be read.
    InvalidValue,
    /// The verb is not one of those known.
    InvalidSubcommand,
    /// The change could not be built from the path and the verb.
    Change(VerbError),
}

/// The verb that the verb subcommand `verb_name` with the arguments `value` and `key` stands for.
pub open spec fn spec_verb_from_args(verb_name: Seq<char>, value: ValueArg, key: KeyArg) -> Result<ChangeVerb, ArgsError> {
    if verb_name == "set"@ {
        match value {
            ValueArg::Given(v) => Ok(ChangeVerb::SetValue(v)),
            ValueArg::NotDefined => Ok(ChangeVerb::SetFlag),
            ValueArg::Missing => Err(ArgsError::TooFewValues),
            ValueArg::Invalid => Err(ArgsError::InvalidValue),
        }
    } else if verb_name == "unset"@ {
        Ok(ChangeVerb::Unset)
    } else if verb_name == "use-default"@ {
        Ok(ChangeVerb::UseDefault)
    } else if verb_name == "append"@ {
        match value {
            ValueArg::Given(v) => Ok(ChangeVerb::List(ListVerb::Append { new_value: v })),
            ValueArg::Invalid => Err(ArgsError::InvalidValue),
            _ => Err(ArgsError::TooFewValues),
        }
    } else if verb_name == "update"@ {
        match (key, value) {
            (KeyArg::Given(k), ValueArg::Given(v)) => Ok(ChangeVerb::List(ListVerb::Update { key: k, updated_value: v })),
            (_, ValueArg::Invalid) => Err(ArgsError::InvalidValue),
            _ => Err(ArgsError::TooFewValues),
        }
    } else if verb_name == "remove"@ {
        match key {
            KeyArg::Given(k) => Ok(ChangeVerb::List(ListVerb::Remove { key: k })),
            KeyArg::Missing => Err(ArgsError::TooFewValues),
        }
    } else if verb_name == "empty"@ {
        Ok(ChangeVerb::List(ListVerb::Empty))
    } else {
        Err(ArgsError::InvalidSubcommand)
    }
}

/// Decodes a verb subcommand: `set` with a value sets it, `set` on a flag (which has no value
/// argument) enables it; `unset`, `use-default`; and the list verbs `append`, `update`,
/// `remove`, `empty`.
pub fn verb_from_args(verb_name: &str, value: ValueArg, key: KeyArg) -> (r: Result<ChangeVerb, ArgsError>)
    ensures
        r == spec_verb_from_args(verb_name@, value, key),
{
    proof {
        reveal_strlit("set");
        reveal_strlit("unset");
        reveal_strlit("use-default");
        reveal_strlit("append");
        reveal_strlit("update");
        reveal_strlit("remove");
        reveal_strlit("empty");
    }
    if str_eq(verb_name, "set") {
        match value {
            ValueArg::Given(v) => Ok(ChangeVerb::SetValue(v)),
            ValueArg::NotDefined => Ok(ChangeVerb::SetFlag),
            ValueArg::Missing => Err(ArgsError::TooFewValues),
            ValueArg::Invalid => Err(ArgsError::InvalidValue),
        }
    } else if str_eq(verb_name, "unset") {
        Ok(ChangeVerb::Unset)
    } else if str_eq(verb_name, "use-default") {
        Ok(ChangeVerb::UseDefault)
    } else if str_eq(verb_name, "append") {
        match value {
            ValueArg::Given(v) => Ok(ChangeVerb::List(ListVerb::Append { new_value: v })),
            ValueArg::Invalid => Err(ArgsError::InvalidValue),
            _ => Err(ArgsError::TooFewValues),
        }
    } else if str_eq(verb_name, "update") {
        match (key, value) {
            (KeyArg::Given(k), ValueArg::Given(v)) => Ok(ChangeVerb::List(ListVerb::Update { key: k, updated_value: v })),
            (_, ValueArg::Invalid) => Err(ArgsError::InvalidValue),
            _ => Err(ArgsError::TooFewValues),
        }
    } else if str_eq(verb_name, "remove") {
        match key {
            KeyArg::Given(k) => Ok(ChangeVerb::List(ListVerb::Remove { key: k })),
            KeyArg::Missing => Err(ArgsError::TooFewValues),
        }
    } else if str_eq(verb_name, "empty") {
        Ok(ChangeVerb::List(ListVerb::Empty))
    } else {
        Err(ArgsError::InvalidSubcommand)
    }
}

/// `path` is how `split_path` cuts `field_name`.
pub open spec fn is_split_of(path: Seq<Seq<char>>, field_name: Seq<char>) -> bool {
    path.len() >= 1 && joined(path, '.') == field_name && parts_without(path, '.')
}

/// Whether updating with `verb` returns normally for a configuration described by `d`: every
/// path that addresses an actionable field admits the verb.
pub open spec fn update_defined<C: CongenChange>(d: Description, verb: ChangeVerb) -> bool {
    forall|p: Seq<Seq<char>>| #[trigger] has_actionable_path(d, p) ==> C::spec_from_path_defined(p, verb)
}

/// What updating the change `before` by the field path `path` and `verb` against the
/// description `d` gives: `r` and the change afterwards.
pub open spec fn update_outcome<C: CongenChange>(
    d: Description,
    path: Seq<Seq<char>>,
    verb: ChangeVerb,
    before: C,
    after: C,
    r: Result<(), ArgsError>,
) -> bool {
    if !has_actionable_path(d, path) {
        r == Err::<(), ArgsError>(ArgsError::InvalidPath) && after == before
    } else {
        match r {
            Ok(()) => exists|c: C| #[trigger] C::spec_from_path(path, verb, Ok(c)) && before.spec_merged(c, after),
            Err(ArgsError::Change(e)) => C::spec_from_path(path, verb, Err(e)) && after == before,
            _ => false,
        }
    }
}

/// Collects the change that a command line asks for, for the configuration `T`.
pub struct CongenClap<T: Configuration> {
    pub change: T::CongenChange,
}

impl<T: Configuration> CongenClap<T> {
    /// A collector that holds the empty change.
    pub fn new() -> (r: Self)
        ensures
            r.change == <T::CongenChange as CongenChange>::spec_empty(),
    {
        CongenClap { change: <T::CongenChange as CongenChange>::empty() }
    }

    /// Provides the collected change.
    pub fn into_change(self) -> (r: T::CongenChange)
        ensures
            r == self.change,
    {
        self.change
    }

    /// Applies the change that `verb` makes at the dotted field path `field_name`, where
    /// `description` describes `T`. The path must address an actionable field.
    pub fn update_with(&mut self, description: &Description, field_name: &str, verb: ChangeVerb) -> (r: Result<(), ArgsError>)
        requires
            !(*description is List),
            update_defined::<T::CongenChange>(*description, verb),
        ensures
            forall|p: Seq<Seq<char>>| #[trigger] is_split_of(p, field_name@) ==>
                update_outcome::<T::CongenChange>(*description, p, verb, old(self).change, final(self).change, r),
    {
        let path = split_path(field_name);
        let ghost want = path_view(path@);
        proof {
            lemma_split_unique(want, field_name@);
        }
        if description.actionable_field(path.as_slice()).is_none() {
            return Err(ArgsError::InvalidPath);
        }
        assert(has_actionable_path(*description, want));
        match <T::CongenChange as CongenChange>::from_path_and_verb(path.as_slice(), verb) {
            Ok(change) => {
                let ghost before = self.change;
                self.change.apply_change(change);
                assert(<T::CongenChange as CongenChange>::spec_from_path(want, verb, Ok(change)));
                Ok(())
            },
            Err(e) => Err(ArgsError::Change(e)),
        }
    }

    /// Applies the change that `verb` makes at the dotted field path `field_name` of `T`.
    pub fn update(&mut self, field_name: &str, verb: ChangeVerb) -> (r: Result<(), ArgsError>)
        requires
            T::spec_describable(),
            T::spec_kind() != DescriptionKind::List,
            forall|d: Description| #[trigger] T::spec_describes("", d) ==> update_defined::<T::CongenChange>(d, verb),
        ensures
            exists|d: Description| #[trigger] T::spec_describes("", d) && forall|p: Seq<Seq<char>>| #[trigger] is_split_of(p, field_name@) ==>
                update_outcome::<T::CongenChange>(d, p, verb, old(self).change, final(self).change, r),
    {
        let description = T::description("");
        let r = self.update_with(&description, field_name, verb);
        assert(T::spec_describes("", description));
        r
    }
}

/// An argument of a verb subcommand.
#[derive(Debug)]
pub struct ArgSpec {
    /// The name the argument is known by.
    pub id: &'static str,
    /// The name shown for its value.
    pub value_name: String,
    /// Whether it must be given.
    pub required: bool,
    /// Whether its values are read as non-negative integers.
    pub usize_values: bool,
}

/// A verb subcommand of a field, such as `set`.
#[derive(Debug)]
pub struct VerbCommand {
    pub name: &'static str,
    pub args: Vec<ArgSpec>,
}

/// The subcommand for one actionable field: its dotted path and its verbs.
#[derive(Debug)]
pub struct FieldCommand {
    pub name: String,
    pub subcommand_required: bool,
    pub verbs: Vec<VerbCommand>,
}

/// The model of an argument: its id, value name, whether required, whether integer.
pub open spec fn arg_model(a: ArgSpec) -> (Seq<char>, Seq<char>, bool, bool) {
    (a.id@, a.value_name@, a.required, a.usize_values)
}

/// The model of a verb subcommand: its name and its arguments.
pub open spec fn verb_model(v: VerbCommand) -> (Seq<char>, Seq<(Seq<char>, Seq<char>, bool, bool)>) {
    (v.name@, v.args@.map_values(|a: ArgSpec| arg_model(a)))
}

/// The model of a field subcommand.
pub open spec fn field_command_model(f: FieldCommand) -> (Seq<char>, bool, Seq<(Seq<char>, Seq<(Seq<char>, Seq<char>, bool, bool)>)>) {
    (f.name@, f.subcommand_required, f.verbs@.map_values(|v: VerbCommand| verb_model(v)))
}

/// The `value` argument for values of a type labelled `label`: named by the label in capitals.
pub open spec fn value_arg_model(label: Seq<char>, required: bool) -> (Seq<char>, Seq<char>, bool, bool) {
    ("value"@, uppercase_of(label), required, false)
}

/// The `key` argument of list verbs.
pub open spec fn key_arg_model(required: bool, key_is_int: bool) -> (Seq<char>, Seq<char>, bool, bool) {
    ("key"@, "AT"@, required, key_is_int)
}

/// Whether commands can be made for `d`: each list among its actionable fields holds simple
/// fields.
pub open spec fn commands_defined(d: Description) -> bool {
    forall|i: int| 0 <= i < actionable_of(d).len() ==> ((#[trigger] actionable_of(d)[i]).0 matches Description::List(l) ==> *l.inner_desc is Field)
}

/// The verbs of the subcommand for the actionable field `d`: `set` for a simple field (with a
/// value unless it is a flag); `empty`, `remove`, `append` and `update` for a list; then
/// `use-default` where it has a default, and `unset` where it can be unset. Arguments are
/// required unless the command line is for an update.
pub open spec fn field_verbs(d: Description, for_update: bool) -> Seq<(Seq<char>, Seq<(Seq<char>, Seq<char>, bool, bool)>)> {
    let required = !for_update;
    let base = match d {
        Description::Field(f) => seq![("set"@, if f.is_flag { Seq::empty() } else { seq![value_arg_model(f.type_label@, required)] })],
        Description::List(l) => {
            let key = key_arg_model(required, l.key_is_int);
            let value = value_arg_model((*l.inner_desc)->Field_0.type_label@, required);
            seq![("empty"@, Seq::empty()), ("remove"@, seq![key]), ("append"@, seq![value]), ("update"@, seq![key, value])]
        },
        Description::Composit(_) => Seq::empty(),
    };
    base + (if d.spec_has_default() { seq![("use-default"@, Seq::empty())] } else { Seq::empty() }) + (if d.spec_allow_unset() {
        seq![("unset"@, Seq::empty())]
    } else {
        Seq::empty()
    })
}

fn value_arg(label: &String, required: bool) -> (r: ArgSpec)
    ensures
        arg_model(r) == value_arg_model(label@, required),
{
    ArgSpec { id: "value", value_name: to_uppercase(label.as_str()), required, usize_values: false }
}

fn key_arg(required: bool, key_is_int: bool) -> (r: ArgSpec)
    ensures
        arg_model(r) == key_arg_model(required, key_is_int),
{
    ArgSpec { id: "key", value_name: "AT".to_owned(), required, usize_values: key_is_int }
}

fn verb(name: &'static str, args: Vec<ArgSpec>) -> (r: VerbCommand)
    ensures
        verb_model(r) == (name@, args@.map_values(|a: ArgSpec| arg_model(a))),
{
    VerbCommand { name, args }
}

fn no_args() -> (r: Vec<ArgSpec>)
    ensures
        r@.map_values(|a: ArgSpec| arg_model(a)) == Seq::<(Seq<char>, Seq<char>, bool, bool)>::empty(),
{
    let r = Vec::new();
    assert(r@.map_values(|a: ArgSpec| arg_model(a)) =~= Seq::<(Seq<char>, Seq<char>, bool, bool)>::empty());
    r
}

fn one_arg(a: ArgSpec) -> (r: Vec<ArgSpec>)
    ensures
        r@.map_values(|a: ArgSpec| arg_model(a)) == seq![arg_model(a)],
{
    let ghost m = arg_model(a);
    let mut r = Vec::new();
    r.push(a);
    assert(r@.map_values(|a: ArgSpec| arg_model(a)) =~= seq![m]);
    r
}

fn two_args(a: ArgSpec, b: ArgSpec) -> (r: Vec<ArgSpec>)
    ensures
        r@.map_values(|a: ArgSpec| arg_model(a)) == seq![arg_model(a), arg_model(b)],
{
    let ghost ma = arg_model(a);
    let ghost mb = arg_model(b);
    let mut r = Vec::new();
    r.push(a);
    r.push(b);
    assert(r@.map_values(|a: ArgSpec| arg_model(a)) =~= seq![ma, mb]);
    r
}

fn push_verb(verbs: &mut Vec<VerbCommand>, v: VerbCommand)
    ensures
        final(verbs)@.map_values(|v: VerbCommand| verb_model(v)) == old(verbs)@.map_values(|v: VerbCommand| verb_model(v)).push(verb_model(v)),
{
    let ghost m = verb_model(v);
    verbs.push(v);
    assert(verbs@.map_values(|v: VerbCommand| verb_model(v)) =~= old(verbs)@.map_values(|v: VerbCommand| verb_model(v)).push(m));
}

/// The verb subcommands for the actionable field `d`.
pub fn verb_commands(d: &Description, for_update: bool) -> (r: Vec<VerbCommand>)
    requires
        *d matches Description::List(l) ==> *l.inner_desc is Field,
    ensures
        r@.map_values(|v: VerbCommand| verb_model(v)) == field_verbs(*d, for_update),
{
    let required = !for_update;
    let mut verbs: Vec<VerbCommand> = Vec::new();
    assert(verbs@.map_values(|v: VerbCommand| verb_model(v)) =~= Seq::<(Seq<char>, Seq<(Seq<char>, Seq<char>, bool, bool)>)>::empty());
    match d {
        Description::Field(f) => {
            let args = if f.is_flag {
                no_args()
            } else {
                one_arg(value_arg(&f.type_label, required))
            };
            push_verb(&mut verbs, verb("set", args));
        },
        Description::List(l) => {
            let inner = match &*l.inner_desc {
                Description::Field(inner) => inner,
                _ => vstd::pervasive::unreached(),
            };
            push_verb(&mut verbs, verb("empty", no_args()));
            push_verb(&mut verbs, verb("remove", one_arg(key_arg(required, l.key_is_int))));
            push_verb(&mut verbs, verb("append", one_arg(value_arg(&inner.type_label, required))));
            push_verb(
                &mut verbs,
                verb("update", two_args(key_arg(required, l.key_is_int), value_arg(&inner.type_label, required))),
            );
        },
        Description::Composit(_) => {},
    }
    let ghost base = verbs@.map_values(|v: VerbCommand| verb_model(v));
    assert(base =~= match *d {
        Description::Field(f) => seq![("set"@, if f.is_flag { Seq::empty() } else { seq![value_arg_model(f.type_label@, required)] })],
        Description::List(l) => {
            let key = key_arg_model(required, l.key_is_int);
            let value = value_arg_model((*l.inner_desc)->Field_0.type_label@, required);
            seq![("empty"@, Seq::empty()), ("remove"@, seq![key]), ("append"@, seq![value]), ("update"@, seq![key, value])]
        },
        Description::Composit(_) => Seq::empty(),
    });
    if d.has_default() {
        push_verb(&mut verbs, verb("use-default", no_args()));
    }
    let ghost with_default = verbs@.map_values(|v: VerbCommand| verb_model(v));
    assert(with_default =~= base + (if d.spec_has_default() { seq![("use-default"@, Seq::empty())] } else { Seq::empty() }));
    if d.allow_unset() {
        push_verb(&mut verbs, verb("unset", no_args()));
    }
    assert(verbs@.map_values(|v: VerbCommand| verb_model(v)) =~= field_verbs(*d, for_update));
    verbs
}

/// The subcommands that a command line for a configuration described by `description` offers:
/// one for each actionable field, named by its dotted path, with its verbs.
pub fn field_commands(description: &Description, for_update: bool) -> (r: Vec<FieldCommand>)
    requires
        !(*description is List),
        commands_defined(*description),
    ensures
        r@.len() == actionable_of(*description).len(),
        forall|i: int| 0 <= i < r@.len() ==> field_command_model(#[trigger] r@[i]) == (
            joined(path_view(actionable_of(*description)[i].1), '.'),
            !for_update,
            field_verbs(actionable_of(*description)[i].0, for_update),
        ),
{
    let actionable = description.actionable_fields();
    let ghost all = actionable_of(*description);
    let mut r: Vec<FieldCommand> = Vec::new();
    let mut i: usize = 0;
    while i < actionable.len()
        invariant
            actionable@.map_values(|a: ActionableField<'_>| actionable_model(a)) == all,
            all == actionable_of(*description),
            commands_defined(*description),
            i <= all.len(),
            r@.len() == i,
            forall|j: int| 0 <= j < i ==> field_command_model(#[trigger] r@[j]) == (
                joined(path_view(all[j].1), '.'),
                !for_update,
                field_verbs(all[j].0, for_update),
            ),
        decreases all.len() - i,
    {
        let field = &actionable[i];
        assert(actionable_model(*field) == all[i as int]);
        assert(all[i as int].0 matches Description::List(l) ==> *l.inner_desc is Field);
        let name = join_path(&field.path);
        let verbs = verb_commands(field.description, for_update);
        r.push(FieldCommand { name, subcommand_required: !for_update, verbs });
        i += 1;
    }
    r
}

/// A text has just one way of being cut into parts without `.` that join to it.
pub proof fn lemma_split_unique(p: Seq<Seq<char>>, s: Seq<char>)
    ensures
        forall|q: Seq<Seq<char>>| is_split_of(p, s) && #[trigger] is_split_of(q, s) ==> p == q,
{
    assert forall|q: Seq<Seq<char>>| is_split_of(p, s) && #[trigger] is_split_of(q, s) implies p == q by {
        crate::text::lemma_split_is_canonical(p, s);
        crate::text::lemma_split_is_canonical(q, s);
    }
}

} // verus!
