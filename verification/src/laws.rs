use vstd::prelude::*;

use crate::config::{Configuration, CongenChange};
use crate::description::{Description, DescriptionKind};
use crate::error::{NotSupported, ParseError, VerbError};
use crate::option::option_form;
use crate::verb::ChangeVerb;
use crate::lists::{vec_step, vec_step_defined, vec_steps, vec_steps_defined, VecChange};
use crate::option::OptionChange;
use crate::clap_bridge::{commands_defined, field_verbs, is_split_of, key_arg_model, update_outcome, value_arg_model};
use crate::description::{is_first_named, actionable_children, actionable_of, has_actionable_path, prefixed, CompositDescription, ListDescription};
use crate::derive_plan::{spec_option_type, GenericArgumentKind, OptionTypeError, PathArguments, TypeModel};
use crate::text::{joined, parts_without};
use crate::value_enum::{ValueEnumChange, ValueEnumConfiguration};

verus! {

/// Applying the merge of `a` and `b` to a number is applying `a` and then `b`.
pub proof fn law_u32_merge(m: u32, a: Option<u32>, b: Option<u32>, merged: Option<u32>, default: Option<u32>)
    requires
        a.spec_merged(b, merged),
    ensures
        u32::spec_apply(m, merged, default) == u32::spec_apply(u32::spec_apply(m, a, default), b, default),
{
}

/// Applying the merge of `a` and `b` to a flag is applying `a` and then `b`.
pub proof fn law_bool_merge(m: bool, a: Option<bool>, b: Option<bool>, merged: Option<bool>, default: Option<bool>)
    requires
        a.spec_merged(b, merged),
    ensures
        bool::spec_apply(m, merged, default) == bool::spec_apply(bool::spec_apply(m, a, default), b, default),
{
}

/// Applying the merge of `a` and `b` to a string is applying `a` and then `b`.
pub proof fn law_string_merge(
    m: Seq<char>,
    a: Option<String>,
    b: Option<String>,
    merged: Option<String>,
    default: Option<Seq<char>>,
)
    requires
        a.spec_merged(b, merged),
    ensures
        String::spec_apply(m, merged, default) == String::spec_apply(String::spec_apply(m, a, default), b, default),
{
}

/// Applying the merge of `a` and `b` to a value enum is applying `a` and then `b`.
pub proof fn law_value_enum_merge<T: ValueEnumConfiguration>(
    m: T,
    a: ValueEnumChange<T>,
    b: ValueEnumChange<T>,
    merged: ValueEnumChange<T>,
    default: Option<T>,
)
    requires
        a.spec_merged(b, merged),
    ensures
        T::spec_apply(m, merged, default) == T::spec_apply(T::spec_apply(m, a, default), b, default),
{
}

/// Applying the merge of `a` and `b` to a list is applying `a` and then `b`, with the same
/// default at hand; and the merge returns normally wherever the two steps do.
pub proof fn law_vec_merge<T: Configuration>(
    m: Seq<T::Model>,
    a: VecChange<T::CongenChange>,
    b: VecChange<T::CongenChange>,
    merged: VecChange<T::CongenChange>,
    default: Option<Seq<T::Model>>,
)
    requires
        crate::lists::vec_changes_merged(a, b, merged),
        vec_step_defined::<T>(m, a, default),
        vec_step_defined::<T>(vec_step::<T>(m, a, default), b, default),
    ensures
        vec_step_defined::<T>(m, merged, default),
        vec_step::<T>(m, merged, default) == vec_step::<T>(vec_step::<T>(m, a, default), b, default),
{
    match b {
        VecChange::NoChange => {},
        VecChange::Empty => {},
        _ => match a {
            VecChange::NoChange => {},
            VecChange::ApplyMany(changes) => {
                let all = merged->ApplyMany_0@;
                assert(all.drop_last() =~= changes@);
                assert(all.last() == b);
            },
            _ => {
                let all = merged->ApplyMany_0@;
                let first = seq![a];
                assert(all.drop_last() =~= first);
                assert(first.drop_last() =~= Seq::<VecChange<T::CongenChange>>::empty());
                assert(all.last() == b);
                assert(first.last() == a);
                assert(vec_steps::<T>(m, Seq::<VecChange<T::CongenChange>>::empty(), default) == m);
                assert(vec_steps_defined::<T>(m, Seq::<VecChange<T::CongenChange>>::empty(), default));
                assert(vec_steps::<T>(m, first, default) == vec_step::<T>(m, a, default));
                assert(vec_steps_defined::<T>(m, first, default));
            },
        },
    }
}

/// Whether `c` sets an optional value outright: it unwraps to a value, and applying it to any
/// value gives that value.
pub open spec fn sets_outright<T: Configuration>(c: T::CongenChange) -> bool {
    &&& c.spec_unwrap_defined()
    &&& c.spec_unwrap_field() is Ok
    &&& forall|x: T::Model| #[trigger] T::spec_apply_defined(x, c, None)
    &&& forall|x: T::Model| #[trigger] T::spec_apply(x, c, None) == c.spec_unwrap_field()->Ok_0.model()
}

/// Applying `z`, a merge of `x` and `y`, to any value is applying `x` and then `y`, wherever
/// those two steps return normally.
pub open spec fn merge_applies<T: Configuration>(x: T::CongenChange, y: T::CongenChange, z: T::CongenChange) -> bool {
    forall|t: T::Model|
        T::spec_apply_defined(t, x, None) && #[trigger] T::spec_apply_defined(T::spec_apply(t, x, None), y, None)
            ==> T::spec_apply_defined(t, z, None) && T::spec_apply(t, z, None) == T::spec_apply(
            T::spec_apply(t, x, None),
            y,
            None,
        )
}

/// Where nothing is there yet, `z`, a merge of `x` and `y`, makes the value that `x` makes
/// (by unwrapping, or from a default `d`) with `y` applied to it.
pub open spec fn merge_unwraps<T: Configuration>(x: T::CongenChange, y: T::CongenChange, z: T::CongenChange) -> bool {
    x.spec_unwrap_defined() ==> z.spec_unwrap_defined() && match x.spec_unwrap_field() {
        Ok(v) => T::spec_apply_defined(v.model(), y, None) ==> (z.spec_unwrap_field() matches Ok(w) && w.model()
            == T::spec_apply(v.model(), y, None)),
        Err(x2) => forall|d: T::Model|
            T::spec_apply_defined(d, x2, None) && #[trigger] T::spec_apply_defined(T::spec_apply(d, x2, None), y, None)
                ==> match z.spec_unwrap_field() {
                Ok(w) => w.model() == T::spec_apply(T::spec_apply(d, x2, None), y, None),
                Err(z2) => T::spec_apply_defined(d, z2, None) && T::spec_apply(d, z2, None) == T::spec_apply(
                    T::spec_apply(d, x2, None),
                    y,
                    None,
                ),
            },
    }
}

/// Whether the changes of `T` merge as the trait promises: every merge `z` of `x` and `y` both
/// applies and unwraps as `x` and then `y`.
pub open spec fn merges_in_order<T: Configuration>(x: T::CongenChange, y: T::CongenChange) -> bool {
    forall|z: T::CongenChange| #[trigger] x.spec_merged(y, z) ==> merge_applies::<T>(x, y, z) && merge_unwraps::<T>(x, y, z)
}

/// Applying the merge of `a` and `b` to an option is applying `a` and then `b`, wherever the two
/// steps return normally and the inner changes merge in order.
///
/// The one case left out: `a` unsets a value that is there and `b` applies an inner change that
/// does not set the value outright. The merge is then `b` alone, which changes the old value,
/// while the two steps apply `b` to nothing.
pub proof fn law_option_merge<T: Configuration>(
    m: Option<T::Model>,
    a: OptionChange<T::CongenChange>,
    b: OptionChange<T::CongenChange>,
    merged: OptionChange<T::CongenChange>,
    default: Option<Option<T::Model>>,
)
    requires
        a.spec_merged(b, merged),
        a matches OptionChange::Apply(x) ==> (b matches OptionChange::Apply(y) ==> merges_in_order::<T>(x, y)),
        a is Unset ==> (b matches OptionChange::Apply(y) ==> (m is None || sets_outright::<T>(y))),
        Option::<T>::spec_apply_defined(m, a, default),
        Option::<T>::spec_apply_defined(Option::<T>::spec_apply(m, a, default), b, default),
    ensures
        Option::<T>::spec_apply_defined(m, merged, default),
        Option::<T>::spec_apply(m, merged, default) == Option::<T>::spec_apply(
            Option::<T>::spec_apply(m, a, default),
            b,
            default,
        ),
{
    match (a, b) {
        (OptionChange::Apply(x), OptionChange::Apply(y)) => {
            let z = merged->Apply_0;
            assert(x.spec_merged(y, z));
            match m {
                Some(t) => {
                    assert(T::spec_apply_defined(T::spec_apply(t, x, None), y, None));
                },
                None => {
                    match x.spec_unwrap_field() {
                        Ok(v) => {},
                        Err(x2) => {
                            let d = default->0->0;
                            assert(T::spec_apply_defined(T::spec_apply(d, x2, None), y, None));
                        },
                    }
                },
            }
        },
        (OptionChange::Unset, OptionChange::Apply(c)) => {
            if let Some(t) = m {
                assert(T::spec_apply(t, c, None) == c.spec_unwrap_field()->Ok_0.model());
            }
        },
        _ => {},
    }
}

/// The changes of numbers merge in order, so options of numbers obey the merge law.
pub proof fn law_u32_merges_in_order(x: Option<u32>, y: Option<u32>)
    ensures
        merges_in_order::<u32>(x, y),
{
}

/// The changes of flags merge in order, so options of flags obey the merge law.
pub proof fn law_bool_merges_in_order(x: Option<bool>, y: Option<bool>)
    ensures
        merges_in_order::<bool>(x, y),
{
}

/// The changes of strings merge in order, so options of strings obey the merge law.
pub proof fn law_string_merges_in_order(x: Option<String>, y: Option<String>)
    ensures
        merges_in_order::<String>(x, y),
{
}

/// The changes of value enums merge in order, so options of value enums obey the merge law.
pub proof fn law_value_enum_merges_in_order<T: ValueEnumConfiguration>(x: ValueEnumChange<T>, y: ValueEnumChange<T>)
    ensures
        merges_in_order::<T>(x, y),
{
}

/// The changes of lists merge in order, so options of lists obey the merge law.
pub proof fn law_vec_merges_in_order<T: Configuration>(x: VecChange<T::CongenChange>, y: VecChange<T::CongenChange>)
    ensures
        merges_in_order::<Vec<T>>(x, y),
{
    assert forall|z: VecChange<T::CongenChange>| #[trigger] x.spec_merged(y, z) implies merge_applies::<Vec<T>>(x, y, z)
        && merge_unwraps::<Vec<T>>(x, y, z) by {
        assert forall|t: Seq<T::Model>|
            vec_step_defined::<T>(t, x, None) && #[trigger] vec_step_defined::<T>(vec_step::<T>(t, x, None), y, None)
            implies vec_step_defined::<T>(t, z, None) && vec_step::<T>(t, z, None) == vec_step::<T>(
            vec_step::<T>(t, x, None),
            y,
            None,
        ) by {
            law_vec_merge::<T>(t, x, y, z, None);
        }
        assert(merge_applies::<Vec<T>>(x, y, z));
        assert forall|d: Seq<T::Model>|
            vec_step_defined::<T>(d, x, None) && #[trigger] vec_step_defined::<T>(vec_step::<T>(d, x, None), y, None)
            implies vec_step_defined::<T>(d, z, None) && vec_step::<T>(d, z, None) == vec_step::<T>(
            vec_step::<T>(d, x, None),
            y,
            None,
        ) by {
            law_vec_merge::<T>(d, x, y, z, None);
        }
    }
}

/// `NoChange`, and `ApplyMany` of no changes, leave a list as it is; `ApplyMany` of some changes
/// and then one more applies the first ones and then that one (so it applies all its changes in
/// order), and returns normally exactly where those steps do.
pub proof fn law_vec_apply_many<T: Configuration>(
    m: Seq<T::Model>,
    first: Vec<VecChange<T::CongenChange>>,
    last: VecChange<T::CongenChange>,
    more: Vec<VecChange<T::CongenChange>>,
    default: Option<Seq<T::Model>>,
)
    requires
        more@ == first@.push(last),
    ensures
        Vec::<T>::spec_apply(m, VecChange::NoChange, default) == m,
        first@.len() == 0 ==> Vec::<T>::spec_apply(m, VecChange::ApplyMany(first), default) == m,
        Vec::<T>::spec_apply_defined(m, VecChange::ApplyMany(more), default) == (Vec::<T>::spec_apply_defined(
            m,
            VecChange::ApplyMany(first),
            default,
        ) && Vec::<T>::spec_apply_defined(Vec::<T>::spec_apply(m, VecChange::ApplyMany(first), default), last, default)),
        Vec::<T>::spec_apply(m, VecChange::ApplyMany(more), default) == Vec::<T>::spec_apply(
            Vec::<T>::spec_apply(m, VecChange::ApplyMany(first), default),
            last,
            default,
        ),
{
    assert(more@.drop_last() =~= first@);
}

/// Whether a verb named `name` is among `verbs`.
pub open spec fn has_verb(verbs: Seq<(Seq<char>, Seq<(Seq<char>, Seq<char>, bool, bool)>)>, name: Seq<char>) -> bool {
    exists|i: int| 0 <= i < verbs.len() && #[trigger] verbs[i].0 == name
}

/// The verbs of one actionable field, as `law_field_commands` states them for every field.
proof fn lemma_field_verbs(d: Description, for_update: bool)
    requires
        d matches Description::List(l) ==> *l.inner_desc is Field,
    ensures
        has_verb(field_verbs(d, for_update), "set"@) <==> d is Field,
        d matches Description::Field(f) ==> field_verbs(d, for_update)[0] == (
            "set"@,
            if f.is_flag { Seq::empty() } else { seq![value_arg_model(f.type_label@, !for_update)] },
        ),
        has_verb(field_verbs(d, for_update), "use-default"@) <==> d.spec_has_default(),
        has_verb(field_verbs(d, for_update), "unset"@) <==> d.spec_allow_unset(),
{
    reveal_strlit("set");
    reveal_strlit("empty");
    reveal_strlit("remove");
    reveal_strlit("append");
    reveal_strlit("update");
    reveal_strlit("use-default");
    reveal_strlit("unset");
    assert("set"@.len() == 3 && "unset"@.len() == 5 && "use-default"@.len() == 11);
    let v = field_verbs(d, for_update);
    let n = v.len();
    if d is Field {
        assert(v[0].0 == "set"@);
    }
    if d.spec_has_default() {
        let k = if d.spec_allow_unset() { n - 2 } else { n - 1 };
        assert(v[k].0 == "use-default"@);
    }
    if d.spec_allow_unset() {
        assert(v[n - 1].0 == "unset"@);
    }
    let required = !for_update;
    let base: Seq<(Seq<char>, Seq<(Seq<char>, Seq<char>, bool, bool)>)> = match d {
        Description::Field(f) => seq![("set"@, if f.is_flag { Seq::empty() } else { seq![value_arg_model(f.type_label@, required)] })],
        Description::List(l) => {
            let key = key_arg_model(required, l.key_is_int);
            let value = value_arg_model((*l.inner_desc)->Field_0.type_label@, required);
            seq![("empty"@, Seq::empty()), ("remove"@, seq![key]), ("append"@, seq![value]), ("update"@, seq![key, value])]
        },
        Description::Composit(_) => Seq::empty(),
    };
    let with_default = if d.spec_has_default() { seq![("use-default"@, Seq::<(Seq<char>, Seq<char>, bool, bool)>::empty())] } else { Seq::empty() };
    let with_unset = if d.spec_allow_unset() { seq![("unset"@, Seq::<(Seq<char>, Seq<char>, bool, bool)>::empty())] } else { Seq::empty() };
    assert(v == base + with_default + with_unset);
    assert forall|i: int| 0 <= i < n implies {
        &&& (v[i].0 == "set"@ ==> d is Field)
        &&& (v[i].0 == "use-default"@ ==> d.spec_has_default())
        &&& (v[i].0 == "unset"@ ==> d.spec_allow_unset())
    } by {
        if i < base.len() {
            assert(v[i] == base[i]);
            assert("empty"@[0] != "unset"@[0]);
            if d is List {
                assert(i == 0 || i == 1 || i == 2 || i == 3);
                if i == 0 {
                    assert(base[i].0 == "empty"@);
                } else if i == 1 {
                    assert(base[i].0 == "remove"@);
                } else if i == 2 {
                    assert(base[i].0 == "append"@);
                } else {
                    assert(base[i].0 == "update"@);
                }
            }
        } else if i < base.len() + with_default.len() {
            assert(v[i] == with_default[i - base.len()]);
            assert(v[i].0 == "use-default"@);
        } else {
            assert(v[i] == with_unset[i - base.len() - with_default.len()]);
            assert(v[i].0 == "unset"@);
        }
    }
}

/// Every subcommand that a command line offers for an actionable field `f` of `description`
/// (see `field_commands`, which gives `field_verbs` for each) has `set` exactly where `f` is a
/// simple field, with a value argument, required unless the command line is for an update,
/// exactly where `f` is no flag; `use-default` exactly where `f` has a default; and `unset`
/// exactly where `f` can be unset.
pub proof fn law_field_commands(description: Description, for_update: bool)
    requires
        commands_defined(description),
    ensures
        forall|i: int| 0 <= i < actionable_of(description).len() ==> {
            let f = #[trigger] actionable_of(description)[i].0;
            let verbs = field_verbs(f, for_update);
            &&& has_verb(verbs, "set"@) <==> f is Field
            &&& f matches Description::Field(ff) ==> verbs[0] == (
                "set"@,
                if ff.is_flag { Seq::empty() } else { seq![value_arg_model(ff.type_label@, !for_update)] },
            )
            &&& has_verb(verbs, "use-default"@) <==> f.spec_has_default()
            &&& has_verb(verbs, "unset"@) <==> f.spec_allow_unset()
        },
{
    assert forall|i: int| 0 <= i < actionable_of(description).len() implies {
        let f = #[trigger] actionable_of(description)[i].0;
        let verbs = field_verbs(f, for_update);
        &&& has_verb(verbs, "set"@) <==> f is Field
        &&& f matches Description::Field(ff) ==> verbs[0] == (
            "set"@,
            if ff.is_flag { Seq::empty() } else { seq![value_arg_model(ff.type_label@, !for_update)] },
        )
        &&& has_verb(verbs, "use-default"@) <==> f.spec_has_default()
        &&& has_verb(verbs, "unset"@) <==> f.spec_allow_unset()
    } by {
        lemma_field_verbs(actionable_of(description)[i].0, for_update);
    }
}

/// What an option change makes of a result of its inner change: values go into `Apply`,
/// errors pass on.
pub open spec fn applied<C, E>(inner: Result<C, E>) -> Result<OptionChange<C>, E> {
    match inner {
        Ok(c) => Ok(OptionChange::Apply(c)),
        Err(e) => Err(e),
    }
}

/// What option parsing makes of a result of the inner parse: a change goes into `Apply`, a parse
/// error passes on, and an inner `NotSupported` stays `NotSupported`.
pub open spec fn applied_parse<C>(inner: Result<Result<C, ParseError>, NotSupported>) -> Result<
    Result<OptionChange<C>, ParseError>,
    NotSupported,
> {
    match inner {
        Ok(r) => Ok(applied(r)),
        Err(_) => Err(NotSupported),
    }
}

/// Option parsing gives exactly what the inner parse gives, mapped into `Apply`: every result
/// of `OptionChange::parse` is the mapping of a result of the inner parse, and every such
/// mapping is a result it may give.
pub proof fn law_option_parse_forwards<C: CongenChange>(input: Seq<char>)
    where
        C::Configuration: Configuration<CongenChange = C>,
    ensures
        forall|inner: Result<Result<C, ParseError>, NotSupported>|
            #[trigger] C::spec_parses(input, inner) ==> OptionChange::<C>::spec_parses(input, applied_parse(inner)),
        forall|r: Result<Result<OptionChange<C>, ParseError>, NotSupported>|
            #[trigger] OptionChange::<C>::spec_parses(input, r) ==> exists|inner: Result<Result<C, ParseError>, NotSupported>|
                #[trigger] C::spec_parses(input, inner) && r == applied_parse(inner),
{
    assert forall|r: Result<Result<OptionChange<C>, ParseError>, NotSupported>|
        #[trigger] OptionChange::<C>::spec_parses(input, r) implies exists|inner: Result<Result<C, ParseError>, NotSupported>|
            #[trigger] C::spec_parses(input, inner) && r == applied_parse(inner) by {
        match r {
            Ok(Ok(OptionChange::Apply(c))) => {
                assert(r == applied_parse::<C>(Ok(Ok(c))));
            },
            Ok(Err(e)) => {
                assert(r == applied_parse::<C>(Ok(Err(e))));
            },
            Err(n) => {
                let inner = choose|inner: Result<Result<C, ParseError>, NotSupported>|
                    #[trigger] C::spec_parses(input, inner) && inner is Err;
                assert(r == applied_parse(inner));
            },
            _ => {},
        }
    }
}

/// For an option of a composite, a change built at a non-empty path, or by setting a value or
/// taking the default, is exactly what the inner change builds there, mapped into `Apply`: every
/// result is such a mapping, and every such mapping is a result it may give.
pub proof fn law_option_from_path_forwards<C: CongenChange>(path: Seq<Seq<char>>, verb: ChangeVerb)
    where
        C::Configuration: Configuration<CongenChange = C>,
    requires
        C::Configuration::spec_kind() == DescriptionKind::Composit,
        path.len() > 0 || verb is SetValue || verb is UseDefault,
        !(verb is List),
    ensures
        forall|inner: Result<C, VerbError>|
            #[trigger] C::spec_from_path(path, verb, inner) ==> OptionChange::<C>::spec_from_path(path, verb, applied(inner)),
        forall|r: Result<OptionChange<C>, VerbError>|
            #[trigger] OptionChange::<C>::spec_from_path(path, verb, r) ==> exists|inner: Result<C, VerbError>|
                #[trigger] C::spec_from_path(path, verb, inner) && r == applied(inner),
{
    assert forall|r: Result<OptionChange<C>, VerbError>|
        #[trigger] OptionChange::<C>::spec_from_path(path, verb, r) implies exists|inner: Result<C, VerbError>|
            #[trigger] C::spec_from_path(path, verb, inner) && r == applied(inner) by {
        match r {
            Ok(OptionChange::Apply(c)) => {
                assert(r == applied::<C, VerbError>(Ok(c)));
            },
            Err(e) => {
                assert(r == applied::<C, VerbError>(Err(e)));
            },
            _ => {},
        }
    }
}

/// The description of an option is the description of its inner type, made unsettable, no
/// flag, and labelled with the inner label and `?`: every description of the inner type gives
/// such a description of the option, and the option has no other.
pub proof fn law_option_description_forwards<T: Configuration>(field_name: &'static str)
    ensures
        forall|d0: Description, d: Description|
            #[trigger] T::spec_describes(field_name, d0) && #[trigger] option_form(d0, d, Option::<T>::spec_type_label())
                ==> Option::<T>::spec_describes(field_name, d),
        forall|d: Description|
            #[trigger] Option::<T>::spec_describes(field_name, d) ==> exists|d0: Description|
                #[trigger] T::spec_describes(field_name, d0) && option_form(d0, d, Option::<T>::spec_type_label()),
{
}

/// Updating a collected change by a path that addresses an actionable field gives exactly the
/// old change merged with a change built at that path: every such merge is an outcome that
/// `CongenClap::update_with` may give (and its `ensures` says it gives no other success).
pub proof fn law_update_merges<C: CongenChange>(
    d: Description,
    path: Seq<Seq<char>>,
    verb: ChangeVerb,
    before: C,
    built: C,
    after: C,
)
    requires
        has_actionable_path(d, path),
        C::spec_from_path(path, verb, Ok(built)),
        before.spec_merged(built, after),
    ensures
        update_outcome::<C>(d, path, verb, before, after, Ok(())),
{
}

/// Removing the entry at an index `i` within a list returns normally and leaves the list one
/// shorter, with the entries before `i` where they were and those after `i` one place earlier.
pub proof fn law_vec_remove<T: Configuration>(s: Seq<T::Model>, i: usize, default: Option<Seq<T::Model>>)
    requires
        i < s.len(),
    ensures
        Vec::<T>::spec_apply_defined(s, VecChange::Remove(i), default),
        Vec::<T>::spec_apply(s, VecChange::Remove(i), default).len() == s.len() - 1,
        forall|j: int| 0 <= j < i ==> #[trigger] Vec::<T>::spec_apply(s, VecChange::Remove(i), default)[j] == s[j],
        forall|j: int| i <= j < s.len() - 1 ==> #[trigger] Vec::<T>::spec_apply(s, VecChange::Remove(i), default)[j] == s[j + 1],
{
}

/// Updating the entry at an index `i` within a list (where the inner change applies to it)
/// keeps the length and every other entry, and applies the inner change to entry `i` alone.
pub proof fn law_vec_update<T: Configuration>(
    s: Seq<T::Model>,
    i: usize,
    c: T::CongenChange,
    default: Option<Seq<T::Model>>,
)
    requires
        i < s.len(),
        T::spec_apply_defined(s[i as int], c, None),
    ensures
        Vec::<T>::spec_apply_defined(s, VecChange::Update(i, c), default),
        Vec::<T>::spec_apply(s, VecChange::Update(i, c), default).len() == s.len(),
        Vec::<T>::spec_apply(s, VecChange::Update(i, c), default)[i as int] == T::spec_apply(s[i as int], c, None),
        forall|j: int| 0 <= j < s.len() && j != i ==> #[trigger] Vec::<T>::spec_apply(s, VecChange::Update(i, c), default)[j] == s[j],
{
}

/// Appending a change that sets a value outright adds that value at the end and keeps every
/// entry before it; emptying leaves no entry.
pub proof fn law_vec_append_and_empty<T: Configuration>(
    s: Seq<T::Model>,
    c: T::CongenChange,
    default: Option<Seq<T::Model>>,
)
    requires
        c.spec_unwrap_defined(),
        c.spec_unwrap_field() is Ok,
    ensures
        Vec::<T>::spec_apply_defined(s, VecChange::Append(c), default),
        Vec::<T>::spec_apply(s, VecChange::Append(c), default).len() == s.len() + 1,
        Vec::<T>::spec_apply(s, VecChange::Append(c), default)[s.len() as int] == c.spec_unwrap_field()->Ok_0.model(),
        forall|j: int| 0 <= j < s.len() ==> #[trigger] Vec::<T>::spec_apply(s, VecChange::Append(c), default)[j] == s[j],
        Vec::<T>::spec_apply(s, VecChange::Empty, default).len() == 0,
{
}

/// Applying to an option: `Unset` leaves nothing, `NoChange` leaves it as it is, and `Apply`
/// on a value there applies the inner change to that value.
pub proof fn law_option_apply<T: Configuration>(
    m: Option<T::Model>,
    c: T::CongenChange,
    default: Option<Option<T::Model>>,
)
    ensures
        Option::<T>::spec_apply(m, OptionChange::Unset, default) is None,
        Option::<T>::spec_apply(m, OptionChange::NoChange, default) == m,
        m matches Some(t) ==> Option::<T>::spec_apply(m, OptionChange::Apply(c), default) == Some(T::spec_apply(t, c, None)),
        m matches Some(t) ==> (Option::<T>::spec_apply_defined(m, OptionChange::Apply(c), default) == T::spec_apply_defined(t, c, None)),
{
}

/// A path is valid for a simple field or a list exactly when it is empty; for a composite, the
/// empty path is valid, a path whose first name is no field's name is not, and a path whose
/// first name is a field's is valid exactly when its rest is valid for the first field of that
/// name.
pub proof fn law_path_validity(d: Description, path: Seq<Seq<char>>)
    ensures
        !(d is Composit) ==> (d.spec_path_valid(path) <==> path.len() == 0),
        d is Composit && path.len() == 0 ==> d.spec_path_valid(path),
        d matches Description::Composit(c) ==> (path.len() > 0 && (forall|k: int|
            0 <= k < c.fields@.len() ==> (#[trigger] c.fields@[k]).spec_name()@ != path[0]) ==> !d.spec_path_valid(path)),
        d matches Description::Composit(c) ==> (path.len() > 0 && c.fields@.len() > 0 && c.fields@[0].spec_name()@ == path[0]
            ==> (d.spec_path_valid(path) <==> c.fields@[0].spec_path_valid(path.skip(1)))),
{
    if let Description::Composit(c) = d {
        if path.len() > 0 && c.fields@.len() > 0 && c.fields@[0].spec_name()@ == path[0] {
            assert(is_first_named(c.fields@, path[0], 0));
            let i = choose|i: int| is_first_named(c.fields@, path[0], i);
            assert(i == 0);
        }
    }
}

/// Every actionable field that `actionable_children` lists has a path of at least one name.
proof fn lemma_children_paths_nonempty(fields: Seq<Description>)
    ensures
        forall|i: int| 0 <= i < actionable_children(fields).len() ==> (#[trigger] actionable_children(fields)[i]).1.len() >= 1,
    decreases fields.len(),
{
    if fields.len() > 0 {
        let rest = fields.drop_last();
        lemma_children_paths_nonempty(rest);
        let head = actionable_children(rest);
        let all = actionable_children(fields);
        let tail = all.subrange(head.len() as int, all.len() as int);
        assert(all == head + tail);
        assert forall|i: int| 0 <= i < all.len() implies (#[trigger] all[i]).1.len() >= 1 by {
            if i < head.len() {
                assert(all[i] == head[i]);
            } else {
                assert(all[i] == tail[i - head.len()]);
                if let Description::Composit(c) = fields.last() {
                    let pre = prefixed(c.field_name, actionable_of(fields.last()));
                    if i - head.len() < pre.len() {
                        assert(tail[i - head.len()] == pre[i - head.len()]);
                    }
                }
            }
        }
    }
}

/// The composites listed under a path of one name are the actionable ones, and each
/// actionable composite field is listed under its own name.
proof fn lemma_children_composites(fields: Seq<Description>)
    ensures
        forall|i: int|
            0 <= i < actionable_children(fields).len() && (#[trigger] actionable_children(fields)[i]).1.len() == 1
                && actionable_children(fields)[i].0 is Composit ==> (actionable_children(fields)[i].0->Composit_0.has_default
                || actionable_children(fields)[i].0->Composit_0.allow_unset),
        forall|k: int|
            0 <= k < fields.len() && (#[trigger] fields[k]) is Composit && (fields[k]->Composit_0.has_default
                || fields[k]->Composit_0.allow_unset) ==> exists|i: int|
                0 <= i < actionable_children(fields).len() && #[trigger] actionable_children(fields)[i] == (
                    fields[k],
                    seq![fields[k]->Composit_0.field_name],
                ),
    decreases fields.len(),
{
    if fields.len() > 0 {
        let rest = fields.drop_last();
        let field = fields.last();
        lemma_children_composites(rest);
        let head = actionable_children(rest);
        let all = actionable_children(fields);
        let tail = all.subrange(head.len() as int, all.len() as int);
        assert(all == head + tail);
        if let Description::Composit(c) = field {
            lemma_children_paths_nonempty(c.fields@);
            assert(actionable_of(field) == actionable_children(c.fields@));
            let pre = prefixed(c.field_name, actionable_of(field));
            assert forall|j: int| 0 <= j < pre.len() implies (#[trigger] pre[j]).1.len() >= 2 by {
                assert(actionable_of(field)[j].1.len() >= 1);
            }
            assert forall|i: int|
                0 <= i < all.len() && (#[trigger] all[i]).1.len() == 1 && all[i].0 is Composit implies (
                all[i].0->Composit_0.has_default || all[i].0->Composit_0.allow_unset) by {
                if i >= head.len() {
                    assert(all[i] == tail[i - head.len()]);
                    if i - head.len() < pre.len() {
                        assert(tail[i - head.len()] == pre[i - head.len()]);
                    }
                } else {
                    assert(all[i] == head[i]);
                }
            }
            if c.has_default || c.allow_unset {
                assert(all[all.len() - 1] == (field, seq![c.field_name]));
            }
        } else {
            assert forall|i: int|
                0 <= i < all.len() && (#[trigger] all[i]).1.len() == 1 && all[i].0 is Composit implies (
                all[i].0->Composit_0.has_default || all[i].0->Composit_0.allow_unset) by {
                if i >= head.len() {
                    assert(all[i] == tail[i - head.len()]);
                } else {
                    assert(all[i] == head[i]);
                }
            }
        }
        assert forall|k: int|
            0 <= k < fields.len() && (#[trigger] fields[k]) is Composit && (fields[k]->Composit_0.has_default
                || fields[k]->Composit_0.allow_unset) implies exists|i: int|
                0 <= i < all.len() && #[trigger] all[i] == (fields[k], seq![fields[k]->Composit_0.field_name]) by {
            if k < rest.len() {
                assert(rest[k] == fields[k]);
                let i = choose|i: int| 0 <= i < head.len() && #[trigger] head[i] == (rest[k], seq![rest[k]->Composit_0.field_name]);
                assert(all[i] == head[i]);
            } else {
                assert(all[all.len() - 1] == (fields[k], seq![fields[k]->Composit_0.field_name]));
            }
        }
    }
}

/// A composite is actionable exactly when it has a default or can be unset; among the
/// actionable fields of a composite, each field that is an actionable composite is listed under
/// its own name, and every composite listed under a single name is actionable.
pub proof fn law_actionable_composites(top: CompositDescription)
    ensures
        forall|c: CompositDescription| #[trigger] c.spec_is_actionable() == (c.has_default || c.allow_unset),
        forall|k: int|
            0 <= k < top.fields@.len() && (#[trigger] top.fields@[k]) is Composit && (top.fields@[k]->Composit_0.has_default
                || top.fields@[k]->Composit_0.allow_unset) ==> exists|i: int|
                0 <= i < actionable_of(Description::Composit(top)).len() && #[trigger] actionable_of(
                    Description::Composit(top),
                )[i] == (top.fields@[k], seq![top.fields@[k]->Composit_0.field_name]),
        forall|i: int|
            0 <= i < actionable_of(Description::Composit(top)).len() && (#[trigger] actionable_of(
                Description::Composit(top),
            )[i]).1.len() == 1 && actionable_of(Description::Composit(top))[i].0 is Composit ==> (actionable_of(
                Description::Composit(top),
            )[i].0->Composit_0.has_default || actionable_of(Description::Composit(top))[i].0->Composit_0.allow_unset),
{
    lemma_children_composites(top.fields@);
    assert(actionable_of(Description::Composit(top)) == actionable_children(top.fields@));
}

/// The `remove` and `update` verbs of a list address an entry by a `key` argument, shown as
/// `AT` and required unless the command line is for an update, whose values are read as
/// integers exactly when the list is keyed by integers.
pub proof fn law_list_key_argument(l: ListDescription, for_update: bool)
    requires
        *l.inner_desc is Field,
    ensures
        field_verbs(Description::List(l), for_update)[1] == ("remove"@, seq![("key"@, "AT"@, !for_update, l.key_is_int)]),
        field_verbs(Description::List(l), for_update)[3].0 == "update"@,
        field_verbs(Description::List(l), for_update)[3].1[0] == ("key"@, "AT"@, !for_update, l.key_is_int),
{
}

/// A type is taken for an option only where it is written `Option<T>`,
/// `std::option::Option<T>` or `core::option::Option<T>` (no `::` in front, no qualified self),
/// and the result names the segment `Option` whose one argument is a type; a path whose first
/// segment is none of `Option`, `std` and `core` is no option.
pub proof fn law_option_type(ty: TypeModel)
    ensures
        spec_option_type(ty) matches Ok(Some(k)) ==> ty is Path && {
            let p = ty->Path_0;
            let segs = p.segments@;
            &&& !p.qself && !p.leading_colon
            &&& k < segs.len()
            &&& segs[k as int].ident@ == "Option"@
            &&& (k == 0 || (k == 2 && (segs[0].ident@ == "std"@ || segs[0].ident@ == "core"@) && segs[1].ident@ == "option"@))
            &&& segs[k as int].arguments matches PathArguments::AngleBracketed(args)
            &&& args@.len() == 1 && args@[0] == GenericArgumentKind::Type
        },
        ty matches TypeModel::Path(p) ==> (!p.qself && p.segments@.len() > 0 && p.segments@[0].ident@ != "Option"@
            && p.segments@[0].ident@ != "std"@ && p.segments@[0].ident@ != "core"@ ==> spec_option_type(ty) == Ok::<
            Option<usize>,
            OptionTypeError,
        >(None)),
{
}

/// Marking a description as having a default changes nothing but `has_default`: the name,
/// label, and every other property of a field, a composite or a list stay as they were.
pub proof fn law_with_default_keeps(d: Description)
    ensures
        d.spec_with_default().spec_has_default(),
        d matches Description::Field(f) ==> d.spec_with_default() matches Description::Field(g) && g.field_name
            == f.field_name && g.type_label == f.type_label && g.is_flag == f.is_flag && g.allow_unset == f.allow_unset
            && g.cmd_value_hint == f.cmd_value_hint,
        d matches Description::Composit(c) ==> d.spec_with_default() matches Description::Composit(e) && e.field_name
            == c.field_name && e.type_label == c.type_label && e.fields == c.fields && e.allow_unset == c.allow_unset,
        d matches Description::List(l) ==> d.spec_with_default() matches Description::List(m) && m.field_name
            == l.field_name && m.type_label == l.type_label && m.inner_desc == l.inner_desc && m.key_is_int == l.key_is_int,
{
}

/// The empty change leaves a number as it is.
pub proof fn law_u32_empty(m: u32, default: Option<u32>)
    ensures
        u32::spec_apply(m, <Option<u32> as CongenChange>::spec_empty(), default) == m,
{
}

/// The empty change leaves a flag as it is.
pub proof fn law_bool_empty(m: bool, default: Option<bool>)
    ensures
        bool::spec_apply(m, <Option<bool> as CongenChange>::spec_empty(), default) == m,
{
}

/// The empty change leaves a string as it is.
pub proof fn law_string_empty(m: Seq<char>, default: Option<Seq<char>>)
    ensures
        String::spec_apply(m, <Option<String> as CongenChange>::spec_empty(), default) == m,
{
}

/// The empty change leaves a value enum as it is.
pub proof fn law_value_enum_empty<T: ValueEnumConfiguration>(m: T, default: Option<T>)
    ensures
        T::spec_apply(m, <ValueEnumChange<T> as CongenChange>::spec_empty(), default) == m,
{
}

/// The empty change leaves an option as it is.
pub proof fn law_option_empty<T: Configuration>(m: Option<T::Model>, default: Option<Option<T::Model>>)
    ensures
        Option::<T>::spec_apply_defined(m, OptionChange::NoChange, default),
        Option::<T>::spec_apply(m, OptionChange::NoChange, default) == m,
{
}

/// The empty change leaves a list as it is.
pub proof fn law_vec_empty<T: Configuration>(m: Seq<T::Model>, default: Option<Seq<T::Model>>)
    ensures
        vec_step_defined::<T>(m, VecChange::NoChange, default),
        vec_step::<T>(m, VecChange::NoChange, default) == m,
{
}

/// Merging the empty change into a change, or a change into the empty change, gives that
/// change, for numbers.
pub proof fn law_u32_merge_empty(c: Option<u32>, r: Option<u32>)
    ensures
        c.spec_merged(<Option<u32> as CongenChange>::spec_empty(), r) ==> r == c,
        <Option<u32> as CongenChange>::spec_empty().spec_merged(c, r) ==> r == c,
{
}

/// Merging the empty change into a change, or a change into the empty change, gives that
/// change, for flags.
pub proof fn law_bool_merge_empty(c: Option<bool>, r: Option<bool>)
    ensures
        c.spec_merged(<Option<bool> as CongenChange>::spec_empty(), r) ==> r == c,
        <Option<bool> as CongenChange>::spec_empty().spec_merged(c, r) ==> r == c,
{
}

/// Merging the empty change into a change, or a change into the empty change, gives that
/// change, for strings.
pub proof fn law_string_merge_empty(c: Option<String>, r: Option<String>)
    ensures
        c.spec_merged(<Option<String> as CongenChange>::spec_empty(), r) ==> r == c,
        <Option<String> as CongenChange>::spec_empty().spec_merged(c, r) ==> r == c,
{
}

/// Merging the empty change into a change, or a change into the empty change, gives that
/// change, for value enums.
pub proof fn law_value_enum_merge_empty<T: ValueEnumConfiguration>(c: ValueEnumChange<T>, r: ValueEnumChange<T>)
    ensures
        c.spec_merged(<ValueEnumChange<T> as CongenChange>::spec_empty(), r) ==> r == c,
        <ValueEnumChange<T> as CongenChange>::spec_empty().spec_merged(c, r) ==> r == c,
{
}

/// Merging the empty change into a change, or a change into the empty change, gives that
/// change, for options.
pub proof fn law_option_merge_empty<C: CongenChange>(c: OptionChange<C>, r: OptionChange<C>)
    where
        C::Configuration: Configuration<CongenChange = C>,
    ensures
        c.spec_merged(OptionChange::NoChange, r) ==> r == c,
        OptionChange::<C>::NoChange.spec_merged(c, r) ==> r == c,
{
}

/// Merging the empty change into a change, or a change into the empty change, gives that
/// change, for lists.
pub proof fn law_vec_merge_empty<C>(c: VecChange<C>, r: VecChange<C>)
    ensures
        crate::lists::vec_changes_merged(c, VecChange::NoChange, r) ==> r == c,
        crate::lists::vec_changes_merged(VecChange::NoChange, c, r) ==> r == c,
{
}

/// Marking a description as having a default sets `has_default` and keeps its name, kind and
/// whether it can be unset.
pub proof fn law_with_default(d: Description)
    ensures
        d.spec_with_default().spec_has_default(),
        d.spec_with_default().spec_name() == d.spec_name(),
        d.spec_with_default().spec_kind() == d.spec_kind(),
        d.spec_with_default().spec_allow_unset() == d.spec_allow_unset(),
{
}

/// Joining parts that hold no `.` with `.` and splitting the text again gives back exactly
/// those parts: splitting a dotted path is the inverse of joining its segments.
pub proof fn law_split_join(parts: Seq<Seq<char>>)
    requires
        parts.len() >= 1,
        parts_without(parts, '.'),
    ensures
        is_split_of(parts, joined(parts, '.')),
        forall|q: Seq<Seq<char>>| #[trigger] is_split_of(q, joined(parts, '.')) ==> q == parts,
{
    crate::clap_bridge::lemma_split_unique(parts, joined(parts, '.'));
}

} // verus!
