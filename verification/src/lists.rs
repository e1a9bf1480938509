use vstd::prelude::*;

use crate::config::{path_view, Configuration, CongenChange};
use crate::description::{Description, DescriptionKind, FieldDescription, ListDescription};
use crate::error::{NotSupported, ParseError, VerbError};
use crate::verb::{ChangeVerb, ListKey, ListVerb};

verus! {

/// [`CongenChange`] for [`Vec`].
#[derive(Debug, Default)]
pub enum VecChange<T> {
    /// Append a value built from the change.
    Append(T),
    /// Apply the change to the entry at the index.
    Update(usize, T),
    /// Remove the entry at the index.
    Remove(usize),
    /// Remove every entry.
    Empty,
    /// Leave the list as it is.
    #[default]
    NoChange,
    /// Apply the changes one after the other.
    ApplyMany(Vec<VecChange<T>>),
}

/// The models of the elements of a sequence.
pub open spec fn elems_model<T: Configuration>(s: Seq<T>) -> Seq<T::Model> {
    s.map_values(|t: T| t.model())
}

/// Whether applying `change` to a list of model `s`, with `default` at hand, returns normally.
///
/// An `Update` or a `Remove` needs its index in range; an `Append` of a change that does not
/// unwrap to a value needs a default list of exactly one element to start from.
pub open spec fn vec_step_defined<T: Configuration>(
    s: Seq<T::Model>,
    change: VecChange<T::CongenChange>,
    default: Option<Seq<T::Model>>,
) -> bool
    decreases change,
{
    match change {
        VecChange::Append(c) => c.spec_unwrap_defined() && match c.spec_unwrap_field() {
            Ok(_) => true,
            Err(c2) => default matches Some(d) && d.len() == 1 && T::spec_apply_defined(d[0], c2, None),
        },
        VecChange::Update(i, c) => i < s.len() && T::spec_apply_defined(s[i as int], c, None),
        VecChange::Remove(i) => i < s.len(),
        VecChange::Empty => true,
        VecChange::NoChange => true,
        VecChange::ApplyMany(changes) => vec_steps_defined::<T>(s, changes@, default),
    }
}

/// Whether applying `changes` one after the other returns normally.
pub open spec fn vec_steps_defined<T: Configuration>(
    s: Seq<T::Model>,
    changes: Seq<VecChange<T::CongenChange>>,
    default: Option<Seq<T::Model>>,
) -> bool
    decreases changes,
{
    if changes.len() == 0 {
        true
    } else {
        vec_steps_defined::<T>(s, changes.drop_last(), default)
            && vec_step_defined::<T>(vec_steps::<T>(s, changes.drop_last(), default), changes.last(), default)
    }
}

/// The model of a list of model `s` after `change` was applied with `default` at hand.
pub open spec fn vec_step<T: Configuration>(
    s: Seq<T::Model>,
    change: VecChange<T::CongenChange>,
    default: Option<Seq<T::Model>>,
) -> Seq<T::Model>
    decreases change,
{
    match change {
        VecChange::Append(c) => match c.spec_unwrap_field() {
            Ok(v) => s.push(v.model()),
            Err(c2) => s.push(T::spec_apply(default->0[0], c2, None)),
        },
        VecChange::Update(i, c) => s.update(i as int, T::spec_apply(s[i as int], c, None)),
        VecChange::Remove(i) => s.remove(i as int),
        VecChange::Empty => Seq::empty(),
        VecChange::NoChange => s,
        VecChange::ApplyMany(changes) => vec_steps::<T>(s, changes@, default),
    }
}

/// The model of a list of model `s` after `changes` were applied one after the other.
pub open spec fn vec_steps<T: Configuration>(
    s: Seq<T::Model>,
    changes: Seq<VecChange<T::CongenChange>>,
    default: Option<Seq<T::Model>>,
) -> Seq<T::Model>
    decreases changes,
{
    if changes.len() == 0 {
        s
    } else {
        vec_step::<T>(vec_steps::<T>(s, changes.drop_last(), default), changes.last(), default)
    }
}

/// The models of the elements of an optional default list.
pub open spec fn default_elems<T: Configuration>(default: Option<Vec<T>>) -> Option<Seq<T::Model>> {
    match default {
        Some(d) => Some(elems_model(d@)),
        None => None,
    }
}

/// Applying a sequence of changes returns normally only where applying each prefix does.
pub proof fn lemma_steps_defined_prefix<T: Configuration>(
    s: Seq<T::Model>,
    changes: Seq<VecChange<T::CongenChange>>,
    n: int,
    default: Option<Seq<T::Model>>,
)
    requires
        vec_steps_defined::<T>(s, changes, default),
        0 < n <= changes.len(),
    ensures
        vec_steps_defined::<T>(s, changes.take(n - 1), default),
        vec_step_defined::<T>(vec_steps::<T>(s, changes.take(n - 1), default), changes[n - 1], default),
    decreases changes.len(),
{
    if n == changes.len() {
        assert(changes.take(n - 1) =~= changes.drop_last());
    } else {
        lemma_steps_defined_prefix::<T>(s, changes.drop_last(), n, default);
        assert(changes.drop_last().take(n - 1) =~= changes.take(n - 1));
    }
}

/// A copy of every element of `v`, in order.
pub fn duplicate_elems<T: Configuration>(v: &Vec<T>) -> (r: Vec<T>)
    ensures
        elems_model(r@) == elems_model(v@),
{
    let mut r: Vec<T> = Vec::new();
    let mut i: usize = 0;
    while i < v.len()
        invariant
            i <= v@.len(),
            r@.len() == i,
            forall|j: int| 0 <= j < i ==> #[trigger] r@[j].model() == v@[j].model(),
        decreases v@.len() - i,
    {
        r.push(v[i].duplicate());
        i += 1;
    }
    assert(elems_model(r@) =~= elems_model(v@));
    r
}

/// Applies `change` to the list `v`, with `default` at hand for appended values that the
/// change cannot build alone.
pub fn apply_vec_change<T: Configuration>(
    v: &mut Vec<T>,
    change: VecChange<T::CongenChange>,
    default: &Option<Vec<T>>,
)
    requires
        vec_step_defined::<T>(elems_model(old(v)@), change, default_elems(*default)),
    ensures
        elems_model(final(v)@) == vec_step::<T>(elems_model(old(v)@), change, default_elems(*default)),
    decreases change,
{
    let ghost s0 = elems_model(v@);
    match change {
        VecChange::Append(change) => {
            match change.unwrap_field() {
                Ok(value) => {
                    v.push(value);
                },
                Err(change) => {
                    match default {
                        Some(default_vec) => {
                            let mut new_value = default_vec[0].duplicate();
                            new_value.apply_change(change);
                            v.push(new_value);
                        },
                        None => {
                            proof { assert(false); }
                        },
                    }
                },
            }
            assert(elems_model(v@) =~= vec_step::<T>(s0, VecChange::Append(change), default_elems(*default)));
        },
        VecChange::Update(index, change) => {
            let mut current = v[index].duplicate();
            current.apply_change(change);
            v.set(index, current);
            assert(elems_model(v@) =~= s0.update(index as int, T::spec_apply(s0[index as int], change, None)));
        },
        VecChange::Remove(index) => {
            v.remove(index);
            assert(elems_model(v@) =~= s0.remove(index as int));
        },
        VecChange::Empty => {
            v.clear();
            assert(elems_model(v@) =~= Seq::<T::Model>::empty());
        },
        VecChange::NoChange => {},
        VecChange::ApplyMany(changes) => {
            let ghost all = changes@;
            let count = changes.len();
            let mut rest = changes;
            let mut k: usize = 0;
            while rest.len() > 0
                invariant
                    k <= all.len(),
                    all.len() == count,
                    all == changes@,
                    rest@ == all.subrange(k as int, all.len() as int),
                    vec_steps_defined::<T>(s0, all, default_elems(*default)),
                    elems_model(v@) == vec_steps::<T>(s0, all.take(k as int), default_elems(*default)),
                    change == VecChange::ApplyMany(changes),
                decreases rest@.len(),
            {
                let next = rest.remove(0);
                proof {
                    assert(next == all[k as int]);
                    assert(decreases_to!(change => next)) by {
                        broadcast use vstd::std_specs::vec::axiom_vec_decreases_to_view;
                        assert(change->ApplyMany_0 == changes);
                        assert(decreases_to!(change => change->ApplyMany_0));
                        assert(decreases_to!(changes => changes@));
                        assert(0 <= k < changes@.len());
                        assert(decreases_to!(changes@ => changes@[k as int]));
                    }
                    assert(all.take(k + 1).drop_last() =~= all.take(k as int));
                    lemma_steps_defined_prefix::<T>(s0, all, (k + 1) as int, default_elems(*default));
                }
                apply_vec_change(v, next, default);
                k += 1;
            }
            assert(all.take(all.len() as int) =~= all);
        },
    }
}

impl<T: Configuration> Configuration for Vec<T> {
    type CongenChange = VecChange<T::CongenChange>;

    type Model = Seq<T::Model>;

    open spec fn model(self) -> Seq<T::Model> {
        elems_model(self@)
    }

    open spec fn spec_type_label() -> Option<Seq<char>> {
        match T::spec_type_label() {
            Some(inner) => Some("List<"@ + inner + ">"@),
            None => None,
        }
    }

    open spec fn spec_kind() -> DescriptionKind {
        DescriptionKind::List
    }

    open spec fn spec_describable() -> bool {
        T::spec_describable()
    }

    open spec fn spec_describes(field_name: &'static str, d: Description) -> bool {
        &&& d matches Description::List(l)
        &&& l.field_name == field_name
        &&& crate::config::label_matches(l.type_label@, Self::spec_type_label())
        &&& !l.has_default
        &&& l.key_is_int
        &&& T::spec_describes("", *l.inner_desc)
    }

    open spec fn spec_default() -> Option<Seq<T::Model>> {
        Some(Seq::empty())
    }

    open spec fn spec_apply_defined(
        m: Seq<T::Model>,
        change: VecChange<T::CongenChange>,
        default: Option<Seq<T::Model>>,
    ) -> bool {
        vec_step_defined::<T>(m, change, default)
    }

    open spec fn spec_apply(
        m: Seq<T::Model>,
        change: VecChange<T::CongenChange>,
        default: Option<Seq<T::Model>>,
    ) -> Seq<T::Model> {
        vec_step::<T>(m, change, default)
    }

    fn apply_change_with_default(&mut self, change: VecChange<T::CongenChange>, default: Option<Vec<T>>) {
        apply_vec_change(self, change, &default);
    }

    fn description(field_name: &'static str) -> (r: Description) {
        let inner_desc = Box::new(T::description(""));
        Description::List(
            ListDescription {
                field_name,
                type_label: Self::type_label(),
                inner_desc,
                has_default: false,
                key_is_int: true,
            },
        )
    }

    fn default() -> (r: Result<Vec<T>, NotSupported>) {
        let v: Vec<T> = Vec::new();
        assert(elems_model(v@) =~= Seq::<T::Model>::empty());
        Ok(v)
    }

    fn duplicate(&self) -> (r: Vec<T>) {
        duplicate_elems(self)
    }

    fn type_label() -> (r: String) {
        let mut name = "List<".to_owned();
        let inner = T::type_label();
        name.append(inner.as_str());
        name.append(">");
        name
    }
}

/// `r` is the change that `C` builds for a list entry from the unparsed `value`, wrapped by
/// `wrap`, or the error it gives.
pub open spec fn entry_change<C: CongenChange>(
    value: String,
    r: Result<VecChange<C>, VerbError>,
    wrap: spec_fn(C) -> VecChange<C>,
) -> bool {
    match r {
        Ok(change) => exists|c: C|
            #[trigger] C::spec_from_path(Seq::empty(), ChangeVerb::SetValue(value), Ok(c)) && change == wrap(c),
        Err(e) => C::spec_from_path(Seq::empty(), ChangeVerb::SetValue(value), Err(e)),
    }
}

/// Whether building a list change from `verb` returns normally.
pub open spec fn list_verb_defined<C: CongenChange>(verb: ListVerb) -> bool {
    match verb {
        ListVerb::Append { new_value } => C::spec_from_path_defined(Seq::empty(), ChangeVerb::SetValue(new_value)),
        ListVerb::Update { key: ListKey::Int(_), updated_value } => C::spec_from_path_defined(
            Seq::empty(),
            ChangeVerb::SetValue(updated_value),
        ),
        _ => true,
    }
}

/// `r` is the list change built from `verb`: the value of an `Append` or `Update` is built by
/// `C` from an empty path; keys must be positions.
pub open spec fn list_verb_outcome<C: CongenChange>(verb: ListVerb, r: Result<VecChange<C>, VerbError>) -> bool {
    match verb {
        ListVerb::Append { new_value } => entry_change::<C>(new_value, r, |c: C| VecChange::Append(c)),
        ListVerb::Update { key, updated_value } => match key {
            ListKey::Int(k) => entry_change::<C>(updated_value, r, |c: C| VecChange::Update(k, c)),
            ListKey::Name(_) => r == Err::<VecChange<C>, VerbError>(VerbError::WrongKeyType),
        },
        ListVerb::Remove { key } => match key {
            ListKey::Int(k) => r == Ok::<VecChange<C>, VerbError>(VecChange::Remove(k)),
            ListKey::Name(_) => r == Err::<VecChange<C>, VerbError>(VerbError::WrongKeyType),
        },
        ListVerb::Empty => r == Ok::<VecChange<C>, VerbError>(VecChange::Empty),
    }
}

/// `r` is what `current` becomes when `change` is applied to it: `NoChange` keeps it, `Empty`
/// replaces it, anything else is queued after it.
pub open spec fn vec_changes_merged<C>(current: VecChange<C>, change: VecChange<C>, r: VecChange<C>) -> bool {
    match change {
        VecChange::NoChange => r == current,
        VecChange::Empty => r == VecChange::<C>::Empty,
        _ => match current {
            VecChange::NoChange => r == change,
            VecChange::ApplyMany(changes) => r is ApplyMany && r->ApplyMany_0@ == changes@.push(change),
            _ => r is ApplyMany && r->ApplyMany_0@ == seq![current, change],
        },
    }
}

/// Applies `change` to `current` and returns the combined change.
pub fn merge_vec_changes<C>(current: VecChange<C>, change: VecChange<C>) -> (r: VecChange<C>)
    ensures
        vec_changes_merged(current, change, r),
{
    match change {
        VecChange::NoChange => current,
        VecChange::Empty => VecChange::Empty,
        change => match current {
            VecChange::NoChange => change,
            VecChange::ApplyMany(mut changes) => {
                let ghost before = changes@;
                changes.push(change);
                assert(changes@ =~= before.push(change));
                VecChange::ApplyMany(changes)
            },
            other => {
                let mut changes = Vec::new();
                changes.push(other);
                changes.push(change);
                assert(changes@ =~= seq![other, change]);
                VecChange::ApplyMany(changes)
            },
        },
    }
}

impl<C: CongenChange> CongenChange for VecChange<C> where C::Configuration: Configuration<CongenChange = C> {
    type Configuration = Vec<C::Configuration>;

    open spec fn spec_empty() -> Self {
        VecChange::NoChange
    }

    open spec fn spec_defaults(r: Result<Self, NotSupported>) -> bool {
        r == Err::<Self, NotSupported>(NotSupported)
    }

    open spec fn spec_parses(input: Seq<char>, r: Result<Result<Self, ParseError>, NotSupported>) -> bool {
        r == Err::<Result<Self, ParseError>, NotSupported>(NotSupported)
    }

    open spec fn spec_unwrap_defined(self) -> bool {
        true
    }

    open spec fn spec_unwrap_field(self) -> Result<Vec<C::Configuration>, Self> {
        Err(self)
    }

    /// A whole list cannot be set by one change.
    open spec fn spec_sets_value(value: Vec<C::Configuration>, r: Result<Self, NotSupported>) -> bool {
        r == Err::<Self, NotSupported>(NotSupported)
    }

    open spec fn spec_merged(self, change: Self, r: Self) -> bool {
        vec_changes_merged(self, change, r)
    }

    open spec fn spec_from_path_defined(path: Seq<Seq<char>>, verb: ChangeVerb) -> bool {
        &&& path.len() == 0
        &&& C::Configuration::spec_describable()
        &&& verb matches ChangeVerb::List(list) ==> C::Configuration::spec_kind() == DescriptionKind::Field
            && list_verb_defined::<C>(list)
    }

    open spec fn spec_from_path(path: Seq<Seq<char>>, verb: ChangeVerb, r: Result<Self, VerbError>) -> bool {
        match verb {
            ChangeVerb::List(list) => list_verb_outcome::<C>(list, r),
            _ => r == Err::<Self, VerbError>(VerbError::UnsupportedVerb(verb)),
        }
    }

    fn empty() -> (r: Self) {
        VecChange::NoChange
    }

    fn default() -> (r: Result<Self, NotSupported>) {
        Err(NotSupported)
    }

    fn set_value(_value: Vec<C::Configuration>) -> (r: Result<Self, NotSupported>) {
        Err(NotSupported)
    }

    fn parse(input: &str) -> (r: Result<Result<Self, ParseError>, NotSupported>) {
        Err(NotSupported)
    }

    fn unwrap_field(self) -> (r: Result<Vec<C::Configuration>, Self>) {
        Err(self)
    }

    fn apply_change(&mut self, change: Self) {
        let mut current = VecChange::NoChange;
        std::mem::swap(self, &mut current);
        *self = merge_vec_changes(current, change);
    }

    fn from_path_and_verb(path: &[&str], verb: ChangeVerb) -> (r: Result<Self, VerbError>) {
        let inner_desc = C::Configuration::description("");
        match verb {
            ChangeVerb::List(list) => match inner_desc {
                Description::Field(field_description) => Self::inner_field_from_verb(list, &field_description),
                _ => vstd::pervasive::unreached(),
            },
            other => Err(VerbError::UnsupportedVerb(other)),
        }
    }
}

impl<C: CongenChange> VecChange<C> where C::Configuration: Configuration<CongenChange = C> {
    /// Builds the list change for `verb` on a list whose entries are simple fields.
    pub fn inner_field_from_verb(verb: ListVerb, _field_desc: &FieldDescription) -> (r: Result<Self, VerbError>)
        requires
            list_verb_defined::<C>(verb),
        ensures
            list_verb_outcome::<C>(verb, r),
    {
        let no_path: [&str; 0] = [];
        assert(path_view(no_path@) =~= Seq::<Seq<char>>::empty());
        match verb {
            ListVerb::Append { new_value } => {
                let ghost value = new_value;
                match C::from_path_and_verb(&no_path, ChangeVerb::SetValue(new_value)) {
                    Ok(change) => {
                        let r = VecChange::Append(change);
                        assert((|c: C| VecChange::Append(c))(change) == r);
                        Ok(r)
                    },
                    Err(e) => Err(e),
                }
            },
            ListVerb::Update { key, updated_value } => {
                let key = match key {
                    ListKey::Int(key) => key,
                    ListKey::Name(_) => {
                        return Err(VerbError::WrongKeyType);
                    },
                };
                match C::from_path_and_verb(&no_path, ChangeVerb::SetValue(updated_value)) {
                    Ok(change) => {
                        let r = VecChange::Update(key, change);
                        assert((|c: C| VecChange::Update(key, c))(change) == r);
                        Ok(r)
                    },
                    Err(e) => Err(e),
                }
            },
            ListVerb::Remove { key } => match key {
                ListKey::Int(key) => Ok(VecChange::Remove(key)),
                ListKey::Name(_) => Err(VerbError::WrongKeyType),
            },
            ListVerb::Empty => Ok(VecChange::Empty),
        }
    }
}

} // verus!
