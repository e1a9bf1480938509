use vstd::prelude::*;

use crate::config::path_view;
use crate::text::str_eq;

verus! {

/// The kind of value a command line should expect for a field.
#[derive(Debug, Clone, Copy, PartialEq, Eq)]
pub enum ValueHint {
    /// Nothing is known of the value.
    Unknown,
    /// Some other kind of value, such as a number.
    Other,
}

/// The three shapes a [`Description`] can take.
#[derive(Debug, Clone, Copy, PartialEq, Eq)]
pub enum DescriptionKind {
    Composit,
    Field,
    List,
}

/// Describes a configuration.
#[derive(Debug)]
pub enum Description {
    /// A composite type, e.g. a struct with fields.
    Composit(CompositDescription),
    /// A simple field that can be parsed from one value.
    Field(FieldDescription),
    /// A list of values.
    List(ListDescription),
}

/// A description for a composite type, e.g. a struct with fields.
#[derive(Debug)]
pub struct CompositDescription {
    pub field_name: &'static str,
    pub type_label: String,
    pub fields: Vec<Description>,
    pub has_default: bool,
    pub allow_unset: bool,
}

/// A description for a simple field that is parsed from one value.
#[derive(Debug)]
pub struct FieldDescription {
    pub field_name: &'static str,
    pub type_label: String,
    pub is_flag: bool,
    pub allow_unset: bool,
    pub has_default: bool,
    pub cmd_value_hint: ValueHint,
}

/// A description for a list of values.
#[derive(Debug)]
pub struct ListDescription {
    pub field_name: &'static str,
    pub type_label: String,
    pub inner_desc: Box<Description>,
    pub has_default: bool,
    pub key_is_int: bool,
}

impl Description {
    /// The kind of this description.
    pub open spec fn spec_kind(self) -> DescriptionKind {
        match self {
            Description::Composit(_) => DescriptionKind::Composit,
            Description::Field(_) => DescriptionKind::Field,
            Description::List(_) => DescriptionKind::List,
        }
    }

    pub open spec fn spec_name(self) -> &'static str {
        match self {
            Description::Composit(c) => c.field_name,
            Description::Field(f) => f.field_name,
            Description::List(l) => l.field_name,
        }
    }

    pub open spec fn spec_has_default(self) -> bool {
        match self {
            Description::Composit(c) => c.has_default,
            Description::Field(f) => f.has_default,
            Description::List(l) => l.has_default,
        }
    }

    pub open spec fn spec_allow_unset(self) -> bool {
        match self {
            Description::Composit(c) => c.allow_unset,
            Description::Field(f) => f.allow_unset,
            Description::List(_) => false,
        }
    }

    /// The description with `has_default` set and everything else kept.
    pub open spec fn spec_with_default(self) -> Description {
        match self {
            Description::Composit(c) => Description::Composit(CompositDescription { has_default: true, ..c }),
            Description::Field(f) => Description::Field(FieldDescription { has_default: true, ..f }),
            Description::List(l) => Description::List(ListDescription { has_default: true, ..l }),
        }
    }

    /// Returns the kind of this description.
    pub fn kind(&self) -> (r: DescriptionKind)
        ensures
            r == self.spec_kind(),
    {
        match self {
            Description::Composit(_) => DescriptionKind::Composit,
            Description::Field(_) => DescriptionKind::Field,
            Description::List(_) => DescriptionKind::List,
        }
    }

    /// Creates a [`Description`] that claims to have a default value.
    ///
    /// The caller must ensure that the corresponding configuration can provide a default value.
    pub fn with_default(self) -> (r: Self)
        ensures
            r == self.spec_with_default(),
    {
        match self {
            Description::Composit(composit) => Description::Composit(composit.with_default()),
            Description::Field(field) => Description::Field(field.with_default()),
            Description::List(list) => Description::List(list.with_default()),
        }
    }

    /// The name of the field, struct or enum.
    pub fn name(&self) -> (r: &'static str)
        ensures
            r == self.spec_name(),
    {
        match self {
            Description::Field(f) => f.field_name,
            Description::Composit(c) => c.field_name,
            Description::List(l) => l.field_name,
        }
    }

    /// Whether or not the configuration provides a default value.
    pub fn has_default(&self) -> (r: bool)
        ensures
            r == self.spec_has_default(),
    {
        match self {
            Description::Field(f) => f.has_default,
            Description::Composit(c) => c.has_default,
            Description::List(l) => l.has_default,
        }
    }

    /// Whether or not the configuration can be unset.
    pub fn allow_unset(&self) -> (r: bool)
        ensures
            r == self.spec_allow_unset(),
    {
        match self {
            Description::Field(f) => f.allow_unset,
            Description::Composit(c) => c.allow_unset,
            Description::List(_) => false,
        }
    }
}

impl CompositDescription {
    pub open spec fn spec_is_actionable(self) -> bool {
        self.has_default || self.allow_unset
    }

    /// The description with `has_default` set.
    pub fn with_default(self) -> (r: Self)
        ensures
            r == (CompositDescription { has_default: true, ..self }),
    {
        CompositDescription { has_default: true, ..self }
    }

    /// Returns `true` if the description describes a field that is actionable.
    pub fn is_actionable(&self) -> (r: bool)
        ensures
            r == self.spec_is_actionable(),
    {
        self.has_default || self.allow_unset
    }
}

impl FieldDescription {
    /// The description with `has_default` set.
    pub fn with_default(self) -> (r: Self)
        ensures
            r == (FieldDescription { has_default: true, ..self }),
    {
        FieldDescription { has_default: true, ..self }
    }
}

impl ListDescription {
    /// The description with `has_default` set.
    pub fn with_default(self) -> (r: Self)
        ensures
            r == (ListDescription { has_default: true, ..self }),
    {
        ListDescription { has_default: true, ..self }
    }
}

/// A field that a change can address, with the path from the top that leads to it.
#[derive(Debug)]
pub struct ActionableField<'a> {
    pub description: &'a Description,
    pub path: Vec<&'static str>,
}

/// The model of an actionable field: its description and its path.
pub open spec fn actionable_model<'a>(a: ActionableField<'a>) -> (Description, Seq<&'static str>) {
    (*a.description, a.path@)
}

/// Whether `i` is the first position in `fields` of a field named `name`.
pub open spec fn is_first_named(fields: Seq<Description>, name: Seq<char>, i: int) -> bool {
    &&& 0 <= i < fields.len()
    &&& fields[i].spec_name()@ == name
    &&& forall|j: int| 0 <= j < i ==> (#[trigger] fields[j]).spec_name()@ != name
}

/// The first field of `fields` named `name`, if there is one.
pub open spec fn first_named(fields: Seq<Description>, name: Seq<char>) -> Option<Description> {
    if exists|i: int| is_first_named(fields, name, i) {
        Some(fields[choose|i: int| is_first_named(fields, name, i)])
    } else {
        None
    }
}

/// The actionable fields of a description: a simple field or a list is itself actionable under
/// the empty path; a composite's are those of its fields, in order.
pub open spec fn actionable_of(d: Description) -> Seq<(Description, Seq<&'static str>)>
    decreases d,
{
    match d {
        Description::Composit(c) => {
            proof {
                broadcast use vstd::std_specs::vec::axiom_vec_decreases_to_view;
                assert(decreases_to!(d => c));
                assert(decreases_to!(c => c.fields));
                assert(decreases_to!(c.fields => c.fields@));
            }
            actionable_children(c.fields@)
        },
        _ => seq![(d, Seq::empty())],
    }
}

/// The actionable fields that a sequence of fields of a composite contributes: a simple field
/// or a list under its own name; a composite with the paths of its own actionable fields under
/// its name, then itself if it has a default or can be unset.
pub open spec fn actionable_children(fields: Seq<Description>) -> Seq<(Description, Seq<&'static str>)>
    decreases fields,
{
    if fields.len() == 0 {
        Seq::empty()
    } else {
        let field = fields.last();
        actionable_children(fields.drop_last()) + match field {
            Description::Field(f) => seq![(field, seq![f.field_name])],
            Description::List(l) => seq![(field, seq![l.field_name])],
            Description::Composit(c) => prefixed(c.field_name, actionable_of(field)) + if c.spec_is_actionable() {
                seq![(field, seq![c.field_name])]
            } else {
                Seq::empty()
            },
        }
    }
}

/// The actionable fields `s` with `name` put in front of each path.
pub open spec fn prefixed(name: &'static str, s: Seq<(Description, Seq<&'static str>)>) -> Seq<(Description, Seq<&'static str>)> {
    s.map_values(|e: (Description, Seq<&'static str>)| (e.0, seq![name] + e.1))
}

impl Description {
    /// Whether `path` leads, field by field, from this description to a description that exists:
    /// a composite, a simple field or a list (the empty path names this description itself).
    pub open spec fn spec_path_valid(self, path: Seq<Seq<char>>) -> bool
        decreases path.len(),
    {
        match self {
            Description::Composit(c) => path.len() == 0 || match first_named(c.fields@, path[0]) {
                Some(next) => next.spec_path_valid(path.skip(1)),
                None => false,
            },
            _ => path.len() == 0,
        }
    }

    /// Returns true if a path names a field (or the configuration itself, where it is empty).
    pub fn is_path_valid(&self, path: &[&str]) -> (r: bool)
        ensures
            r == self.spec_path_valid(path_view(path@)),
        decreases path.len(),
    {
        match self {
            Description::Composit(composit_description) => {
                if path.len() == 0 {
                    return true;
                }
                let next_field = match composit_description.field(path[0]) {
                    Some(next_field) => next_field,
                    None => {
                        return false;
                    },
                };
                let rest = vstd::slice::slice_subrange(path, 1, path.len());
                assert(path_view(rest@) =~= path_view(path@).skip(1));
                next_field.is_path_valid(rest)
            },
            Description::Field(_) | Description::List(_) => path.len() == 0,
        }
    }
}

impl CompositDescription {
    /// Returns a reference to the field's [`Description`] if the field exists.
    pub fn field<'d>(&'d self, name: &str) -> (r: Option<&'d Description>)
        ensures
            match r {
                Some(d) => first_named(self.fields@, name@) == Some(*d),
                None => first_named(self.fields@, name@) is None,
            },
    {
        let mut i: usize = 0;
        while i < self.fields.len()
            invariant
                i <= self.fields@.len(),
                forall|j: int| 0 <= j < i ==> (#[trigger] self.fields@[j]).spec_name()@ != name@,
            decreases self.fields@.len() - i,
        {
            if str_eq(self.fields[i].name(), name) {
                let ghost k = choose|k: int| is_first_named(self.fields@, name@, k);
                assert(is_first_named(self.fields@, name@, i as int));
                assert(k == i) by {
                    if k < i {
                        assert(self.fields@[k].spec_name()@ != name@);
                    } else if k > i {
                        assert(self.fields@[i as int].spec_name()@ != name@);
                    }
                }
                return Some(&self.fields[i]);
            }
            i += 1;
        }
        None
    }
}

/// `path` with `name` put in front.
fn prefix_path(name: &'static str, path: Vec<&'static str>) -> (r: Vec<&'static str>)
    ensures
        r@ == seq![name] + path@,
{
    let mut r: Vec<&'static str> = Vec::new();
    r.push(name);
    let mut rest = path;
    r.append(&mut rest);
    assert(r@ =~= seq![name] + path@);
    r
}

/// A one-element path.
fn single_path(name: &'static str) -> (r: Vec<&'static str>)
    ensures
        r@ == seq![name],
{
    let mut r: Vec<&'static str> = Vec::new();
    r.push(name);
    assert(r@ =~= seq![name]);
    r
}

impl Description {
    /// The fields that a change can address, each with its path from this description.
    ///
    /// A simple field is itself actionable under the empty path; for a composite these are the
    /// simple fields and lists among its fields, the actionable fields of the composites among
    /// them under their names, and those composites themselves where they have a default or can
    /// be unset.
    pub fn actionable_fields(&self) -> (r: Vec<ActionableField<'_>>)
        requires
            !(*self is List),
        ensures
            r@.map_values(|a: ActionableField<'_>| actionable_model(a)) == actionable_of(*self),
        decreases self,
    {
        let composite = match self {
            Description::Field(_) => {
                let mut r = Vec::new();
                r.push(ActionableField { description: self, path: Vec::new() });
                assert(r@.map_values(|a: ActionableField<'_>| actionable_model(a)) =~= actionable_of(*self));
                return r;
            },
            Description::Composit(composite) => composite,
            Description::List(_) => vstd::pervasive::unreached(),
        };
        let ghost fields = composite.fields@;
        let mut actionable: Vec<ActionableField<'_>> = Vec::new();
        let mut i: usize = 0;
        while i < composite.fields.len()
            invariant
                fields == composite.fields@,
                *self == Description::Composit(*composite),
                i <= fields.len(),
                actionable@.map_values(|a: ActionableField<'_>| actionable_model(a)) == actionable_children(fields.take(i as int)),
            decreases fields.len() - i,
        {
            let field = &composite.fields[i];
            let ghost before = actionable@.map_values(|a: ActionableField<'_>| actionable_model(a));
            assert(fields.take(i + 1).drop_last() =~= fields.take(i as int));
            assert(fields.take(i + 1).last() == *field);
            match field {
                Description::Field(f) => {
                    actionable.push(ActionableField { description: field, path: single_path(f.field_name) });
                },
                Description::List(l) => {
                    actionable.push(ActionableField { description: field, path: single_path(l.field_name) });
                },
                Description::Composit(c) => {
                    proof {
                        broadcast use vstd::std_specs::vec::axiom_vec_decreases_to_view;
                        assert(*composite == (*self)->Composit_0);
                        assert(decreases_to!(*self => (*self)->Composit_0));
                        assert(decreases_to!(*composite => composite.fields));
                        assert(decreases_to!(composite.fields => composite.fields@));
                        assert(decreases_to!(composite.fields@ => composite.fields@[i as int]));
                    }
                    let mut children = field.actionable_fields();
                    let ghost child_models = children@.map_values(|a: ActionableField<'_>| actionable_model(a));
                    let ghost pre = prefixed(c.field_name, child_models);
                    let ghost base = actionable@;
                    let mut k: usize = 0;
                    let count = children.len();
                    while children.len() > 0
                        invariant
                            k <= count,
                            count == child_models.len(),
                            children@.len() == count - k,
                            forall|j: int| 0 <= j < children@.len() ==> actionable_model(#[trigger] children@[j]) == child_models[k + j],
                            actionable@.len() == base.len() + k,
                            forall|j: int| 0 <= j < base.len() ==> #[trigger] actionable@[j] == base[j],
                            forall|j: int| base.len() <= j < base.len() + k ==> actionable_model(#[trigger] actionable@[j]) == pre[j - base.len()],
                            pre == prefixed(c.field_name, child_models),
                        decreases children@.len(),
                    {
                        let ghost old_children = children@;
                        let child = children.remove(0);
                        assert(actionable_model(old_children[0]) == child_models[k as int]);
                        assert forall|j: int| 0 <= j < children@.len() implies actionable_model(#[trigger] children@[j]) == child_models[k + 1 + j] by {
                            assert(children@[j] == old_children[j + 1]);
                        }
                        let path = prefix_path(c.field_name, child.path);
                        actionable.push(ActionableField { description: child.description, path });
                        k += 1;
                    }
                    assert(actionable@.map_values(|a: ActionableField<'_>| actionable_model(a)) =~= before + pre) by {
                        assert(before.len() == base.len());
                        assert(pre.len() == count);
                        assert forall|j: int| 0 <= j < actionable@.len() implies actionable_model(#[trigger] actionable@[j]) == (before + pre)[j] by {
                            if j < base.len() {
                                assert(actionable@[j] == base[j]);
                            }
                        }
                    }
                    if c.is_actionable() {
                        actionable.push(ActionableField { description: field, path: single_path(c.field_name) });
                    }
                },
            }
            assert(actionable@.map_values(|a: ActionableField<'_>| actionable_model(a)) =~= actionable_children(fields.take(i + 1)));
            i += 1;
        }
        assert(fields.take(fields.len() as int) =~= fields);
        actionable
    }
}

/// Whether two paths have the same segments.
pub fn same_path(a: &Vec<&'static str>, b: &[&str]) -> (r: bool)
    ensures
        r == (path_view(a@) == path_view(b@)),
{
    if a.len() != b.len() {
        assert(path_view(a@).len() != path_view(b@).len());
        return false;
    }
    let mut i: usize = 0;
    while i < a.len()
        invariant
            a@.len() == b@.len(),
            i <= a@.len(),
            forall|j: int| 0 <= j < i ==> a@[j]@ == b@[j]@,
        decreases a@.len() - i,
    {
        if !str_eq(a[i], b[i]) {
            assert(path_view(a@)[i as int] != path_view(b@)[i as int]);
            return false;
        }
        i += 1;
    }
    assert(path_view(a@) =~= path_view(b@));
    true
}

/// Whether `i` is the first position among `fields` of an actionable field with the path `path`.
pub open spec fn is_first_at_path(fields: Seq<(Description, Seq<&'static str>)>, path: Seq<Seq<char>>, i: int) -> bool {
    &&& 0 <= i < fields.len()
    &&& path_view(fields[i].1) == path
    &&& forall|j: int| 0 <= j < i ==> path_view((#[trigger] fields[j]).1) != path
}

/// Whether some actionable field of `d` has the path `path`.
pub open spec fn has_actionable_path(d: Description, path: Seq<Seq<char>>) -> bool {
    exists|i: int| 0 <= i < actionable_of(d).len() && path_view(#[trigger] actionable_of(d)[i].1) == path
}

impl Description {
    /// The first actionable field of this description whose path is `path`.
    pub fn actionable_field(&self, path: &[&str]) -> (r: Option<ActionableField<'_>>)
        requires
            !(*self is List),
        ensures
            r is Some <==> has_actionable_path(*self, path_view(path@)),
            r matches Some(a) ==> exists|i: int|
                is_first_at_path(actionable_of(*self), path_view(path@), i) && #[trigger] actionable_of(*self)[i] == actionable_model(a),
    {
        let mut fields = self.actionable_fields();
        let ghost all = actionable_of(*self);
        let ghost want = path_view(path@);
        let mut i: usize = 0;
        while i < fields.len()
            invariant
                fields@.map_values(|a: ActionableField<'_>| actionable_model(a)) == all,
                all == actionable_of(*self),
                want == path_view(path@),
                i <= all.len(),
                forall|j: int| 0 <= j < i ==> path_view((#[trigger] all[j]).1) != want,
            decreases all.len() - i,
        {
            assert(all[i as int] == actionable_model(fields@[i as int]));
            if same_path(&fields[i].path, path) {
                let found = fields.remove(i);
                assert(is_first_at_path(all, want, i as int));
                return Some(found);
            }
            i += 1;
        }
        assert forall|j: int| 0 <= j < all.len() implies path_view(#[trigger] all[j].1) != want by {}
        None
    }
}

impl From<CompositDescription> for Description {
    fn from(value: CompositDescription) -> (r: Self) {
        Description::Composit(value)
    }
}

impl vstd::std_specs::convert::FromSpecImpl<CompositDescription> for Description {
    open spec fn obeys_from_spec() -> bool {
        true
    }

    open spec fn from_spec(value: CompositDescription) -> Description {
        Description::Composit(value)
    }
}

impl From<FieldDescription> for Description {
    fn from(value: FieldDescription) -> (r: Self) {
        Description::Field(value)
    }
}

impl vstd::std_specs::convert::FromSpecImpl<FieldDescription> for Description {
    open spec fn obeys_from_spec() -> bool {
        true
    }

    open spec fn from_spec(value: FieldDescription) -> Description {
        Description::Field(value)
    }
}

impl From<ListDescription> for Description {
    fn from(value: ListDescription) -> (r: Self) {
        Description::List(value)
    }
}

impl vstd::std_specs::convert::FromSpecImpl<ListDescription> for Description {
    open spec fn obeys_from_spec() -> bool {
        true
    }

    open spec fn from_spec(value: ListDescription) -> Description {
        Description::List(value)
    }
}

} // verus!
