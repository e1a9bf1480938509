use vstd::prelude::*;

use crate::description::{Description, DescriptionKind};
use crate::error::{NotSupported, ParseError, VerbError};
use crate::verb::ChangeVerb;

verus! {

/// The segments of a field path, each by its characters.
pub open spec fn path_view(path: Seq<&str>) -> Seq<Seq<char>> {
    path.map_values(|s: &str| s@)
}

/// Whether `label` is the known label `known`, where one is known.
pub open spec fn label_matches(label: Seq<char>, known: Option<Seq<char>>) -> bool {
    known matches Some(l) ==> label == l
}

/// A value that can be changed by a [`CongenChange`] and described by a [`Description`].
///
/// Each implementation in this library states what its operations do through the spec
/// functions below, over a mathematical model of the value. A type that users implement the
/// trait for (as a derive would) need not give them; nothing is then known of its operations.
pub trait Configuration: Sized {
    /// The [`CongenChange`] associated with this configuration.
    type CongenChange: CongenChange<Configuration = Self>;

    /// The mathematical model of a value.
    type Model;

    open spec fn model(self) -> Self::Model {
        arbitrary()
    }

    /// The name of this type, for users to read, where the library knows it; the name of a
    /// type that users define is theirs to give.
    open spec fn spec_type_label() -> Option<Seq<char>> {
        arbitrary()
    }

    /// The kind of description this type gives.
    open spec fn spec_kind() -> DescriptionKind {
        arbitrary()
    }

    /// Whether `description` returns normally for this type.
    open spec fn spec_describable() -> bool {
        arbitrary()
    }

    /// `d` is a description of this type under the field name `field_name`.
    open spec fn spec_describes(field_name: &'static str, d: Description) -> bool {
        arbitrary()
    }

    /// The model of the default value, where the type has one.
    open spec fn spec_default() -> Option<Self::Model> {
        arbitrary()
    }

    /// Whether applying `change` with `default` to a value of model `m` returns normally.
    open spec fn spec_apply_defined(m: Self::Model, change: Self::CongenChange, default: Option<Self::Model>) -> bool {
        arbitrary()
    }

    /// The model of the value after `change` was applied, with `default` at hand, to a value of model `m`.
    open spec fn spec_apply(m: Self::Model, change: Self::CongenChange, default: Option<Self::Model>) -> Self::Model {
        arbitrary()
    }

    /// Applies `change` to `self`.
    fn apply_change(&mut self, change: Self::CongenChange)
        requires
            Self::spec_apply_defined(old(self).model(), change, None),
        ensures
            final(self).model() == Self::spec_apply(old(self).model(), change, None),
    {
        self.apply_change_with_default(change, None)
    }

    /// Applies `change` to `self`, with a `default` value at hand for when `self` holds nothing
    /// that the change could be applied to.
    fn apply_change_with_default(&mut self, change: Self::CongenChange, default: Option<Self>)
        requires
            Self::spec_apply_defined(old(self).model(), change, (match default { Some(d) => Some(d.model()), None => None })),
        ensures
            final(self).model() == Self::spec_apply(old(self).model(), change, (match default { Some(d) => Some(d.model()), None => None })),
    ;

    /// Describes this configuration under the name `field_name`.
    fn description(field_name: &'static str) -> (r: Description)
        requires
            Self::spec_describable(),
        ensures
            Self::spec_describes(field_name, r),
            r.spec_kind() == Self::spec_kind(),
    ;

    /// Returns `Ok(default_value)` if this type has a default.
    fn default() -> (r: Result<Self, NotSupported>)
        ensures
            r is Ok <==> Self::spec_default() is Some,
            r matches Ok(v) ==> Some(v.model()) == Self::spec_default(),
    ;

    /// A copy of `self`.
    fn duplicate(&self) -> (r: Self)
        ensures
            r.model() == self.model(),
    ;

    /// The name of this type, for users to read.
    fn type_label() -> (r: String)
        ensures
            Self::spec_type_label() matches Some(label) ==> r@ == label,
    ;
}

/// A change of a [`Configuration`].
pub trait CongenChange: Sized {
    /// The configuration that this change applies to.
    type Configuration;

    /// The change that changes nothing.
    open spec fn spec_empty() -> Self {
        arbitrary()
    }

    /// `r` is what `default` returns.
    open spec fn spec_defaults(r: Result<Self, NotSupported>) -> bool {
        arbitrary()
    }

    /// `r` is what `parse` returns for `input`.
    open spec fn spec_parses(input: Seq<char>, r: Result<Result<Self, ParseError>, NotSupported>) -> bool {
        arbitrary()
    }

    /// Whether `unwrap_field` returns normally on `self`.
    open spec fn spec_unwrap_defined(self) -> bool {
        arbitrary()
    }

    /// What `unwrap_field` returns for `self`.
    open spec fn spec_unwrap_field(self) -> Result<Self::Configuration, Self> {
        arbitrary()
    }

    /// `r` is the change that `self` becomes when `change` is applied to it.
    open spec fn spec_merged(self, change: Self, r: Self) -> bool {
        arbitrary()
    }

    /// `r` is what `set_value` returns for `value`.
    open spec fn spec_sets_value(value: Self::Configuration, r: Result<Self, NotSupported>) -> bool {
        arbitrary()
    }

    /// Whether `from_path_and_verb` returns normally for `path` and `verb`.
    open spec fn spec_from_path_defined(path: Seq<Seq<char>>, verb: ChangeVerb) -> bool {
        arbitrary()
    }

    /// `r` is what `from_path_and_verb` returns for `path` and `verb`.
    open spec fn spec_from_path(path: Seq<Seq<char>>, verb: ChangeVerb, r: Result<Self, VerbError>) -> bool {
        arbitrary()
    }

    /// An empty change: applying it has no effect.
    fn empty() -> (r: Self)
        ensures
            r == Self::spec_empty(),
    ;

    /// The change that sets the default value, where the type has one.
    fn default() -> (r: Result<Self, NotSupported>)
        ensures
            Self::spec_defaults(r),
    ;

    /// Parses a simple field value.
    ///
    /// Returns `Err(NotSupported)` for complex structs that can't be directly parsed from a
    /// string. Otherwise it returns either `Ok(Ok(parsed_value))` or `Ok(Err(parse_error))`.
    fn parse(input: &str) -> (r: Result<Result<Self, ParseError>, NotSupported>)
        ensures
            Self::spec_parses(input@, r),
    ;

    /// The configuration value that this change sets outright, or the change itself.
    fn unwrap_field(self) -> (r: Result<Self::Configuration, Self>)
        requires
            self.spec_unwrap_defined(),
        ensures
            r == self.spec_unwrap_field(),
    ;

    /// Combines two changes: applying the result is the same as applying `self` and then
    /// `change`.
    fn apply_change(&mut self, change: Self)
        ensures
            old(self).spec_merged(change, *final(self)),
    ;

    /// The change that sets the whole value to `value`, where changes of this kind can say so.
    fn set_value(value: Self::Configuration) -> (r: Result<Self, NotSupported>)
        ensures
            Self::spec_sets_value(value, r),
    ;

    /// Creates a change that fills the `path` based on the verb.
    ///
    /// An empty path refers to `Self`, while each path entry refers to a subfield relative to
    /// the one before.
    fn from_path_and_verb(path: &[&str], verb: ChangeVerb) -> (r: Result<Self, VerbError>)
        requires
            Self::spec_from_path_defined(path_view(path@), verb),
        ensures
            Self::spec_from_path(path_view(path@), verb, r),
    ;
}

} // verus!

verus! {

/// Turns the outcome of a parse into a change or a [`VerbError`].
pub fn lift_parse<C>(parsed: Result<Result<C, ParseError>, NotSupported>) -> (r: Result<C, VerbError>)
    ensures
        match parsed {
            Ok(Ok(c)) => r == Ok::<C, VerbError>(c),
            Ok(Err(e)) => r == Err::<C, VerbError>(VerbError::ParseError(e)),
            Err(n) => r == Err::<C, VerbError>(VerbError::NotSupported(n)),
        },
{
    match parsed {
        Ok(Ok(c)) => Ok(c),
        Ok(Err(e)) => Err(VerbError::ParseError(e)),
        Err(n) => Err(VerbError::NotSupported(n)),
    }
}

} // verus!
