use vstd::prelude::*;

use crate::config::{Configuration, CongenChange};
use crate::description::{Description, DescriptionKind, FieldDescription, ValueHint};
use crate::error::{NotSupported, ParseError, VerbError};
use crate::primitives::is_field_description;
use crate::verb::ChangeVerb;

verus! {

/// A configuration that takes one of a fixed set of named variants, such as an enum that
/// command lines know by the names of its variants.
///
/// Every type with this trait is a [`Configuration`] whose change is a [`ValueEnumChange`].
pub trait ValueEnumConfiguration: Copy {
    /// What `from_variant_name` gives for `input`: the variant it names, or a message.
    open spec fn spec_from_variant_name(input: Seq<char>) -> Result<Self, Seq<char>> {
        arbitrary()
    }

    /// Parses a variant from its name, or returns a message that says why it could not; the
    /// same input always gives the same outcome.
    fn from_variant_name(input: &str) -> (r: Result<Self, String>)
        ensures
            match r {
                Ok(v) => Self::spec_from_variant_name(input@) == Ok::<Self, Seq<char>>(v),
                Err(m) => Self::spec_from_variant_name(input@) == Err::<Self, Seq<char>>(m@),
            },
    ;

    /// The name of the type that `label` gives.
    open spec fn spec_label() -> Seq<char> {
        arbitrary()
    }

    /// The name of the type, for users to read: the same text on every call.
    fn label() -> (r: String)
        ensures
            r@ == Self::spec_label(),
    ;
}

/// [`CongenChange`] for a [`ValueEnumConfiguration`].
#[derive(Debug, Clone, Default)]
pub enum ValueEnumChange<T> {
    /// Set the value to this variant.
    Value(T),
    /// Leave the value as it is.
    #[default]
    NoChange,
}

impl<T: ValueEnumConfiguration> Configuration for T {
    type CongenChange = ValueEnumChange<T>;

    type Model = T;

    open spec fn model(self) -> T {
        self
    }

    open spec fn spec_type_label() -> Option<Seq<char>> {
        Some(T::spec_label())
    }

    open spec fn spec_kind() -> DescriptionKind {
        DescriptionKind::Field
    }

    open spec fn spec_describable() -> bool {
        true
    }

    open spec fn spec_describes(field_name: &'static str, d: Description) -> bool {
        is_field_description(d, field_name, Some(T::spec_label()), false, false, ValueHint::Other)
    }

    open spec fn spec_default() -> Option<T> {
        None
    }

    open spec fn spec_apply_defined(m: T, change: ValueEnumChange<T>, default: Option<T>) -> bool {
        true
    }

    open spec fn spec_apply(m: T, change: ValueEnumChange<T>, default: Option<T>) -> T {
        match change {
            ValueEnumChange::Value(value) => value,
            ValueEnumChange::NoChange => m,
        }
    }

    fn apply_change_with_default(&mut self, change: ValueEnumChange<T>, _default: Option<T>) {
        if let ValueEnumChange::Value(value) = change {
            *self = value;
        }
    }

    fn description(field_name: &'static str) -> (r: Description) {
        Description::Field(
            FieldDescription {
                field_name,
                type_label: Self::type_label(),
                is_flag: false,
                allow_unset: false,
                has_default: false,
                cmd_value_hint: ValueHint::Other,
            },
        )
    }

    fn default() -> (r: Result<T, NotSupported>) {
        Err(NotSupported)
    }

    fn duplicate(&self) -> (r: T) {
        *self
    }

    fn type_label() -> (r: String) {
        T::label()
    }
}

impl<T: ValueEnumConfiguration> ValueEnumChange<T> {
    /// Turns the outcome of parsing a variant name into the outcome of `parse`: a variant
    /// becomes the change that sets it, a message becomes a [`ParseError`].
    pub fn from_variant_result(parsed: Result<T, String>) -> (r: Result<Result<Self, ParseError>, NotSupported>)
        ensures
            match parsed {
                Ok(value) => r == Ok::<Result<Self, ParseError>, NotSupported>(Ok(ValueEnumChange::Value(value))),
                Err(message) => r == Ok::<Result<Self, ParseError>, NotSupported>(Err(ParseError(message))),
            },
    {
        match parsed {
            Ok(value) => Ok(Ok(ValueEnumChange::Value(value))),
            Err(message) => Ok(Err(ParseError(message))),
        }
    }
}

impl<T: ValueEnumConfiguration> CongenChange for ValueEnumChange<T> {
    type Configuration = T;

    open spec fn spec_empty() -> Self {
        ValueEnumChange::NoChange
    }

    open spec fn spec_defaults(r: Result<Self, NotSupported>) -> bool {
        r == Err::<Self, NotSupported>(NotSupported)
    }

    /// `parse` sets the variant that the type's own parser finds for the input, or reports the
    /// parser's message as a parse error.
    open spec fn spec_parses(input: Seq<char>, r: Result<Result<Self, ParseError>, NotSupported>) -> bool {
        match T::spec_from_variant_name(input) {
            Ok(v) => r == Ok::<Result<Self, ParseError>, NotSupported>(Ok(ValueEnumChange::Value(v))),
            Err(m) => r matches Ok(Err(e)) && e.0@ == m,
        }
    }

    open spec fn spec_unwrap_defined(self) -> bool {
        true
    }

    open spec fn spec_unwrap_field(self) -> Result<T, Self> {
        match self {
            ValueEnumChange::Value(value) => Ok(value),
            ValueEnumChange::NoChange => Err(ValueEnumChange::NoChange),
        }
    }

    open spec fn spec_sets_value(value: T, r: Result<Self, NotSupported>) -> bool {
        r == Ok::<Self, NotSupported>(ValueEnumChange::Value(value))
    }

    open spec fn spec_merged(self, change: Self, r: Self) -> bool {
        r == if change is Value { change } else { self }
    }

    open spec fn spec_from_path_defined(path: Seq<Seq<char>>, verb: ChangeVerb) -> bool {
        path.len() == 0
    }

    open spec fn spec_from_path(path: Seq<Seq<char>>, verb: ChangeVerb, r: Result<Self, VerbError>) -> bool {
        match verb {
            ChangeVerb::SetValue(value) => match T::spec_from_variant_name(value@) {
                Ok(v) => r == Ok::<Self, VerbError>(ValueEnumChange::Value(v)),
                Err(m) => r matches Err(VerbError::ParseError(e)) && e.0@ == m,
            },
            _ => r == Err::<Self, VerbError>(VerbError::UnsupportedVerb(verb)),
        }
    }

    fn empty() -> (r: Self) {
        ValueEnumChange::NoChange
    }

    fn default() -> (r: Result<Self, NotSupported>) {
        Err(NotSupported)
    }

    fn set_value(value: T) -> (r: Result<Self, NotSupported>) {
        Ok(ValueEnumChange::Value(value))
    }

    fn parse(input: &str) -> (r: Result<Result<Self, ParseError>, NotSupported>) {
        Self::from_variant_result(T::from_variant_name(input))
    }

    fn unwrap_field(self) -> (r: Result<T, Self>) {
        match self {
            ValueEnumChange::Value(value) => Ok(value),
            ValueEnumChange::NoChange => Err(ValueEnumChange::NoChange),
        }
    }

    fn apply_change(&mut self, change: Self) {
        if let ValueEnumChange::Value(new_change) = change {
            *self = ValueEnumChange::Value(new_change);
        }
    }

    fn from_path_and_verb(path: &[&str], verb: ChangeVerb) -> (r: Result<Self, VerbError>) {
        match verb {
            ChangeVerb::SetValue(unparsed) => match Self::parse(unparsed.as_str()) {
                Ok(Ok(change)) => Ok(change),
                Ok(Err(e)) => Err(VerbError::ParseError(e)),
                Err(n) => Err(VerbError::NotSupported(n)),
            },
            other => Err(VerbError::UnsupportedVerb(other)),
        }
    }
}

} // verus!
