use vstd::prelude::*;

use crate::config::{lift_parse, Configuration, CongenChange};
use crate::description::{Description, DescriptionKind, FieldDescription, ValueHint};
use crate::error::{NotSupported, ParseError, VerbError};
use crate::verb::ChangeVerb;

verus! {

/// Whether `c` is one of the ASCII digits `0` to `9`.
pub open spec fn is_ascii_digit(c: char) -> bool {
    '0' <= c && c <= '9'
}

/// The number that a sequence of decimal digits writes.
pub open spec fn decimal_value(digits: Seq<char>) -> nat
    decreases digits.len(),
{
    if digits.len() == 0 {
        0
    } else {
        decimal_value(digits.drop_last()) * 10 + ((digits.last() as int) - ('0' as int)) as nat
    }
}

/// What `u32::from_str` accepts: an optional `+`, then one or more decimal digits that write a
/// number no greater than `u32::MAX`; and the number.
pub open spec fn spec_parse_u32(input: Seq<char>) -> Option<u32> {
    let digits = if input.len() > 0 && input[0] == '+' { input.skip(1) } else { input };
    if digits.len() > 0 && (forall|i: int| 0 <= i < digits.len() ==> is_ascii_digit(#[trigger] digits[i]))
        && decimal_value(digits) <= u32::MAX {
        Some(decimal_value(digits) as u32)
    } else {
        None
    }
}

/// What `bool::from_str` accepts: exactly `true` or `false`.
pub open spec fn spec_parse_bool(input: Seq<char>) -> Option<bool> {
    if input == "true"@ {
        Some(true)
    } else if input == "false"@ {
        Some(false)
    } else {
        None
    }
}

/// The message of the error that `u32::from_str` returns for `input`.
pub uninterp spec fn u32_parse_message(input: Seq<char>) -> Seq<char>;

/// The message of the error that `bool::from_str` returns for `input`.
pub uninterp spec fn bool_parse_message(input: Seq<char>) -> Seq<char>;

/// Calls `u32::from_str`: `Ok` with the number where std's documentation says that the text is
/// accepted (see [`spec_parse_u32`]), else the error's message (by `to_string`).
#[verifier::external_body]
fn u32_from_str(input: &str) -> (r: Result<u32, String>)
    ensures
        match r {
            Ok(v) => spec_parse_u32(input@) == Some(v),
            Err(m) => spec_parse_u32(input@) is None && m@ == u32_parse_message(input@),
        },
{
    match <u32 as std::str::FromStr>::from_str(input) {
        Ok(v) => Ok(v),
        Err(e) => Err(e.to_string()),
    }
}

/// Calls `bool::from_str`: `Ok` for exactly `true` and `false`, else the error's message
/// (by `to_string`).
#[verifier::external_body]
fn bool_from_str(input: &str) -> (r: Result<bool, String>)
    ensures
        match r {
            Ok(v) => spec_parse_bool(input@) == Some(v),
            Err(m) => spec_parse_bool(input@) is None && m@ == bool_parse_message(input@),
        },
{
    match <bool as std::str::FromStr>::from_str(input) {
        Ok(v) => Ok(v),
        Err(e) => Err(e.to_string()),
    }
}

/// `d` describes a simple field named `field_name` with the given label, flags and hint.
pub open spec fn is_field_description(
    d: Description,
    field_name: &'static str,
    label: Option<Seq<char>>,
    is_flag: bool,
    allow_unset: bool,
    hint: ValueHint,
) -> bool {
    &&& d matches Description::Field(f)
    &&& f.field_name == field_name
    &&& crate::config::label_matches(f.type_label@, label)
    &&& f.is_flag == is_flag
    &&& f.allow_unset == allow_unset
    &&& !f.has_default
    &&& f.cmd_value_hint == hint
}

impl Configuration for bool {
    type CongenChange = Option<bool>;

    type Model = bool;

    open spec fn model(self) -> bool {
        self
    }

    open spec fn spec_type_label() -> Option<Seq<char>> {
        Some("bool"@)
    }

    open spec fn spec_kind() -> DescriptionKind {
        DescriptionKind::Field
    }

    open spec fn spec_describable() -> bool {
        true
    }

    open spec fn spec_describes(field_name: &'static str, d: Description) -> bool {
        is_field_description(d, field_name, Some("bool"@), true, true, ValueHint::Unknown)
    }

    open spec fn spec_default() -> Option<bool> {
        Some(false)
    }

    open spec fn spec_apply_defined(m: bool, change: Option<bool>, default: Option<bool>) -> bool {
        true
    }

    open spec fn spec_apply(m: bool, change: Option<bool>, default: Option<bool>) -> bool {
        match change {
            Some(new) => new,
            None => m,
        }
    }

    fn apply_change_with_default(&mut self, change: Option<bool>, _default: Option<bool>) {
        if let Some(new) = change {
            *self = new;
        }
    }

    fn description(field_name: &'static str) -> (r: Description) {
        Description::Field(
            FieldDescription {
                field_name,
                type_label: Self::type_label(),
                is_flag: true,
                allow_unset: true,
                has_default: false,
                cmd_value_hint: ValueHint::Unknown,
            },
        )
    }

    fn default() -> (r: Result<bool, NotSupported>) {
        Ok(false)
    }

    fn duplicate(&self) -> (r: bool) {
        *self
    }

    fn type_label() -> (r: String) {
        "bool".to_owned()
    }
}

impl CongenChange for Option<bool> {
    type Configuration = bool;

    open spec fn spec_empty() -> Self {
        None
    }

    open spec fn spec_defaults(r: Result<Self, NotSupported>) -> bool {
        r == Err::<Self, NotSupported>(NotSupported)
    }

    open spec fn spec_parses(input: Seq<char>, r: Result<Result<Self, ParseError>, NotSupported>) -> bool {
        match spec_parse_bool(input) {
            Some(v) => r == Ok::<Result<Self, ParseError>, NotSupported>(Ok(Some(v))),
            None => r matches Ok(Err(e)) && e.0@ == bool_parse_message(input),
        }
    }

    open spec fn spec_unwrap_defined(self) -> bool {
        self is Some
    }

    open spec fn spec_unwrap_field(self) -> Result<bool, Self> {
        Ok(self->0)
    }

    open spec fn spec_sets_value(value: bool, r: Result<Self, NotSupported>) -> bool {
        r == Ok::<Self, NotSupported>(Some(value))
    }

    open spec fn spec_merged(self, change: Self, r: Self) -> bool {
        r == if change is Some { change } else { self }
    }

    open spec fn spec_from_path_defined(path: Seq<Seq<char>>, verb: ChangeVerb) -> bool {
        path.len() == 0
    }

    open spec fn spec_from_path(path: Seq<Seq<char>>, verb: ChangeVerb, r: Result<Self, VerbError>) -> bool {
        match verb {
            ChangeVerb::SetValue(unparsed) => match spec_parse_bool(unparsed@) {
                Some(v) => r == Ok::<Self, VerbError>(Some(v)),
                None => r matches Err(VerbError::ParseError(e)) && e.0@ == bool_parse_message(unparsed@),
            },
            ChangeVerb::SetFlag => r == Ok::<Self, VerbError>(Some(true)),
            ChangeVerb::Unset => r == Ok::<Self, VerbError>(Some(false)),
            ChangeVerb::UseDefault => r == Ok::<Self, VerbError>(Some(false)),
            ChangeVerb::List(_) => r == Err::<Self, VerbError>(VerbError::UnsupportedVerb(verb)),
        }
    }

    fn empty() -> (r: Self) {
        None
    }

    fn default() -> (r: Result<Self, NotSupported>) {
        Err(NotSupported)
    }

    fn set_value(value: bool) -> (r: Result<Self, NotSupported>) {
        Ok(Some(value))
    }

    fn parse(input: &str) -> (r: Result<Result<Self, ParseError>, NotSupported>) {
        match bool_from_str(input) {
            Ok(value) => Ok(Ok(Some(value))),
            Err(message) => Ok(Err(ParseError(message))),
        }
    }

    fn unwrap_field(self) -> (r: Result<bool, Self>) {
        Ok(self.unwrap())
    }

    fn apply_change(&mut self, change: Self) {
        if let Some(new_change) = change {
            *self = Some(new_change);
        }
    }

    fn from_path_and_verb(path: &[&str], verb: ChangeVerb) -> (r: Result<Self, VerbError>) {
        match verb {
            ChangeVerb::SetValue(unparsed) => lift_parse(Self::parse(unparsed.as_str())),
            ChangeVerb::SetFlag => Ok(Some(true)),
            ChangeVerb::Unset => Ok(Some(false)),
            ChangeVerb::UseDefault => match <bool as Configuration>::default() {
                Ok(value) => Ok(Some(value)),
                Err(n) => Err(VerbError::NotSupported(n)),
            },
            ChangeVerb::List(list) => Err(VerbError::UnsupportedVerb(ChangeVerb::List(list))),
        }
    }
}

impl Configuration for String {
    type CongenChange = Option<String>;

    type Model = Seq<char>;

    open spec fn model(self) -> Seq<char> {
        self@
    }

    open spec fn spec_type_label() -> Option<Seq<char>> {
        Some("alloc::string::String"@)
    }

    open spec fn spec_kind() -> DescriptionKind {
        DescriptionKind::Field
    }

    open spec fn spec_describable() -> bool {
        true
    }

    open spec fn spec_describes(field_name: &'static str, d: Description) -> bool {
        is_field_description(d, field_name, Some("alloc::string::String"@), false, false, ValueHint::Unknown)
    }

    open spec fn spec_default() -> Option<Seq<char>> {
        None
    }

    open spec fn spec_apply_defined(m: Seq<char>, change: Option<String>, default: Option<Seq<char>>) -> bool {
        true
    }

    open spec fn spec_apply(m: Seq<char>, change: Option<String>, default: Option<Seq<char>>) -> Seq<char> {
        match change {
            Some(value) => value@,
            None => m,
        }
    }

    fn apply_change_with_default(&mut self, change: Option<String>, _default: Option<String>) {
        if let Some(value) = change {
            *self = value;
        }
    }

    fn description(field_name: &'static str) -> (r: Description) {
        Description::Field(
            FieldDescription {
                field_name,
                type_label: Self::type_label(),
                is_flag: false,
                allow_unset: false,
                has_default: false,
                cmd_value_hint: ValueHint::Unknown,
            },
        )
    }

    fn default() -> (r: Result<String, NotSupported>) {
        Err(NotSupported)
    }

    fn duplicate(&self) -> (r: String) {
        self.clone()
    }

    fn type_label() -> (r: String) {
        "alloc::string::String".to_owned()
    }
}

impl CongenChange for Option<String> {
    type Configuration = String;

    open spec fn spec_empty() -> Self {
        None
    }

    open spec fn spec_defaults(r: Result<Self, NotSupported>) -> bool {
        r == Err::<Self, NotSupported>(NotSupported)
    }

    open spec fn spec_parses(input: Seq<char>, r: Result<Result<Self, ParseError>, NotSupported>) -> bool {
        r matches Ok(Ok(Some(value))) && value@ == input
    }

    open spec fn spec_unwrap_defined(self) -> bool {
        self is Some
    }

    open spec fn spec_unwrap_field(self) -> Result<String, Self> {
        Ok(self->0)
    }

    open spec fn spec_sets_value(value: String, r: Result<Self, NotSupported>) -> bool {
        r == Ok::<Self, NotSupported>(Some(value))
    }

    open spec fn spec_merged(self, change: Self, r: Self) -> bool {
        r == if change is Some { change } else { self }
    }

    open spec fn spec_from_path_defined(path: Seq<Seq<char>>, verb: ChangeVerb) -> bool {
        path.len() == 0
    }

    open spec fn spec_from_path(path: Seq<Seq<char>>, verb: ChangeVerb, r: Result<Self, VerbError>) -> bool {
        match verb {
            ChangeVerb::SetValue(unparsed) => r matches Ok(Some(value)) && value@ == unparsed@,
            _ => r == Err::<Self, VerbError>(VerbError::UnsupportedVerb(verb)),
        }
    }

    fn empty() -> (r: Self) {
        None
    }

    fn default() -> (r: Result<Self, NotSupported>) {
        Err(NotSupported)
    }

    fn set_value(value: String) -> (r: Result<Self, NotSupported>) {
        Ok(Some(value))
    }

    fn parse(input: &str) -> (r: Result<Result<Self, ParseError>, NotSupported>) {
        Ok(Ok(Some(input.to_owned())))
    }

    fn unwrap_field(self) -> (r: Result<String, Self>) {
        Ok(self.unwrap())
    }

    fn apply_change(&mut self, change: Self) {
        if let Some(new_change) = change {
            *self = Some(new_change);
        }
    }

    fn from_path_and_verb(path: &[&str], verb: ChangeVerb) -> (r: Result<Self, VerbError>) {
        match verb {
            ChangeVerb::SetValue(unparsed) => lift_parse(Self::parse(unparsed.as_str())),
            other => Err(VerbError::UnsupportedVerb(other)),
        }
    }
}

impl Configuration for u32 {
    type CongenChange = Option<u32>;

    type Model = u32;

    open spec fn model(self) -> u32 {
        self
    }

    open spec fn spec_type_label() -> Option<Seq<char>> {
        Some("u32"@)
    }

    open spec fn spec_kind() -> DescriptionKind {
        DescriptionKind::Field
    }

    open spec fn spec_describable() -> bool {
        true
    }

    open spec fn spec_describes(field_name: &'static str, d: Description) -> bool {
        is_field_description(d, field_name, Some("u32"@), false, false, ValueHint::Other)
    }

    open spec fn spec_default() -> Option<u32> {
        None
    }

    open spec fn spec_apply_defined(m: u32, change: Option<u32>, default: Option<u32>) -> bool {
        true
    }

    open spec fn spec_apply(m: u32, change: Option<u32>, default: Option<u32>) -> u32 {
        match change {
            Some(value) => value,
            None => m,
        }
    }

    fn apply_change_with_default(&mut self, change: Option<u32>, _default: Option<u32>) {
        if let Some(value) = change {
            *self = value;
        }
    }

    fn description(field_name: &'static str) -> (r: Description) {
        Description::Field(
            FieldDescription {
                field_name,
                type_label: Self::type_label(),
                is_flag: false,
                allow_unset: false,
                has_default: false,
                cmd_value_hint: ValueHint::Other,
            },
        )
    }

    fn default() -> (r: Result<u32, NotSupported>) {
        Err(NotSupported)
    }

    fn duplicate(&self) -> (r: u32) {
        *self
    }

    fn type_label() -> (r: String) {
        "u32".to_owned()
    }
}

impl CongenChange for Option<u32> {
    type Configuration = u32;

    open spec fn spec_empty() -> Self {
        None
    }

    open spec fn spec_defaults(r: Result<Self, NotSupported>) -> bool {
        r == Err::<Self, NotSupported>(NotSupported)
    }

    open spec fn spec_parses(input: Seq<char>, r: Result<Result<Self, ParseError>, NotSupported>) -> bool {
        match spec_parse_u32(input) {
            Some(v) => r == Ok::<Result<Self, ParseError>, NotSupported>(Ok(Some(v))),
            None => r matches Ok(Err(e)) && e.0@ == u32_parse_message(input),
        }
    }

    open spec fn spec_unwrap_defined(self) -> bool {
        self is Some
    }

    open spec fn spec_unwrap_field(self) -> Result<u32, Self> {
        Ok(self->0)
    }

    open spec fn spec_sets_value(value: u32, r: Result<Self, NotSupported>) -> bool {
        r == Ok::<Self, NotSupported>(Some(value))
    }

    open spec fn spec_merged(self, change: Self, r: Self) -> bool {
        r == if change is Some { change } else { self }
    }

    open spec fn spec_from_path_defined(path: Seq<Seq<char>>, verb: ChangeVerb) -> bool {
        path.len() == 0
    }

    open spec fn spec_from_path(path: Seq<Seq<char>>, verb: ChangeVerb, r: Result<Self, VerbError>) -> bool {
        match verb {
            ChangeVerb::SetValue(unparsed) => match spec_parse_u32(unparsed@) {
                Some(v) => r == Ok::<Self, VerbError>(Some(v)),
                None => r matches Err(VerbError::ParseError(e)) && e.0@ == u32_parse_message(unparsed@),
            },
            _ => r == Err::<Self, VerbError>(VerbError::UnsupportedVerb(verb)),
        }
    }

    fn empty() -> (r: Self) {
        None
    }

    fn default() -> (r: Result<Self, NotSupported>) {
        Err(NotSupported)
    }

    fn set_value(value: u32) -> (r: Result<Self, NotSupported>) {
        Ok(Some(value))
    }

    fn parse(input: &str) -> (r: Result<Result<Self, ParseError>, NotSupported>) {
        match u32_from_str(input) {
            Ok(value) => Ok(Ok(Some(value))),
            Err(message) => Ok(Err(ParseError(message))),
        }
    }

    fn unwrap_field(self) -> (r: Result<u32, Self>) {
        Ok(self.unwrap())
    }

    fn apply_change(&mut self, change: Self) {
        if let Some(new_change) = change {
            *self = Some(new_change);
        }
    }

    fn from_path_and_verb(path: &[&str], verb: ChangeVerb) -> (r: Result<Self, VerbError>) {
        match verb {
            ChangeVerb::SetValue(unparsed) => lift_parse(Self::parse(unparsed.as_str())),
            other => Err(VerbError::UnsupportedVerb(other)),
        }
    }
}

} // verus!
