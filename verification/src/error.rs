use vstd::prelude::*;

use crate::verb::ChangeVerb;

verus! {

/// The operation is not supported by this configuration type.
#[derive(Debug, Clone, Copy, PartialEq, Eq)]
pub struct NotSupported;

/// A value could not be parsed; holds the parser's message.
#[derive(Debug, Clone)]
pub struct ParseError(pub String);

/// Why a change could not be built from a path and a verb.
#[non_exhaustive]
#[derive(Debug)]
pub enum VerbError {
    /// The path names no field of the configuration.
    InvalidPath,
    /// The verb cannot be applied to the addressed field.
    UnsupportedVerb(ChangeVerb),
    /// The configuration type does not support the operation.
    NotSupported(NotSupported),
    /// The value handed with the verb did not parse.
    ParseError(ParseError),
    /// The description of the addressed field is of a kind that cannot be changed this way.
    InvalidDescription,
    /// A list was addressed with a key of the wrong kind.
    WrongKeyType,
}

impl From<NotSupported> for VerbError {
    fn from(value: NotSupported) -> (r: Self) {
        VerbError::NotSupported(value)
    }
}

impl vstd::std_specs::convert::FromSpecImpl<NotSupported> for VerbError {
    open spec fn obeys_from_spec() -> bool {
        true
    }

    open spec fn from_spec(value: NotSupported) -> VerbError {
        VerbError::NotSupported(value)
    }
}

impl From<ParseError> for VerbError {
    fn from(value: ParseError) -> (r: Self) {
        VerbError::ParseError(value)
    }
}

impl vstd::std_specs::convert::FromSpecImpl<ParseError> for VerbError {
    open spec fn obeys_from_spec() -> bool {
        true
    }

    open spec fn from_spec(value: ParseError) -> VerbError {
        VerbError::ParseError(value)
    }
}

} // verus!
