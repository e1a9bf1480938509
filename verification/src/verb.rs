use vstd::prelude::*;

verus! {

/// The key that addresses an entry of a list.
#[derive(Debug, Clone)]
pub enum ListKey {
    /// A position in the list, counted from 0.
    Int(usize),
    /// A named entry.
    Name(String),
}

/// An operation on a list field.
#[derive(Debug, Clone)]
pub enum ListVerb {
    /// Append a new value, given unparsed.
    Append { new_value: String },
    /// Replace the entry at `key` by a new value, given unparsed.
    Update { key: ListKey, updated_value: String },
    /// Remove the entry at `key`.
    Remove { key: ListKey },
    /// Remove every entry.
    Empty,
}

/// A [`ChangeVerb`] says what a change built from a path does to the addressed field.
#[derive(Debug, Clone)]
pub enum ChangeVerb {
    /// Set the field to the parsed value.
    SetValue(String),
    /// Enable the flag.
    SetFlag,
    /// Unset the field.
    Unset,
    /// Use the default value of the field.
    UseDefault,
    /// An operation on a list field.
    List(ListVerb),
}

} // verus!
