//! Typed configuration changes: build a change from a field path and a verb,
//! merge changes, and apply them to a configuration value.

pub mod error;
pub mod verb;
pub mod description;
pub mod config;
pub mod text;
pub mod primitives;
pub mod option;
pub mod lists;
pub mod value_enum;
pub mod clap_bridge;
pub mod composite;
pub mod derive_plan;
pub mod laws;

pub use clap_bridge::CongenClap;
pub use config::{Configuration, CongenChange};
pub use description::{
    ActionableField, CompositDescription, Description, FieldDescription, ListDescription, ValueHint,
};
pub use error::{NotSupported, ParseError, VerbError};
pub use lists::VecChange;
pub use option::OptionChange;
pub use value_enum::{ValueEnumChange, ValueEnumConfiguration};
pub use verb::{ChangeVerb, ListKey, ListVerb};
