use vstd::prelude::*;

use crate::config::{Configuration, CongenChange};
use crate::description::{CompositDescription, Description, DescriptionKind, FieldDescription};
use crate::error::{NotSupported, ParseError, VerbError};
use crate::verb::ChangeVerb;

verus! {

/// [`CongenChange`] for [`Option`].
#[derive(Default, Debug)]
pub enum OptionChange<T> {
    /// Apply the inner change, to the value or else to a new one.
    Apply(T),
    /// Set the option to `None`.
    Unset,
    /// Leave the option as it is.
    #[default]
    NoChange,
}

impl<T> OptionChange<T> {
    /// The inner change of `Apply`; like [`Option::unwrap`], there is no other.
    pub fn unwrap(self) -> (r: T)
        requires
            self is Apply,
        ensures
            r == self->Apply_0,
    {
        match self {
            OptionChange::Apply(c) => c,
            OptionChange::Unset => vstd::pervasive::unreached(),
            OptionChange::NoChange => vstd::pervasive::unreached(),
        }
    }
}

/// `d` is what `Option<T>` makes of `d0`, the description of `T`: it may be unset, it is no
/// flag, and it carries the option's label.
pub open spec fn option_form(d0: Description, d: Description, label: Option<Seq<char>>) -> bool {
    match d0 {
        Description::Composit(c0) => d matches Description::Composit(c) && c == (CompositDescription {
            allow_unset: true,
            type_label: c.type_label,
            ..c0
        }) && crate::config::label_matches(c.type_label@, label),
        Description::Field(f0) => d matches Description::Field(f) && f == (FieldDescription {
            is_flag: false,
            allow_unset: true,
            type_label: f.type_label,
            ..f0
        }) && crate::config::label_matches(f.type_label@, label),
        Description::List(_) => false,
    }
}

impl<T: Configuration> Configuration for Option<T> {
    type CongenChange = OptionChange<T::CongenChange>;

    type Model = Option<T::Model>;

    open spec fn model(self) -> Option<T::Model> {
        match self {
            Some(t) => Some(t.model()),
            None => None,
        }
    }

    open spec fn spec_type_label() -> Option<Seq<char>> {
        match T::spec_type_label() {
            Some(inner) => Some(inner + "?"@),
            None => None,
        }
    }

    open spec fn spec_kind() -> DescriptionKind {
        T::spec_kind()
    }

    open spec fn spec_describable() -> bool {
        T::spec_describable() && T::spec_kind() != DescriptionKind::List
    }

    open spec fn spec_describes(field_name: &'static str, d: Description) -> bool {
        exists|d0: Description|
            #[trigger] T::spec_describes(field_name, d0) && option_form(d0, d, Self::spec_type_label())
    }

    open spec fn spec_default() -> Option<Option<T::Model>> {
        Some(None)
    }

    open spec fn spec_apply_defined(
        m: Option<T::Model>,
        change: OptionChange<T::CongenChange>,
        default: Option<Option<T::Model>>,
    ) -> bool {
        match change {
            OptionChange::Apply(c) => match m {
                Some(tm) => T::spec_apply_defined(tm, c, None),
                None => c.spec_unwrap_defined() && match c.spec_unwrap_field() {
                    Ok(_) => true,
                    Err(c2) => default matches Some(Some(d)) && T::spec_apply_defined(d, c2, None),
                },
            },
            _ => true,
        }
    }

    open spec fn spec_apply(
        m: Option<T::Model>,
        change: OptionChange<T::CongenChange>,
        default: Option<Option<T::Model>>,
    ) -> Option<T::Model> {
        match change {
            OptionChange::Apply(c) => match m {
                Some(tm) => Some(T::spec_apply(tm, c, None)),
                None => match c.spec_unwrap_field() {
                    Ok(v) => Some(v.model()),
                    Err(c2) => Some(T::spec_apply(default->0->0, c2, None)),
                },
            },
            OptionChange::Unset => None,
            OptionChange::NoChange => m,
        }
    }

    fn apply_change_with_default(&mut self, change: OptionChange<T::CongenChange>, default: Option<Option<T>>) {
        let change = match change {
            OptionChange::Apply(change) => change,
            OptionChange::Unset => {
                *self = None;
                return;
            },
            OptionChange::NoChange => return ,
        };
        match self.take() {
            Some(mut this) => {
                this.apply_change(change);
                *self = Some(this);
            },
            None => {
                match change.unwrap_field() {
                    Ok(unwrapped) => {
                        *self = Some(unwrapped);
                    },
                    Err(change) => {
                        match default {
                            Some(Some(mut this)) => {
                                this.apply_change(change);
                                *self = Some(this);
                            },
                            _ => {
                                proof { assert(false); }
                            },
                        }
                    },
                }
            },
        }
    }

    fn description(field_name: &'static str) -> (r: Description) {
        let inner = T::description(field_name);
        proof {
            assert(T::spec_describes(field_name, inner));
        }
        match inner {
            Description::Composit(composit) => Description::Composit(
                CompositDescription { allow_unset: true, type_label: Self::type_label(), ..composit },
            ),
            Description::Field(field) => Description::Field(
                FieldDescription {
                    is_flag: false,
                    allow_unset: true,
                    type_label: Self::type_label(),
                    ..field
                },
            ),
            Description::List(list) => Description::List(list),
        }
    }

    fn default() -> (r: Result<Option<T>, NotSupported>) {
        Ok(None)
    }

    fn duplicate(&self) -> (r: Option<T>) {
        match self {
            Some(t) => Some(t.duplicate()),
            None => None,
        }
    }

    fn type_label() -> (r: String) {
        let mut name = T::type_label();
        name.append("?");
        name
    }
}

impl<C: CongenChange> CongenChange for OptionChange<C> where
    C::Configuration: Configuration<CongenChange = C>,
 {
    type Configuration = Option<C::Configuration>;

    open spec fn spec_empty() -> Self {
        OptionChange::NoChange
    }

    open spec fn spec_defaults(r: Result<Self, NotSupported>) -> bool {
        r == Err::<Self, NotSupported>(NotSupported)
    }

    open spec fn spec_parses(input: Seq<char>, r: Result<Result<Self, ParseError>, NotSupported>) -> bool {
        match r {
            Ok(Ok(OptionChange::Apply(c))) => C::spec_parses(input, Ok(Ok(c))),
            Ok(Ok(_)) => false,
            Ok(Err(e)) => C::spec_parses(input, Ok(Err(e))),
            Err(n) => exists|inner: Result<Result<C, ParseError>, NotSupported>|
                #[trigger] C::spec_parses(input, inner) && inner is Err,
        }
    }

    open spec fn spec_unwrap_defined(self) -> bool {
        true
    }

    open spec fn spec_unwrap_field(self) -> Result<Option<C::Configuration>, Self> {
        Err(self)
    }

    /// `None` unsets the value; `Some` applies the change that sets the inner value.
    open spec fn spec_sets_value(value: Option<C::Configuration>, r: Result<Self, NotSupported>) -> bool {
        match value {
            None => r == Ok::<Self, NotSupported>(OptionChange::Unset),
            Some(v) => match r {
                Ok(OptionChange::Apply(c)) => C::spec_sets_value(v, Ok(c)),
                Err(n) => C::spec_sets_value(v, Err(n)),
                Ok(_) => false,
            },
        }
    }

    /// Two inner changes merge into one; otherwise the later change wins, and `NoChange`
    /// changes nothing.
    open spec fn spec_merged(self, change: Self, r: Self) -> bool {
        match (self, change) {
            (OptionChange::Apply(x), OptionChange::Apply(y)) => r matches OptionChange::Apply(z) && x.spec_merged(y, z),
            (_, OptionChange::NoChange) => r == self,
            _ => r == change,
        }
    }

    open spec fn spec_from_path_defined(path: Seq<Seq<char>>, verb: ChangeVerb) -> bool {
        &&& C::Configuration::spec_describable()
        &&& C::Configuration::spec_kind() != DescriptionKind::List
        &&& C::Configuration::spec_kind() == DescriptionKind::Composit ==> match verb {
            ChangeVerb::SetValue(_) | ChangeVerb::UseDefault => C::spec_from_path_defined(path, verb),
            ChangeVerb::SetFlag | ChangeVerb::Unset => path.len() > 0 ==> C::spec_from_path_defined(path, verb),
            ChangeVerb::List(_) => true,
        }
    }

    open spec fn spec_from_path(path: Seq<Seq<char>>, verb: ChangeVerb, r: Result<Self, VerbError>) -> bool {
        if C::Configuration::spec_kind() == DescriptionKind::Composit {
            match verb {
                ChangeVerb::SetValue(_) | ChangeVerb::UseDefault => applied_inner::<C>(path, verb, r),
                ChangeVerb::SetFlag => if path.len() == 0 {
                    r == Err::<Self, VerbError>(VerbError::UnsupportedVerb(verb))
                } else {
                    applied_inner::<C>(path, verb, r)
                },
                ChangeVerb::Unset => if path.len() == 0 {
                    r == Ok::<Self, VerbError>(OptionChange::Unset)
                } else {
                    applied_inner::<C>(path, verb, r)
                },
                ChangeVerb::List(_) => r == Err::<Self, VerbError>(VerbError::UnsupportedVerb(verb)),
            }
        } else if path.len() > 0 {
            r == Err::<Self, VerbError>(VerbError::InvalidPath)
        } else {
            match verb {
                ChangeVerb::SetValue(value) => match r {
                    Ok(OptionChange::Apply(c)) => C::spec_parses(value@, Ok(Ok(c))),
                    Err(VerbError::ParseError(e)) => C::spec_parses(value@, Ok(Err(e))),
                    Err(VerbError::NotSupported(_)) => exists|inner: Result<Result<C, ParseError>, NotSupported>|
                        #[trigger] C::spec_parses(value@, inner) && inner is Err,
                    _ => false,
                },
                ChangeVerb::Unset | ChangeVerb::UseDefault => r == Ok::<Self, VerbError>(OptionChange::Unset),
                _ => r == Err::<Self, VerbError>(VerbError::UnsupportedVerb(verb)),
            }
        }
    }

    fn empty() -> (r: Self) {
        OptionChange::NoChange
    }

    fn default() -> (r: Result<Self, NotSupported>) {
        Err(NotSupported)
    }

    fn set_value(value: Option<C::Configuration>) -> (r: Result<Self, NotSupported>) {
        match value {
            None => Ok(OptionChange::Unset),
            Some(v) => match C::set_value(v) {
                Ok(c) => Ok(OptionChange::Apply(c)),
                Err(n) => Err(n),
            },
        }
    }

    fn parse(input: &str) -> (r: Result<Result<Self, ParseError>, NotSupported>) {
        // An option parses just like its inner type, as `Apply`; nothing parses as `None`.
        match C::parse(input) {
            Ok(Ok(inner)) => Ok(Ok(OptionChange::Apply(inner))),
            Ok(Err(parse_err)) => Ok(Err(parse_err)),
            Err(_) => Err(NotSupported),
        }
    }

    fn unwrap_field(self) -> (r: Result<Option<C::Configuration>, Self>) {
        Err(self)
    }

    fn apply_change(&mut self, change: Self) {
        match change {
            OptionChange::Apply(change) => match self {
                OptionChange::Apply(current) => current.apply_change(change),
                _ => {
                    *self = OptionChange::Apply(change);
                },
            },
            OptionChange::Unset => {
                *self = OptionChange::Unset;
            },
            OptionChange::NoChange => {},
        }
    }

    fn from_path_and_verb(path: &[&str], verb: ChangeVerb) -> (r: Result<Self, VerbError>) {
        let desc = C::Configuration::description("");
        match desc {
            Description::Composit(_) => match verb {
                ChangeVerb::SetValue(_) | ChangeVerb::UseDefault => apply_inner::<C>(path, verb),
                ChangeVerb::SetFlag => {
                    if path.len() == 0 {
                        return Err(VerbError::UnsupportedVerb(verb));
                    }
                    apply_inner::<C>(path, verb)
                },
                ChangeVerb::Unset => {
                    if path.len() == 0 {
                        Ok(OptionChange::Unset)
                    } else {
                        apply_inner::<C>(path, verb)
                    }
                },
                ChangeVerb::List(_) => Err(VerbError::UnsupportedVerb(verb)),
            },
            Description::Field(_) => {
                if path.len() > 0 {
                    return Err(VerbError::InvalidPath);
                }
                match verb {
                    ChangeVerb::SetValue(value) => match Self::parse(value.as_str()) {
                        Ok(Ok(change)) => Ok(change),
                        Ok(Err(e)) => Err(VerbError::ParseError(e)),
                        Err(n) => Err(VerbError::NotSupported(n)),
                    },
                    ChangeVerb::Unset | ChangeVerb::UseDefault => Ok(OptionChange::Unset),
                    other => Err(VerbError::UnsupportedVerb(other)),
                }
            },
            Description::List(_) => Err(VerbError::InvalidDescription),
        }
    }
}

/// `r` wraps in `Apply` what `C` builds from `path` and `verb`, or passes its error on.
pub open spec fn applied_inner<C: CongenChange>(
    path: Seq<Seq<char>>,
    verb: ChangeVerb,
    r: Result<OptionChange<C>, VerbError>,
) -> bool {
    match r {
        Ok(OptionChange::Apply(c)) => C::spec_from_path(path, verb, Ok(c)),
        Ok(_) => false,
        Err(e) => C::spec_from_path(path, verb, Err(e)),
    }
}

/// Builds the inner change from `path` and `verb` and wraps it in `Apply`.
fn apply_inner<C: CongenChange>(path: &[&str], verb: ChangeVerb) -> (r: Result<OptionChange<C>, VerbError>)
    requires
        C::spec_from_path_defined(crate::config::path_view(path@), verb),
    ensures
        applied_inner::<C>(crate::config::path_view(path@), verb, r),
{
    match C::from_path_and_verb(path, verb) {
        Ok(c) => Ok(OptionChange::Apply(c)),
        Err(e) => Err(e),
    }
}

} // verus!
