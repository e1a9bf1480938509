use vstd::prelude::*;

use crate::config::path_view;
use crate::description::{CompositDescription, Description};
use crate::error::{NotSupported, VerbError};
use crate::text::str_eq;
use crate::verb::ChangeVerb;

verus! {

/// Where a change built from a path goes in a composite configuration.
#[derive(Debug)]
pub enum Route {
    /// To the field at `index`, with the rest of the path and the verb.
    Field { index: usize, verb: ChangeVerb },
    /// The field at `index` is to take the value of its default expression.
    DefaultExpression { index: usize },
    /// The whole composite is to take its default.
    UseDefault,
}

/// Whether `i` is the first position of `name` among `names`.
pub open spec fn is_first_name(names: Seq<Seq<char>>, name: Seq<char>, i: int) -> bool {
    &&& 0 <= i < names.len()
    &&& names[i] == name
    &&& forall|j: int| 0 <= j < i ==> #[trigger] names[j] != name
}

/// Where a composite with the fields `names`, of which those marked in `has_expr` have a
/// default expression, sends the change that `verb` makes at `path`: a non-empty path goes to
/// the field its first segment names, or is an invalid path; `UseDefault` on exactly a field
/// with a default expression takes that expression's value; the empty path takes only
/// `UseDefault`.
pub open spec fn spec_route(
    names: Seq<Seq<char>>,
    has_expr: Seq<bool>,
    path: Seq<Seq<char>>,
    verb: ChangeVerb,
    r: Result<Route, VerbError>,
) -> bool {
    if path.len() > 0 {
        if exists|i: int| is_first_name(names, path[0], i) {
            match r {
                Ok(Route::Field { index, verb: v }) => is_first_name(names, path[0], index as int) && v == verb && !(
                path.len() == 1 && verb is UseDefault && has_expr[index as int]),
                Ok(Route::DefaultExpression { index }) => is_first_name(names, path[0], index as int) && path.len() == 1
                    && verb is UseDefault && has_expr[index as int],
                _ => false,
            }
        } else {
            r == Err::<Route, VerbError>(VerbError::InvalidPath)
        }
    } else {
        match verb {
            ChangeVerb::UseDefault => r == Ok::<Route, VerbError>(Route::UseDefault),
            _ => r == Err::<Route, VerbError>(VerbError::UnsupportedVerb(verb)),
        }
    }
}

/// Decides where a composite configuration with the fields `field_names` (where `has_expr`
/// marks those with a default expression) sends the change that `verb` makes at `path` (the
/// rest of the path, after its first segment, goes on to the field).
pub fn route(field_names: &[&str], has_expr: &[bool], path: &[&str], verb: ChangeVerb) -> (r: Result<Route, VerbError>)
    requires
        has_expr@.len() == field_names@.len(),
    ensures
        spec_route(path_view(field_names@), has_expr@, path_view(path@), verb, r),
{
    let ghost names = path_view(field_names@);
    if path.len() == 0 {
        return match verb {
            ChangeVerb::UseDefault => Ok(Route::UseDefault),
            other => Err(VerbError::UnsupportedVerb(other)),
        };
    }
    let ghost want = path_view(path@)[0];
    let mut i: usize = 0;
    while i < field_names.len()
        invariant
            names == path_view(field_names@),
            want == path_view(path@)[0],
            path@.len() > 0,
            has_expr@.len() == field_names@.len(),
            i <= field_names@.len(),
            forall|j: int| 0 <= j < i ==> #[trigger] names[j] != want,
        decreases field_names@.len() - i,
    {
        if str_eq(field_names[i], path[0]) {
            assert(is_first_name(names, want, i as int));
            if path.len() == 1 && has_expr[i] {
                if let ChangeVerb::UseDefault = verb {
                    return Ok(Route::DefaultExpression { index: i });
                }
            }
            return Ok(Route::Field { index: i, verb });
        }
        i += 1;
    }
    assert(!exists|k: int| is_first_name(names, want, k));
    Err(VerbError::InvalidPath)
}

/// Sorts the error met while building the default change of a composite field by field: the
/// errors that say a field has no default become `NotSupported`; the others are returned as
/// they are, as errors that should not occur there.
pub fn default_error(err: VerbError) -> (r: Result<NotSupported, VerbError>)
    ensures
        match err {
            VerbError::NotSupported(_) | VerbError::UnsupportedVerb(_) => r == Ok::<NotSupported, VerbError>(NotSupported),
            _ => r == Err::<NotSupported, VerbError>(err),
        },
{
    match err {
        VerbError::NotSupported(_) | VerbError::UnsupportedVerb(_) => Ok(NotSupported),
        other => Err(other),
    }
}

/// The description of a composite configuration: the given field descriptions, never unset.
pub fn composite_description(
    field_name: &'static str,
    type_label: String,
    fields: Vec<Description>,
    has_default: bool,
) -> (r: Description)
    ensures
        r == Description::Composit(CompositDescription { field_name, type_label, fields, has_default, allow_unset: false }),
{
    Description::Composit(CompositDescription { field_name, type_label, fields, has_default, allow_unset: false })
}

} // verus!
