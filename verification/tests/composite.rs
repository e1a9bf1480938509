use congen::composite::{route, Route};
use congen::{ChangeVerb, VerbError};

#[test]
fn route_takes_default_expression_only_for_the_whole_field() {
    let names = ["d", "e"];
    let has_expr = [true, false];
    assert!(matches!(route(&names, &has_expr, &["d"], ChangeVerb::UseDefault), Ok(Route::DefaultExpression { index: 0 })));
    assert!(matches!(route(&names, &has_expr, &["e"], ChangeVerb::UseDefault), Ok(Route::Field { index: 1, verb: ChangeVerb::UseDefault })));
    assert!(matches!(route(&names, &has_expr, &["d", "x"], ChangeVerb::UseDefault), Ok(Route::Field { index: 0, .. })));
    assert!(matches!(route(&names, &has_expr, &["d"], ChangeVerb::Unset), Ok(Route::Field { index: 0, verb: ChangeVerb::Unset })));
    assert!(matches!(route(&names, &has_expr, &["zzz"], ChangeVerb::UseDefault), Err(VerbError::InvalidPath)));
    assert!(matches!(route(&names, &has_expr, &[], ChangeVerb::UseDefault), Ok(Route::UseDefault)));
    assert!(matches!(route(&names, &has_expr, &[], ChangeVerb::Unset), Err(VerbError::UnsupportedVerb(ChangeVerb::Unset))));
}
