use congen::derive_plan::{
    check_configuration_item, check_value_enum_item, fields_have_default, is_option_type, AttributeErrorKind,
    AttributeParam, CongenAttribute, CongenDefault, CongenField, DefaultConstructor, FieldDefault, GenericArgumentKind,
    ItemKind, OptionTypeError, PathArguments, PathSegment, TypeModel, TypePath,
};

fn flag(name: &str) -> AttributeParam {
    AttributeParam::Flag(name.to_string())
}

fn name_value(name: &str, value: &str) -> AttributeParam {
    AttributeParam::NameValue { ident: name.to_string(), value: value.to_string() }
}

fn path(segments: &[(&str, bool)]) -> TypeModel {
    TypeModel::Path(TypePath {
        qself: false,
        leading_colon: false,
        segments: segments
            .iter()
            .map(|(ident, generic)| PathSegment {
                ident: ident.to_string(),
                arguments: if *generic {
                    PathArguments::AngleBracketed(vec![GenericArgumentKind::Type])
                } else {
                    PathArguments::Bare
                },
            })
            .collect(),
    })
}

#[test]
fn attribute_default_forms() {
    let a = CongenAttribute::parse(vec![flag("default")]).unwrap();
    assert!(matches!(a.default, Some(CongenDefault::UseDefault)));
    let a = CongenAttribute::parse(vec![name_value("default", "5")]).unwrap();
    assert!(matches!(a.default, Some(CongenDefault::Expr(e)) if e == "5"));
    let a = CongenAttribute::parse(vec![name_value("inner-default", "3"), flag("default")]).unwrap();
    assert_eq!(a.inner_default, Some("3".to_string()));
    let a = CongenAttribute::parse(vec![]).unwrap();
    assert!(a.default.is_none() && a.inner_default.is_none());
}

#[test]
fn attribute_errors() {
    let e = CongenAttribute::parse(vec![flag("default"), flag("default")]).unwrap_err();
    assert_eq!(e.kind, AttributeErrorKind::DuplicateDefault);
    assert_eq!(e.index, 1);
    assert_eq!(e.message(), "\"default\" should only be specified once in `congen` attribute");
    let e = CongenAttribute::parse(vec![name_value("inner-default", "1"), name_value("inner-default", "2")]).unwrap_err();
    assert_eq!(e.kind, AttributeErrorKind::DuplicateInnerDefault);
    let e = CongenAttribute::parse(vec![flag("inner-default")]).unwrap_err();
    assert_eq!(e.kind, AttributeErrorKind::InnerDefaultNeedsExpression);
    assert_eq!(e.message(), "\"inner_default\" requires expression as argument");
    let e = CongenAttribute::parse(vec![flag("default"), flag("color")]).unwrap_err();
    assert_eq!(e.kind, AttributeErrorKind::UnknownArgument);
    assert_eq!(e.index, 1);
    assert_eq!(e.message(), "unknown argument to `congen` attribute");
    let e = CongenAttribute::parse(vec![name_value("inner_default", "1")]).unwrap_err();
    assert_eq!(e.kind, AttributeErrorKind::UnknownArgument);
}

#[test]
fn option_type_detection() {
    assert_eq!(is_option_type(&path(&[("Option", true)])), Ok(Some(0)));
    assert_eq!(is_option_type(&path(&[("std", false), ("option", false), ("Option", true)])), Ok(Some(2)));
    assert_eq!(is_option_type(&path(&[("core", false), ("option", false), ("Option", true)])), Ok(Some(2)));
    assert_eq!(is_option_type(&path(&[("std", false), ("vec", false), ("Vec", true)])), Ok(None));
    assert_eq!(is_option_type(&path(&[("Option", false)])), Ok(None));
    assert_eq!(is_option_type(&path(&[("u32", false)])), Ok(None));
    assert_eq!(is_option_type(&TypeModel::Other), Ok(None));
    assert_eq!(is_option_type(&path(&[])), Err(OptionTypeError::EmptyPath));
    let qself = TypeModel::Path(TypePath { qself: true, leading_colon: false, segments: vec![] });
    assert_eq!(is_option_type(&qself), Err(OptionTypeError::QSelf));
    assert_eq!(OptionTypeError::QSelf.message(), "Qself path type not supported in option for congen");
    let colon = TypeModel::Path(TypePath { qself: false, leading_colon: true, segments: vec![] });
    assert_eq!(is_option_type(&colon), Ok(None));
}

#[test]
fn fields_and_default_constructors() {
    let mut errors = Vec::new();
    let e = CongenField::from_field(&mut errors, Some("e".to_string()), path(&[("Option", true)]), Some(vec![flag("default")]));
    let d = CongenField::from_field(&mut errors, Some("d".to_string()), path(&[("u32", false)]), Some(vec![name_value("default", "5")]));
    let a = CongenField::from_field(&mut errors, Some("a".to_string()), path(&[("u32", false)]), None);
    let o = CongenField::from_field(&mut errors, Some("o".to_string()), path(&[("Option", true)]), None);
    let bad = CongenField::from_field(&mut errors, Some("x".to_string()), path(&[("u32", false)]), Some(vec![name_value("inner-default", "1")]));
    assert!(errors.is_empty());
    assert!(matches!(e.derive_default_constructor(), DefaultConstructor::UseDefault { optional: true }));
    assert!(matches!(d.derive_default_constructor(), DefaultConstructor::Expr(x) if x == "5"));
    assert!(matches!(a.derive_default_constructor(), DefaultConstructor::NoDefault));
    assert!(matches!(o.derive_default_constructor(), DefaultConstructor::OptionalDefault));
    let ctor = bad.derive_default_constructor();
    assert!(matches!(ctor, DefaultConstructor::InnerDefaultNotOptional));
    assert_eq!(ctor.error_message(), Some("\"inner_default\" parameter is only allowed on optional fields"));
    assert!(matches!(d.field_default(), FieldDefault::Expr(x) if x == "5"));
    assert!(matches!(a.field_default(), FieldDefault::Missing));
    assert_eq!(d.default_expression().map(|s| s.as_str()), Some("5"));
    assert!(e.default_expression().is_none());
    assert!(!fields_have_default(&vec![d, a]));
    assert!(fields_have_default(&vec![e]));
}

#[test]
fn field_errors_are_collected() {
    let mut errors = Vec::new();
    let f = CongenField::from_field(&mut errors, None, path(&[]), Some(vec![flag("oops")]));
    assert_eq!(errors.len(), 2);
    assert!(f.attr.default.is_none());
    assert!(f.option_type.is_none());
}

#[test]
fn item_checks() {
    assert!(check_value_enum_item(ItemKind::Enum).is_ok());
    assert_eq!(check_value_enum_item(ItemKind::NamedStruct), Err("ValueEnumConfiguration can only be derived for enums"));
    assert!(check_configuration_item(ItemKind::NamedStruct).is_ok());
    assert_eq!(check_configuration_item(ItemKind::TupleStruct), Err("Configuration not yet supported for tupple structs"));
}
