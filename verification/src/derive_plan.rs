use vstd::prelude::*;

use crate::text::str_eq;

verus! {

/// One parameter of a `congen(...)` attribute: a bare name, or `name = expression` with the
/// expression's source text.
#[derive(Debug)]
pub enum AttributeParam {
    Flag(String),
    NameValue { ident: String, value: String },
}

/// The default a field asks for.
#[derive(Debug)]
pub enum CongenDefault {
    /// `default`: the field type's own default.
    UseDefault,
    /// `default = expression`.
    Expr(String),
}

/// What a `congen(...)` attribute on a field says.
#[derive(Debug)]
pub struct CongenAttribute {
    pub default: Option<CongenDefault>,
    pub inner_default: Option<String>,
}

/// Why a `congen(...)` attribute was refused.
#[derive(Debug, Clone, Copy, PartialEq, Eq)]
pub enum AttributeErrorKind {
    DuplicateDefault,
    DuplicateInnerDefault,
    InnerDefaultNeedsExpression,
    UnknownArgument,
}

/// A refused `congen(...)` attribute: why, and the position of the parameter at fault.
#[derive(Debug, Clone, Copy, PartialEq, Eq)]
pub struct AttributeError {
    pub kind: AttributeErrorKind,
    pub index: usize,
}

impl AttributeError {
    /// The message shown for the error.
    pub fn message(&self) -> (r: &'static str)
        ensures
            r@ == attribute_error_message(self.kind),
    {
        match self.kind {
            AttributeErrorKind::DuplicateDefault => "\"default\" should only be specified once in `congen` attribute",
            AttributeErrorKind::DuplicateInnerDefault => "\"inner_default\" should only be specified once in `congen` attribute",
            AttributeErrorKind::InnerDefaultNeedsExpression => "\"inner_default\" requires expression as argument",
            AttributeErrorKind::UnknownArgument => "unknown argument to `congen` attribute",
        }
    }
}

/// The message for each kind of attribute error.
pub open spec fn attribute_error_message(kind: AttributeErrorKind) -> Seq<char> {
    match kind {
        AttributeErrorKind::DuplicateDefault => "\"default\" should only be specified once in `congen` attribute"@,
        AttributeErrorKind::DuplicateInnerDefault => "\"inner_default\" should only be specified once in `congen` attribute"@,
        AttributeErrorKind::InnerDefaultNeedsExpression => "\"inner_default\" requires expression as argument"@,
        AttributeErrorKind::UnknownArgument => "unknown argument to `congen` attribute"@,
    }
}

/// The name of a parameter.
pub open spec fn param_ident(p: AttributeParam) -> String {
    match p {
        AttributeParam::Flag(ident) => ident,
        AttributeParam::NameValue { ident, .. } => ident,
    }
}

impl AttributeParam {
    /// The name of the parameter.
    pub fn ident(&self) -> (r: &String)
        ensures
            *r == param_ident(*self),
    {
        match self {
            AttributeParam::Flag(ident) => ident,
            AttributeParam::NameValue { ident, .. } => ident,
        }
    }
}

/// The attribute after the parameter `p`, at position `index`, was read into `acc`: `default`
/// may come once, bare or with an expression; `inner-default` may come once, with an
/// expression; nothing else may come.
pub open spec fn attribute_step(acc: CongenAttribute, p: AttributeParam, index: int) -> Result<CongenAttribute, AttributeError> {
    let ident = param_ident(p)@;
    if ident == "default"@ {
        if acc.default is Some {
            Err(AttributeError { kind: AttributeErrorKind::DuplicateDefault, index: index as usize })
        } else {
            Ok(CongenAttribute {
                default: Some(match p {
                    AttributeParam::Flag(_) => CongenDefault::UseDefault,
                    AttributeParam::NameValue { value, .. } => CongenDefault::Expr(value),
                }),
                ..acc
            })
        }
    } else if ident == "inner-default"@ {
        if acc.inner_default is Some {
            Err(AttributeError { kind: AttributeErrorKind::DuplicateInnerDefault, index: index as usize })
        } else {
            match p {
                AttributeParam::NameValue { value, .. } => Ok(CongenAttribute { inner_default: Some(value), ..acc }),
                AttributeParam::Flag(_) => Err(AttributeError { kind: AttributeErrorKind::InnerDefaultNeedsExpression, index: index as usize }),
            }
        }
    } else {
        Err(AttributeError { kind: AttributeErrorKind::UnknownArgument, index: index as usize })
    }
}

/// The attribute that the first `n` parameters give, or the first error among them.
pub open spec fn attribute_prefix(params: Seq<AttributeParam>, n: int) -> Result<CongenAttribute, AttributeError>
    decreases n,
{
    if n <= 0 {
        Ok(CongenAttribute { default: None, inner_default: None })
    } else {
        match attribute_prefix(params, n - 1) {
            Ok(acc) => attribute_step(acc, params[n - 1], n - 1),
            Err(e) => Err(e),
        }
    }
}

/// Once a prefix of the parameters is refused, every longer prefix is refused the same way.
proof fn lemma_attribute_error_persists(params: Seq<AttributeParam>, k: int, n: int)
    requires
        0 <= k <= n,
        attribute_prefix(params, k) is Err,
    ensures
        attribute_prefix(params, n) == attribute_prefix(params, k),
    decreases n - k,
{
    if n > k {
        lemma_attribute_error_persists(params, k, n - 1);
    }
}

impl CongenAttribute {
    /// The attribute that says nothing.
    pub fn none() -> (r: Self)
        ensures
            r == (CongenAttribute { default: None, inner_default: None }),
    {
        CongenAttribute { default: None, inner_default: None }
    }

    /// Reads the parameters of a `congen(...)` attribute in order.
    pub fn parse(params: Vec<AttributeParam>) -> (r: Result<Self, AttributeError>)
        ensures
            r == attribute_prefix(params@, params@.len() as int),
    {
        proof {
            reveal_strlit("default");
            reveal_strlit("inner-default");
        }
        let ghost all = params@;
        let count = params.len();
        let mut rest = params;
        let mut acc = CongenAttribute::none();
        let mut i: usize = 0;
        while i < count
            invariant
                count == all.len(),
                all == params@,
                i <= count,
                rest@ == all.subrange(i as int, count as int),
                attribute_prefix(all, i as int) == Ok::<CongenAttribute, AttributeError>(acc),
            decreases count - i,
        {
            let param = rest.remove(0);
            assert(param == all[i as int]);
            let is_default = str_eq(param.ident().as_str(), "default");
            let is_inner_default = str_eq(param.ident().as_str(), "inner-default");
            if is_default {
                if acc.default.is_some() {
                    let e = AttributeError { kind: AttributeErrorKind::DuplicateDefault, index: i };
                proof {
                    assert(attribute_prefix(all, i + 1) == Err::<CongenAttribute, AttributeError>(e));
                    lemma_attribute_error_persists(all, i + 1, count as int);
                }
                return Err(e);
                }
                acc.default = Some(match param {
                    AttributeParam::Flag(_) => CongenDefault::UseDefault,
                    AttributeParam::NameValue { value, .. } => CongenDefault::Expr(value),
                });
            } else if is_inner_default {
                if acc.inner_default.is_some() {
                    let e = AttributeError { kind: AttributeErrorKind::DuplicateInnerDefault, index: i };
                proof {
                    assert(attribute_prefix(all, i + 1) == Err::<CongenAttribute, AttributeError>(e));
                    lemma_attribute_error_persists(all, i + 1, count as int);
                }
                return Err(e);
                }
                match param {
                    AttributeParam::NameValue { value, .. } => {
                        acc.inner_default = Some(value);
                    },
                    AttributeParam::Flag(_) => {
                        let e = AttributeError { kind: AttributeErrorKind::InnerDefaultNeedsExpression, index: i };
                proof {
                    assert(attribute_prefix(all, i + 1) == Err::<CongenAttribute, AttributeError>(e));
                    lemma_attribute_error_persists(all, i + 1, count as int);
                }
                return Err(e);
                    },
                }
            } else {
                let e = AttributeError { kind: AttributeErrorKind::UnknownArgument, index: i };
                proof {
                    assert(attribute_prefix(all, i + 1) == Err::<CongenAttribute, AttributeError>(e));
                    lemma_attribute_error_persists(all, i + 1, count as int);
                }
                return Err(e);
            }
            i += 1;
        }
        Ok(acc)
    }
}

/// What a generic argument of a path segment is.
#[derive(Debug, Clone, Copy, PartialEq, Eq)]
pub enum GenericArgumentKind {
    /// A type, such as `T` in `Option<T>`.
    Type,
    /// Anything else: a lifetime, a constant, a binding.
    Other,
}

/// The arguments of a path segment.
#[derive(Debug)]
pub enum PathArguments {
    /// No arguments.
    Bare,
    /// `<...>` arguments.
    AngleBracketed(Vec<GenericArgumentKind>),
    /// `(...)` arguments, as in `Fn(A) -> B`.
    Parenthesized,
}

/// One segment of a type path, such as `Option<T>` in `std::option::Option<T>`.
#[derive(Debug)]
pub struct PathSegment {
    pub ident: String,
    pub arguments: PathArguments,
}

/// A path type, such as `std::option::Option<T>`.
#[derive(Debug)]
pub struct TypePath {
    /// The type has a qualified self, as in `<T as Trait>::Assoc`.
    pub qself: bool,
    /// The path starts with `::`.
    pub leading_colon: bool,
    pub segments: Vec<PathSegment>,
}

/// The type of a field, as far as deciding whether it is an option needs it.
#[derive(Debug)]
pub enum TypeModel {
    Path(TypePath),
    /// Any type that is not a path: a reference, a tuple, an array, ...
    Other,
}

/// Why a field type could not be checked for being an option.
#[derive(Debug, Clone, Copy, PartialEq, Eq)]
pub enum OptionTypeError {
    QSelf,
    EmptyPath,
}

impl OptionTypeError {
    /// The message shown for the error.
    pub fn message(&self) -> (r: &'static str)
        ensures
            r@ == match *self {
                OptionTypeError::QSelf => "Qself path type not supported in option for congen"@,
                OptionTypeError::EmptyPath => "Empty path. Is this even possible?"@,
            },
    {
        match self {
            OptionTypeError::QSelf => "Qself path type not supported in option for congen",
            OptionTypeError::EmptyPath => "Empty path. Is this even possible?",
        }
    }
}

/// The option's segment, where the arguments of segment `k` hold exactly one type: `Some(k)`.
pub open spec fn single_type_argument(segments: Seq<PathSegment>, k: int) -> Option<usize> {
    match segments[k].arguments {
        PathArguments::AngleBracketed(args) => if args@.len() == 1 && args@[0] == GenericArgumentKind::Type {
            Some(k as usize)
        } else {
            None
        },
        _ => None,
    }
}

/// Whether a type is an option, and where its inner type is: `Option<T>`, `std::option::Option<T>`
/// and `core::option::Option<T>` are options (a path that starts with `::` is not taken for
/// one); the result names the segment whose one type argument is the inner type.
pub open spec fn spec_option_type(ty: TypeModel) -> Result<Option<usize>, OptionTypeError> {
    match ty {
        TypeModel::Other => Ok(None),
        TypeModel::Path(path) => {
            let segs = path.segments@;
            if path.qself {
                Err(OptionTypeError::QSelf)
            } else if path.leading_colon {
                Ok(None)
            } else if segs.len() == 0 {
                Err(OptionTypeError::EmptyPath)
            } else if segs[0].ident@ == "Option"@ {
                Ok(single_type_argument(segs, 0))
            } else if segs[0].ident@ == "std"@ || segs[0].ident@ == "core"@ {
                if segs.len() >= 3 && segs[1].ident@ == "option"@ && segs[2].ident@ == "Option"@ {
                    Ok(single_type_argument(segs, 2))
                } else {
                    Ok(None)
                }
            } else {
                Ok(None)
            }
        },
    }
}

fn single_type_argument_of(segments: &Vec<PathSegment>, k: usize) -> (r: Option<usize>)
    requires
        k < segments@.len(),
    ensures
        r == single_type_argument(segments@, k as int),
{
    match &segments[k].arguments {
        PathArguments::AngleBracketed(args) => {
            if args.len() == 1 {
                match args[0] {
                    GenericArgumentKind::Type => Some(k),
                    GenericArgumentKind::Other => None,
                }
            } else {
                None
            }
        },
        _ => None,
    }
}

/// Decides whether `ty` is an option, and where its inner type is.
pub fn is_option_type(ty: &TypeModel) -> (r: Result<Option<usize>, OptionTypeError>)
    ensures
        r == spec_option_type(*ty),
{
    proof {
        reveal_strlit("Option");
        reveal_strlit("std");
        reveal_strlit("core");
        reveal_strlit("option");
    }
    let path = match ty {
        TypeModel::Path(path) => path,
        TypeModel::Other => {
            return Ok(None);
        },
    };
    if path.qself {
        return Err(OptionTypeError::QSelf);
    }
    if path.leading_colon {
        return Ok(None);
    }
    let segments = &path.segments;
    if segments.len() == 0 {
        return Err(OptionTypeError::EmptyPath);
    }
    let first = segments[0].ident.as_str();
    if str_eq(first, "Option") {
        Ok(single_type_argument_of(segments, 0))
    } else if str_eq(first, "std") || str_eq(first, "core") {
        if segments.len() < 2 || !str_eq(segments[1].ident.as_str(), "option") {
            return Ok(None);
        }
        if segments.len() < 3 || !str_eq(segments[2].ident.as_str(), "Option") {
            return Ok(None);
        }
        Ok(single_type_argument_of(segments, 2))
    } else {
        Ok(None)
    }
}

/// An error met while reading a field for the derive.
#[derive(Debug, Clone, Copy, PartialEq, Eq)]
pub enum FieldError {
    Attribute(AttributeError),
    OptionType(OptionTypeError),
}

/// A field of a struct that a configuration is derived for.
#[derive(Debug)]
pub struct CongenField {
    pub ident: Option<String>,
    pub ty: TypeModel,
    pub attr: CongenAttribute,
    /// Where the field is an option: the segment of its type whose argument is the inner type.
    pub option_type: Option<usize>,
}

impl CongenField {
    /// Reads a field: its `congen(...)` attribute parameters, if it has the attribute, and its
    /// type. Errors are added to `errors`, and the field is read as if the attribute, or the
    /// option, were absent.
    pub fn from_field(
        errors: &mut Vec<FieldError>,
        ident: Option<String>,
        ty: TypeModel,
        congen_params: Option<Vec<AttributeParam>>,
    ) -> (r: CongenField)
        ensures
            r.ident == ident,
            r.ty == ty,
            final(errors)@ == old(errors)@ + attribute_errors(congen_params) + option_type_errors(ty),
            match congen_params {
                None => r.attr == CongenAttribute { default: None, inner_default: None },
                Some(params) => match attribute_prefix(params@, params@.len() as int) {
                    Ok(attr) => r.attr == attr,
                    Err(_) => r.attr == CongenAttribute { default: None, inner_default: None },
                },
            },
            r.option_type == match spec_option_type(ty) {
                Ok(o) => o,
                Err(_) => None,
            },
    {
        let ghost e0 = errors@;
        let attr = match congen_params {
            None => CongenAttribute::none(),
            Some(params) => match CongenAttribute::parse(params) {
                Ok(attr) => attr,
                Err(e) => {
                    errors.push(FieldError::Attribute(e));
                    CongenAttribute::none()
                },
            },
        };
        let ghost e1 = errors@;
        assert(e1 =~= e0 + attribute_errors(congen_params));
        let option_type = match is_option_type(&ty) {
            Ok(o) => o,
            Err(e) => {
                errors.push(FieldError::OptionType(e));
                None
            },
        };
        assert(errors@ =~= e1 + option_type_errors(ty));
        CongenField { ident, ty, attr, option_type }
    }
}

/// The error that reading the attribute parameters gives, if any.
pub open spec fn attribute_errors(congen_params: Option<Vec<AttributeParam>>) -> Seq<FieldError> {
    match congen_params {
        Some(params) => match attribute_prefix(params@, params@.len() as int) {
            Err(e) => seq![FieldError::Attribute(e)],
            Ok(_) => Seq::empty(),
        },
        None => Seq::empty(),
    }
}

/// The error that checking the type for an option gives, if any.
pub open spec fn option_type_errors(ty: TypeModel) -> Seq<FieldError> {
    match spec_option_type(ty) {
        Err(e) => seq![FieldError::OptionType(e)],
        Ok(_) => Seq::empty(),
    }
}

/// How the default value of a field is made when a change reaches it while it holds nothing.
#[derive(Debug)]
pub enum DefaultConstructor<'a> {
    /// `inner-default` was given on a field that is no option: a compile error.
    InnerDefaultNotOptional,
    /// `Some` of the `inner-default` expression.
    InnerDefault(&'a String),
    /// The `default` expression.
    Expr(&'a String),
    /// The field is marked `default`: for an option, `Some` of the inner type's default if it
    /// has one, else the option's own default; for any other field its type's default.
    UseDefault { optional: bool },
    /// An unmarked option: `Some` of the inner type's default if it has one, else `None`.
    OptionalDefault,
    /// No default can be made.
    NoDefault,
}

/// The message of the compile error for `inner-default` on a field that is no option.
pub open spec fn inner_default_not_optional_message() -> Seq<char> {
    "\"inner_default\" parameter is only allowed on optional fields"@
}

impl<'a> DefaultConstructor<'a> {
    /// The message of the compile error, where the constructor is one.
    pub fn error_message(&self) -> (r: Option<&'static str>)
        ensures
            match *self {
                DefaultConstructor::InnerDefaultNotOptional => r matches Some(m) && m@ == inner_default_not_optional_message(),
                _ => r is None,
            },
    {
        match self {
            DefaultConstructor::InnerDefaultNotOptional => Some("\"inner_default\" parameter is only allowed on optional fields"),
            _ => None,
        }
    }
}

/// Which value a derived `default()` gives a field.
#[derive(Debug)]
pub enum FieldDefault<'a> {
    /// The field type's own default.
    UseDefault,
    /// The `default` expression.
    Expr(&'a String),
    /// The field has none, so the struct has no default.
    Missing,
}

impl CongenField {
    /// How the default value of this field is made: `inner_default` first (for options only),
    /// then `default`, then, for an option, its inner type's default.
    pub fn derive_default_constructor(&self) -> (r: DefaultConstructor<'_>)
        ensures
            match self.attr.inner_default {
                Some(e) => if self.option_type is None {
                    r == DefaultConstructor::InnerDefaultNotOptional
                } else {
                    r matches DefaultConstructor::InnerDefault(x) && *x == e
                },
                None => match self.attr.default {
                    Some(CongenDefault::Expr(e)) => r matches DefaultConstructor::Expr(x) && *x == e,
                    Some(CongenDefault::UseDefault) => r == DefaultConstructor::UseDefault { optional: self.option_type is Some },
                    None => if self.option_type is Some {
                        r == DefaultConstructor::OptionalDefault
                    } else {
                        r == DefaultConstructor::NoDefault
                    },
                },
            },
    {
        if let Some(inner_default) = &self.attr.inner_default {
            if self.option_type.is_none() {
                return DefaultConstructor::InnerDefaultNotOptional;
            }
            DefaultConstructor::InnerDefault(inner_default)
        } else if let Some(default) = &self.attr.default {
            match default {
                CongenDefault::Expr(expr) => DefaultConstructor::Expr(expr),
                CongenDefault::UseDefault => DefaultConstructor::UseDefault { optional: self.option_type.is_some() },
            }
        } else if self.option_type.is_some() {
            DefaultConstructor::OptionalDefault
        } else {
            DefaultConstructor::NoDefault
        }
    }

    /// The value that a derived `default()` gives this field.
    pub fn field_default(&self) -> (r: FieldDefault<'_>)
        ensures
            match self.attr.default {
                Some(CongenDefault::UseDefault) => r == FieldDefault::UseDefault,
                Some(CongenDefault::Expr(e)) => r matches FieldDefault::Expr(x) && *x == e,
                None => r == FieldDefault::Missing,
            },
    {
        match &self.attr.default {
            Some(CongenDefault::UseDefault) => FieldDefault::UseDefault,
            Some(CongenDefault::Expr(expr)) => FieldDefault::Expr(expr),
            None => FieldDefault::Missing,
        }
    }

    /// Whether the field is described as having a default.
    pub fn described_with_default(&self) -> (r: bool)
        ensures
            r == self.attr.default is Some,
    {
        self.attr.default.is_some()
    }

    /// The expression that replaces `use-default` at this very field, where the field has a
    /// `default` expression.
    pub fn default_expression(&self) -> (r: Option<&String>)
        ensures
            match self.attr.default {
                Some(CongenDefault::Expr(e)) => r matches Some(x) && *x == e,
                _ => r is None,
            },
    {
        match &self.attr.default {
            Some(CongenDefault::Expr(expr)) => Some(expr),
            _ => None,
        }
    }
}

/// Whether every field has a `default`: then the struct has a default.
pub open spec fn all_have_default(fields: Seq<CongenField>) -> bool {
    forall|i: int| 0 <= i < fields.len() ==> (#[trigger] fields[i]).attr.default is Some
}

/// Whether every field has a `default`, so that the derived struct has a default.
pub fn fields_have_default(fields: &Vec<CongenField>) -> (r: bool)
    ensures
        r == all_have_default(fields@),
{
    let mut i: usize = 0;
    while i < fields.len()
        invariant
            i <= fields@.len(),
            forall|j: int| 0 <= j < i ==> (#[trigger] fields@[j]).attr.default is Some,
        decreases fields@.len() - i,
    {
        if fields[i].attr.default.is_none() {
            return false;
        }
        i += 1;
    }
    true
}

/// The kinds of item a derive can be asked for.
#[derive(Debug, Clone, Copy, PartialEq, Eq)]
pub enum ItemKind {
    Enum,
    NamedStruct,
    TupleStruct,
    UnitStruct,
    Union,
}

/// Whether a value enum configuration can be derived for an item of kind `kind`: only for an
/// enum; else the compile error's message.
pub fn check_value_enum_item(kind: ItemKind) -> (r: Result<(), &'static str>)
    ensures
        kind == ItemKind::Enum ==> r is Ok,
        kind != ItemKind::Enum ==> (r matches Err(m) && m@ == "ValueEnumConfiguration can only be derived for enums"@),
{
    match kind {
        ItemKind::Enum => Ok(()),
        _ => Err("ValueEnumConfiguration can only be derived for enums"),
    }
}

/// Whether a configuration can be derived for a struct of kind `kind`: not for a tuple struct;
/// else the compile error's message.
pub fn check_configuration_item(kind: ItemKind) -> (r: Result<(), &'static str>)
    ensures
        kind != ItemKind::TupleStruct ==> r is Ok,
        kind == ItemKind::TupleStruct ==> (r matches Err(m) && m@ == "Configuration not yet supported for tupple structs"@),
{
    match kind {
        ItemKind::TupleStruct => Err("Configuration not yet supported for tupple structs"),
        _ => Ok(()),
    }
}

} // verus!
