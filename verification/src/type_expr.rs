//! Semantic types of entity fields.
//!
//! A field's type matters to the derivation only through one question — is it
//! already optional? — and one operation — make it optional. A type is therefore
//! either a plain named type or an optional one.

use vstd::prelude::*;
use vstd::string::*;

verus! {

/// The mathematical value of a [`TypeExpr`].
pub enum TypeModel {
    /// A type that always holds a value.
    Plain(Seq<char>),
    /// A type that may hold no value.
    Optional(Seq<char>),
}

impl TypeModel {
    /// The name of the type that is, or is wrapped by, this type.
    pub open spec fn base(self) -> Seq<char> {
        match self {
            TypeModel::Plain(name) => name,
            TypeModel::Optional(name) => name,
        }
    }

    /// Whether the type already admits the absence of a value.
    pub open spec fn is_optional(self) -> bool {
        self is Optional
    }

    /// The optional form of the type: one level of optionality, never two.
    pub open spec fn wrap_optional(self) -> TypeModel {
        TypeModel::Optional(self.base())
    }

    /// The type as it is written in source: `T`, or `Option<T>`.
    pub open spec fn written(self) -> Seq<char> {
        match self {
            TypeModel::Plain(name) => name,
            TypeModel::Optional(name) => "Option<"@ + name + ">"@,
        }
    }
}

/// The type of a field: a named type, optional or not.
#[derive(Debug, PartialEq, Eq)]
pub enum TypeExpr {
    /// `T`
    Plain(String),
    /// `Option<T>`
    Optional(String),
}

impl View for TypeExpr {
    type V = TypeModel;

    open spec fn view(&self) -> TypeModel {
        match self {
            TypeExpr::Plain(name) => TypeModel::Plain(name@),
            TypeExpr::Optional(name) => TypeModel::Optional(name@),
        }
    }
}

impl Clone for TypeExpr {
    fn clone(&self) -> (copy: Self)
        ensures
            copy@ == self@,
    {
        match self {
            TypeExpr::Plain(name) => TypeExpr::Plain(name.clone()),
            TypeExpr::Optional(name) => TypeExpr::Optional(name.clone()),
        }
    }
}

impl TypeExpr {
    /// A plain type with the given name.
    pub fn plain(name: &str) -> (ty: TypeExpr)
        ensures
            ty@ == TypeModel::Plain(name@),
    {
        TypeExpr::Plain(name.to_owned())
    }

    /// An optional type around the named type.
    pub fn optional(name: &str) -> (ty: TypeExpr)
        ensures
            ty@ == TypeModel::Optional(name@),
    {
        TypeExpr::Optional(name.to_owned())
    }

    /// The type as it is written in source: `T`, or `Option<T>`.
    pub fn written(&self) -> (text: String)
        ensures
            text@ == self@.written(),
    {
        match self {
            TypeExpr::Plain(name) => name.clone(),
            TypeExpr::Optional(name) => String::from_str("Option<").concat(name.as_str()).concat(
                ">",
            ),
        }
    }
}

/// Whether `ty` is already optional.
pub fn is_option_type(ty: &TypeExpr) -> (optional: bool)
    ensures
        optional == ty@.is_optional(),
{
    match ty {
        TypeExpr::Plain(_) => false,
        TypeExpr::Optional(_) => true,
    }
}

/// `ty` made optional. An optional type comes back as it is: the result never
/// nests one optional inside another.
pub fn make_option(ty: &TypeExpr) -> (wrapped: TypeExpr)
    ensures
        wrapped@ == ty@.wrap_optional(),
{
    match ty {
        TypeExpr::Plain(name) => TypeExpr::Optional(name.clone()),
        TypeExpr::Optional(_) => ty.clone(),
    }
}

} // verus!
