//! A structural model of declared field types and the classifier that sorts
//! them into the optional, repeated and required buckets.

use vstd::prelude::*;

verus! {

/// A declared type, examined only as far as classification needs.
#[derive(Debug, PartialEq, Eq)]
pub enum TypeExpr {
    /// A path type such as `std::vec::Vec<u8>`; `global` records a leading `::`.
    Path { global: bool, segments: Vec<PathSegment> },
    /// A path type with a qualified-self prefix (`<T as Trait>::Assoc`), kept as written.
    QualifiedPath(String),
    /// Any other type (reference, tuple, array, function pointer, ...), kept as written.
    Other(String),
}

/// One `ident<arguments>` step of a path.
#[derive(Debug, PartialEq, Eq)]
pub struct PathSegment {
    pub ident: String,
    pub arguments: PathArguments,
}

/// The arguments that follow a path segment.
#[derive(Debug, PartialEq, Eq)]
pub enum PathArguments {
    /// No arguments at all.
    Bare,
    /// `<A, B, ...>`
    AngleBracketed(Vec<GenericArgument>),
    /// `(A, B) -> C`, kept as written.
    Parenthesized(String),
}

/// One argument between angle brackets.
#[derive(Debug, PartialEq, Eq)]
pub enum GenericArgument {
    Type(TypeExpr),
    /// A lifetime, constant or associated-item binding, kept as written.
    Other(String),
}

/// The bucket a declared type falls into, with the wrapped type where there is one.
#[derive(Debug, PartialEq, Eq)]
pub enum FieldClass<'a> {
    /// `Option<inner>`
    Optional(&'a TypeExpr),
    /// `Vec<inner>`
    Repeated(&'a TypeExpr),
    /// Anything else.
    Required,
}

/// The bucket alone, without the wrapped type.
#[derive(Clone, Copy, Debug, PartialEq, Eq, Structural)]
pub enum FieldKind {
    Optional,
    Repeated,
    Required,
}

pub open spec fn kind_of(c: FieldClass) -> FieldKind {
    match c {
        FieldClass::Optional(_) => FieldKind::Optional,
        FieldClass::Repeated(_) => FieldKind::Repeated,
        FieldClass::Required => FieldKind::Required,
    }
}

impl<'a> FieldClass<'a> {
    pub fn kind(&self) -> (k: FieldKind)
        ensures
            k == kind_of(*self),
    {
        match self {
            FieldClass::Optional(_) => FieldKind::Optional,
            FieldClass::Repeated(_) => FieldKind::Repeated,
            FieldClass::Required => FieldKind::Required,
        }
    }
}

/// The sole type argument of the last segment of a path, if the segment has
/// exactly one argument between angle brackets and that argument is a type.
pub open spec fn sole_type_argument<'a>(seg: &'a PathSegment) -> Option<&'a TypeExpr> {
    match seg.arguments {
        PathArguments::AngleBracketed(args) => {
            if args@.len() == 1 {
                match args@[0] {
                    GenericArgument::Type(inner) => Some(&inner),
                    GenericArgument::Other(_) => None,
                }
            } else {
                None
            }
        },
        _ => None,
    }
}

/// Classification looks at the outermost constructor only: an unqualified path
/// whose last segment is exactly `Option` or `Vec` with a single type argument
/// is unwrapped once; every other shape is required.
pub open spec fn classify_spec<'a>(t: &'a TypeExpr) -> FieldClass<'a> {
    match *t {
        TypeExpr::Path { segments, .. } => {
            if segments@.len() == 0 {
                FieldClass::Required
            } else {
                let last = &segments@.last();
                match sole_type_argument(last) {
                    Some(inner) => {
                        if last.ident@ == "Option"@ {
                            FieldClass::Optional(inner)
                        } else if last.ident@ == "Vec"@ {
                            FieldClass::Repeated(inner)
                        } else {
                            FieldClass::Required
                        }
                    },
                    None => FieldClass::Required,
                }
            }
        },
        _ => FieldClass::Required,
    }
}

impl TypeExpr {
    /// A one-segment path without arguments, such as `i8` or `String`.
    pub fn named(ident: String) -> (r: TypeExpr)
        ensures
            r is Path,
            !r->global,
            r->segments@ == seq![PathSegment { ident, arguments: PathArguments::Bare }],
    {
        let mut segments: Vec<PathSegment> = Vec::new();
        segments.push(PathSegment { ident, arguments: PathArguments::Bare });
        TypeExpr::Path { global: false, segments }
    }

    /// `wrapper<inner>`, a one-segment path with a single type argument.
    pub fn wrapped(wrapper: String, inner: TypeExpr) -> (r: TypeExpr)
        ensures
            r is Path,
            !r->global,
            r->segments@.len() == 1,
            r->segments@[0].ident == wrapper,
            sole_type_argument(&r->segments@[0]) == Some(&inner),
    {
        let mut args: Vec<GenericArgument> = Vec::new();
        args.push(GenericArgument::Type(inner));
        let mut segments: Vec<PathSegment> = Vec::new();
        segments.push(PathSegment { ident: wrapper, arguments: PathArguments::AngleBracketed(args) });
        TypeExpr::Path { global: false, segments }
    }
}

/// Classifies a declared type by its outermost constructor, borrowing the
/// wrapped type where there is one.
pub fn classify<'a>(t: &'a TypeExpr) -> (c: FieldClass<'a>)
    ensures
        c == classify_spec(t),
{
    match t {
        TypeExpr::Path { segments, .. } => {
            if segments.len() == 0 {
                return FieldClass::Required;
            }
            let last = &segments[segments.len() - 1];
            match &last.arguments {
                PathArguments::AngleBracketed(args) => {
                    if args.len() != 1 {
                        return FieldClass::Required;
                    }
                    match &args[0] {
                        GenericArgument::Type(inner) => {
                            if last.ident == String::from_str("Option") {
                                FieldClass::Optional(inner)
                            } else if last.ident == String::from_str("Vec") {
                                FieldClass::Repeated(inner)
                            } else {
                                FieldClass::Required
                            }
                        },
                        GenericArgument::Other(_) => FieldClass::Required,
                    }
                },
                _ => FieldClass::Required,
            }
        },
        _ => FieldClass::Required,
    }
}

} // verus!
