use derive_builder::type_expr::{
    classify, FieldClass, FieldKind, GenericArgument, PathArguments, PathSegment, TypeExpr,
};

fn named(s: &str) -> TypeExpr {
    TypeExpr::named(s.to_string())
}

fn wrapped(w: &str, inner: TypeExpr) -> TypeExpr {
    TypeExpr::wrapped(w.to_string(), inner)
}

#[test]
fn option_is_optional_with_its_argument() {
    let t = wrapped("Option", named("String"));
    assert_eq!(classify(&t), FieldClass::Optional(&named("String")));
    assert_eq!(classify(&t).kind(), FieldKind::Optional);
}

#[test]
fn vec_is_repeated_with_its_argument() {
    let t = wrapped("Vec", named("i8"));
    assert_eq!(classify(&t), FieldClass::Repeated(&named("i8")));
    assert_eq!(classify(&t).kind(), FieldKind::Repeated);
}

#[test]
fn plain_types_are_required() {
    assert_eq!(classify(&named("i8")), FieldClass::Required);
    assert_eq!(classify(&named("String")), FieldClass::Required);
    assert_eq!(classify(&TypeExpr::Other("&'t str".to_string())), FieldClass::Required);
    assert_eq!(classify(&TypeExpr::Other("(u8, u8)".to_string())), FieldClass::Required);
}

#[test]
fn wrapper_names_match_exactly() {
    assert_eq!(classify(&wrapped("MyOption", named("u8"))), FieldClass::Required);
    assert_eq!(classify(&wrapped("option", named("u8"))), FieldClass::Required);
    assert_eq!(classify(&wrapped("VecDeque", named("u8"))), FieldClass::Required);
    assert_eq!(classify(&wrapped("Box", named("u8"))), FieldClass::Required);
}

#[test]
fn only_the_outer_layer_is_unwrapped() {
    let t = wrapped("Option", wrapped("Vec", named("i8")));
    let inner = wrapped("Vec", named("i8"));
    assert_eq!(classify(&t), FieldClass::Optional(&inner));
    assert_eq!(classify(&inner), FieldClass::Repeated(&named("i8")));
    let t = wrapped("Vec", wrapped("Option", named("i8")));
    assert_eq!(classify(&t), FieldClass::Repeated(&wrapped("Option", named("i8"))));
}

#[test]
fn last_segment_of_a_long_path_decides() {
    let t = TypeExpr::Path {
        global: true,
        segments: vec![
            PathSegment { ident: "std".to_string(), arguments: PathArguments::Bare },
            PathSegment { ident: "option".to_string(), arguments: PathArguments::Bare },
            PathSegment {
                ident: "Option".to_string(),
                arguments: PathArguments::AngleBracketed(vec![GenericArgument::Type(named("u8"))]),
            },
        ],
    };
    assert_eq!(classify(&t), FieldClass::Optional(&named("u8")));
    let t = TypeExpr::Path {
        global: false,
        segments: vec![
            PathSegment {
                ident: "Option".to_string(),
                arguments: PathArguments::AngleBracketed(vec![GenericArgument::Type(named("u8"))]),
            },
            PathSegment { ident: "Inner".to_string(), arguments: PathArguments::Bare },
        ],
    };
    assert_eq!(classify(&t), FieldClass::Required);
}

#[test]
fn argument_count_and_kind_must_fit() {
    let two = TypeExpr::Path {
        global: false,
        segments: vec![PathSegment {
            ident: "Vec".to_string(),
            arguments: PathArguments::AngleBracketed(vec![
                GenericArgument::Type(named("u8")),
                GenericArgument::Type(named("Global")),
            ]),
        }],
    };
    assert_eq!(classify(&two), FieldClass::Required);
    let none = TypeExpr::Path {
        global: false,
        segments: vec![PathSegment {
            ident: "Option".to_string(),
            arguments: PathArguments::AngleBracketed(vec![]),
        }],
    };
    assert_eq!(classify(&none), FieldClass::Required);
    let lifetime = TypeExpr::Path {
        global: false,
        segments: vec![PathSegment {
            ident: "Option".to_string(),
            arguments: PathArguments::AngleBracketed(vec![GenericArgument::Other("'a".to_string())]),
        }],
    };
    assert_eq!(classify(&lifetime), FieldClass::Required);
    let paren = TypeExpr::Path {
        global: false,
        segments: vec![PathSegment {
            ident: "Option".to_string(),
            arguments: PathArguments::Parenthesized("(u8) -> u8".to_string()),
        }],
    };
    assert_eq!(classify(&paren), FieldClass::Required);
    let empty = TypeExpr::Path { global: false, segments: vec![] };
    assert_eq!(classify(&empty), FieldClass::Required);
}

#[test]
fn qualified_paths_are_required() {
    let t = TypeExpr::QualifiedPath("<T as Trait>::Option".to_string());
    assert_eq!(classify(&t), FieldClass::Required);
}
