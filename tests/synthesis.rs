use derive_builder::synth::{
    builder_identifier, field_artifact, rule_for, synthesize, Accessor, Effect, FieldDecl,
    Initial, RecordBody, RecordDecl, Rule, Storage,
};
use derive_builder::type_expr::{FieldKind, TypeExpr};

fn named(s: &str) -> TypeExpr {
    TypeExpr::named(s.to_string())
}

fn wrapped(w: &str, inner: TypeExpr) -> TypeExpr {
    TypeExpr::wrapped(w.to_string(), inner)
}

fn field(name: &str, ty: TypeExpr) -> FieldDecl {
    FieldDecl { name: name.to_string(), ty }
}

fn record(body: RecordBody) -> RecordDecl {
    RecordDecl { name: "TestStruct".to_string(), generics: "<'t>".to_string(), body }
}

#[test]
fn builder_name_appends_builder() {
    assert_eq!(builder_identifier(&"TestStruct".to_string()), "TestStructBuilder");
    assert_eq!(builder_identifier(&"".to_string()), "Builder");
}

#[test]
fn rule_table() {
    assert_eq!(
        rule_for(FieldKind::Required),
        Rule {
            storage: Storage::WrapInOption,
            initial: Initial::Absent,
            effect: Effect::Replace,
            accessor: Accessor::RequirePresent,
        }
    );
    assert_eq!(
        rule_for(FieldKind::Optional),
        Rule {
            storage: Storage::AsDeclared,
            initial: Initial::Absent,
            effect: Effect::Replace,
            accessor: Accessor::CopyOut,
        }
    );
    assert_eq!(
        rule_for(FieldKind::Repeated),
        Rule {
            storage: Storage::AsDeclared,
            initial: Initial::EmptySequence,
            effect: Effect::Append,
            accessor: Accessor::CopyOut,
        }
    );
}

#[test]
fn artifact_of_each_bucket() {
    let a = field_artifact(field("field_a", named("i8")));
    assert_eq!(a.name, "field_a");
    assert_eq!(a.kind, FieldKind::Required);
    assert_eq!(a.rule, rule_for(FieldKind::Required));
    assert_eq!(a.mutator_param(), &named("i8"));

    let e = field_artifact(field("field_e", wrapped("Option", named("String"))));
    assert_eq!(e.kind, FieldKind::Optional);
    assert_eq!(e.rule.storage, Storage::AsDeclared);
    assert_eq!(e.mutator_param(), &named("String"));
    assert_eq!(e.declared, wrapped("Option", named("String")));

    let d = field_artifact(field("field_d", wrapped("Vec", named("i8"))));
    assert_eq!(d.kind, FieldKind::Repeated);
    assert_eq!(d.rule.effect, Effect::Append);
    assert_eq!(d.mutator_param(), &named("i8"));
}

#[test]
fn synthesize_named_record() {
    let body = RecordBody::Named(vec![
        field("field_a", named("i8")),
        field("field_b", named("String")),
        field("field_c", TypeExpr::Other("&'t str".to_string())),
        field("field_d", wrapped("Vec", named("i8"))),
        field("field_e", wrapped("Option", named("String"))),
        field("field_f", wrapped("Option", TypeExpr::Other("&'t str".to_string()))),
    ]);
    let decl = record(body);
    assert!(decl.is_supported());
    let d = synthesize(decl);
    assert_eq!(d.record_name, "TestStruct");
    assert_eq!(d.builder_name, "TestStructBuilder");
    assert_eq!(d.factory_name, "builder");
    assert_eq!(d.generics, "<'t>");
    let names: Vec<&str> = d.fields.iter().map(|f| f.name.as_str()).collect();
    assert_eq!(names, vec!["field_a", "field_b", "field_c", "field_d", "field_e", "field_f"]);
    let kinds: Vec<FieldKind> = d.fields.iter().map(|f| f.kind).collect();
    assert_eq!(
        kinds,
        vec![
            FieldKind::Required,
            FieldKind::Required,
            FieldKind::Required,
            FieldKind::Repeated,
            FieldKind::Optional,
            FieldKind::Optional,
        ]
    );
    assert_eq!(d.fields[5].mutator_param(), &TypeExpr::Other("&'t str".to_string()));
    for f in d.fields.iter() {
        assert_eq!(f.rule, rule_for(f.kind));
    }
}

#[test]
fn unsupported_shapes_are_refused() {
    assert!(!record(RecordBody::Unnamed).is_supported());
    assert!(!record(RecordBody::Unit).is_supported());
    assert!(!record(RecordBody::Enum).is_supported());
    assert!(!record(RecordBody::Union).is_supported());
    assert!(!record(RecordBody::Named(vec![])).is_supported());
    assert!(record(RecordBody::Named(vec![field("x", named("u8"))])).is_supported());
}
