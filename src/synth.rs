//! Builder synthesis: from a record declaration to a fully resolved builder
//! description, one table-driven artifact per named field.

use vstd::prelude::*;
use crate::type_expr::{classify, classify_spec, kind_of, FieldClass, FieldKind, TypeExpr};

verus! {

/// How the builder stores a field.
#[derive(Clone, Copy, Debug, PartialEq, Eq, Structural)]
pub enum Storage {
    /// `Option<declared>`: the field starts absent and must be filled.
    WrapInOption,
    /// The declared type itself, which is already optional- or list-shaped.
    AsDeclared,
}

/// The value a fresh builder holds for a field.
#[derive(Clone, Copy, Debug, PartialEq, Eq, Structural)]
pub enum Initial {
    Absent,
    EmptySequence,
}

/// What a field's setter does to its storage.
#[derive(Clone, Copy, Debug, PartialEq, Eq, Structural)]
pub enum Effect {
    /// Store `present(value)`, dropping what was there.
    Replace,
    /// Push the value after those already stored.
    Append,
}

/// How assembly reads a field's storage.
#[derive(Clone, Copy, Debug, PartialEq, Eq, Structural)]
pub enum Accessor {
    /// Copy the stored value out; fail, naming the field, when it is absent.
    RequirePresent,
    /// Copy the storage out as it is; absence and emptiness are valid values.
    CopyOut,
}

/// The four generation rules that belong to one bucket.
#[derive(Clone, Copy, Debug, PartialEq, Eq, Structural)]
pub struct Rule {
    pub storage: Storage,
    pub initial: Initial,
    pub effect: Effect,
    pub accessor: Accessor,
}

pub open spec fn rule_spec(k: FieldKind) -> Rule {
    match k {
        FieldKind::Required => Rule {
            storage: Storage::WrapInOption,
            initial: Initial::Absent,
            effect: Effect::Replace,
            accessor: Accessor::RequirePresent,
        },
        FieldKind::Optional => Rule {
            storage: Storage::AsDeclared,
            initial: Initial::Absent,
            effect: Effect::Replace,
            accessor: Accessor::CopyOut,
        },
        FieldKind::Repeated => Rule {
            storage: Storage::AsDeclared,
            initial: Initial::EmptySequence,
            effect: Effect::Append,
            accessor: Accessor::CopyOut,
        },
    }
}

/// The rule table, keyed by bucket.
pub fn rule_for(k: FieldKind) -> (r: Rule)
    ensures
        r == rule_spec(k),
{
    match k {
        FieldKind::Required => Rule {
            storage: Storage::WrapInOption,
            initial: Initial::Absent,
            effect: Effect::Replace,
            accessor: Accessor::RequirePresent,
        },
        FieldKind::Optional => Rule {
            storage: Storage::AsDeclared,
            initial: Initial::Absent,
            effect: Effect::Replace,
            accessor: Accessor::CopyOut,
        },
        FieldKind::Repeated => Rule {
            storage: Storage::AsDeclared,
            initial: Initial::EmptySequence,
            effect: Effect::Append,
            accessor: Accessor::CopyOut,
        },
    }
}

pub open spec fn builder_name_spec(record: Seq<char>) -> Seq<char> {
    record + "Builder"@
}

/// The name of the builder type that belongs to a record type.
pub fn builder_identifier(record: &String) -> (r: String)
    ensures
        r@ == builder_name_spec(record@),
{
    record.clone().concat("Builder")
}

/// One named field of a record declaration.
#[derive(Debug, PartialEq, Eq)]
pub struct FieldDecl {
    pub name: String,
    pub ty: TypeExpr,
}

/// The body of a declared type.
#[derive(Debug, PartialEq, Eq)]
pub enum RecordBody {
    /// `{ name: Type, ... }`
    Named(Vec<FieldDecl>),
    /// `(Type, ...)`
    Unnamed,
    /// A struct without a body.
    Unit,
    Enum,
    Union,
}

/// A declared type: its name, its generic parameter list as written (with its
/// angle brackets, or empty), and its body.
#[derive(Debug, PartialEq, Eq)]
pub struct RecordDecl {
    pub name: String,
    pub generics: String,
    pub body: RecordBody,
}

/// Everything generated for one field: its name (also the setter's name), its
/// declared type, its bucket and the bucket's four rules.
#[derive(Debug, PartialEq, Eq)]
pub struct FieldArtifact {
    pub name: String,
    pub declared: TypeExpr,
    pub kind: FieldKind,
    pub rule: Rule,
}

impl FieldArtifact {
    /// The bucket is the declared type's classification, and the rules are the table's.
    pub open spec fn wf(&self) -> bool {
        &&& self.kind == kind_of(classify_spec(&self.declared))
        &&& self.rule == rule_spec(self.kind)
    }

    /// The type of the value that the setter takes: the wrapped type for an
    /// optional or repeated field, the declared type for a required one.
    pub fn mutator_param(&self) -> (r: &TypeExpr)
        ensures
            r == match classify_spec(&self.declared) {
                FieldClass::Optional(inner) => inner,
                FieldClass::Repeated(inner) => inner,
                FieldClass::Required => &self.declared,
            },
    {
        match classify(&self.declared) {
            FieldClass::Optional(inner) => inner,
            FieldClass::Repeated(inner) => inner,
            FieldClass::Required => &self.declared,
        }
    }
}

/// Classifies one field and attaches the rules of its bucket.
pub fn field_artifact(field: FieldDecl) -> (a: FieldArtifact)
    ensures
        a.name == field.name,
        a.declared == field.ty,
        a.wf(),
{
    let kind = classify(&field.ty).kind();
    let rule = rule_for(kind);
    FieldArtifact { name: field.name, declared: field.ty, kind, rule }
}

/// A builder, ready to be rendered: the names of the record, of the builder and
/// of the factory method on the record, the record's generic parameters, and
/// one artifact per field in declaration order.
#[derive(Debug, PartialEq, Eq)]
pub struct BuilderDescription {
    pub record_name: String,
    pub generics: String,
    pub builder_name: String,
    pub factory_name: String,
    pub fields: Vec<FieldArtifact>,
}

/// What synthesis owes for a record with the named fields `fields`.
pub open spec fn describes(d: BuilderDescription, decl: RecordDecl, fields: Seq<FieldDecl>) -> bool {
    &&& d.record_name == decl.name
    &&& d.generics == decl.generics
    &&& d.builder_name@ == builder_name_spec(decl.name@)
    &&& d.factory_name@ == "builder"@
    &&& d.fields@.len() == fields.len()
    &&& forall|i: int|
        0 <= i < fields.len() ==> {
            &&& #[trigger] d.fields@[i].name == fields[i].name
            &&& d.fields@[i].declared == fields[i].ty
            &&& d.fields@[i].wf()
        }
}

fn artifacts(fields: Vec<FieldDecl>) -> (out: Vec<FieldArtifact>)
    ensures
        out@.len() == fields@.len(),
        forall|i: int|
            0 <= i < fields@.len() ==> {
                &&& #[trigger] out@[i].name == fields@[i].name
                &&& out@[i].declared == fields@[i].ty
                &&& out@[i].wf()
            },
{
    let ghost orig = fields@;
    let mut rest = fields;
    let mut out: Vec<FieldArtifact> = Vec::new();
    while rest.len() > 0
        invariant
            out@.len() + rest@.len() == orig.len(),
            rest@ == orig.subrange(out@.len() as int, orig.len() as int),
            forall|i: int|
                0 <= i < out@.len() ==> {
                    &&& #[trigger] out@[i].name == orig[i].name
                    &&& out@[i].declared == orig[i].ty
                    &&& out@[i].wf()
                },
        decreases rest@.len(),
    {
        let field = rest.remove(0);
        out.push(field_artifact(field));
        assert(rest@ =~= orig.subrange(out@.len() as int, orig.len() as int));
    }
    out
}

/// The shapes of declaration that a builder is synthesized for: a record with
/// at least one named field. Tuple and unit structs, records without fields,
/// enums and unions are not supported.
pub open spec fn supported(decl: RecordDecl) -> bool {
    decl.body matches RecordBody::Named(fields) && fields@.len() > 0
}

impl RecordDecl {
    /// Whether a builder can be synthesized for this declaration.
    pub fn is_supported(&self) -> (r: bool)
        ensures
            r == supported(*self),
    {
        match &self.body {
            RecordBody::Named(fields) => fields.len() > 0,
            _ => false,
        }
    }
}

/// Synthesizes the builder of a record type with named fields.
pub fn synthesize(decl: RecordDecl) -> (d: BuilderDescription)
    requires
        supported(decl),
    ensures
        describes(d, decl, decl.body->Named_0@),
{
    let ghost d0 = decl;
    let RecordDecl { name, generics, body } = decl;
    let fields = match body {
        RecordBody::Named(fields) => fields,
        _ => vstd::pervasive::unreached(),
    };
    let ghost fs = fields@;
    let builder_name = builder_identifier(&name);
    let factory_name = String::from_str("builder");
    let out = artifacts(fields);
    let d = BuilderDescription { record_name: name, generics, builder_name, factory_name, fields: out };
    assert(describes(d, d0, fs));
    d
}

} // verus!
