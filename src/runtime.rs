//! A builder driven by a description: it stores, fills and assembles fields
//! exactly as the synthesized rules say, one slot per field.

use vstd::prelude::*;
use crate::synth::BuilderDescription;
use crate::type_expr::FieldKind;

verus! {

/// A field value handed to a setter.
#[derive(Debug, PartialEq, Eq)]
pub enum Value {
    Int(i64),
    Text(String),
    Flag(bool),
}

impl Value {
    /// A copy equal to `self`.
    pub fn duplicate(&self) -> (r: Value)
        ensures
            r == *self,
    {
        match self {
            Value::Int(n) => Value::Int(*n),
            Value::Text(s) => Value::Text(s.clone()),
            Value::Flag(b) => Value::Flag(*b),
        }
    }
}

fn duplicate_all(v: &Vec<Value>) -> (r: Vec<Value>)
    ensures
        r@ == v@,
{
    let mut r: Vec<Value> = Vec::new();
    let mut i: usize = 0;
    while i < v.len()
        invariant
            i <= v@.len(),
            r@ == v@.subrange(0, i as int),
        decreases v@.len() - i,
    {
        r.push(v[i].duplicate());
        i = i + 1;
        assert(r@ =~= v@.subrange(0, i as int));
    }
    assert(r@ =~= v@);
    r
}

/// The storage of one field.
pub enum Slot {
    /// A required field: absent until its setter is called.
    Single(Option<Value>),
    /// An optional field: absence is a valid final value.
    Maybe(Option<Value>),
    /// A repeated field: every setter call appends.
    Many(Vec<Value>),
}

pub enum SlotModel {
    Single(Option<Value>),
    Maybe(Option<Value>),
    Many(Seq<Value>),
}

impl View for Slot {
    type V = SlotModel;

    open spec fn view(&self) -> SlotModel {
        match self {
            Slot::Single(o) => SlotModel::Single(*o),
            Slot::Maybe(o) => SlotModel::Maybe(*o),
            Slot::Many(v) => SlotModel::Many(v@),
        }
    }
}

/// The value assembly reads out of one field.
#[derive(Debug, PartialEq, Eq)]
pub enum FinalValue {
    Single(Value),
    Maybe(Option<Value>),
    Many(Vec<Value>),
}

pub enum FinalModel {
    Single(Value),
    Maybe(Option<Value>),
    Many(Seq<Value>),
}

impl View for FinalValue {
    type V = FinalModel;

    open spec fn view(&self) -> FinalModel {
        match self {
            FinalValue::Single(v) => FinalModel::Single(*v),
            FinalValue::Maybe(o) => FinalModel::Maybe(*o),
            FinalValue::Many(v) => FinalModel::Many(v@),
        }
    }
}

/// Assembly found a required field that was never set.
#[derive(Debug, PartialEq, Eq)]
pub struct UnsetField {
    pub field: String,
}

impl UnsetField {
    /// A human-readable message naming the field.
    pub fn message(&self) -> (r: String)
        ensures
            r@ == "Field "@ + self.field@ + " unset"@,
    {
        String::from_str("Field ").concat(self.field.as_str()).concat(" unset")
    }
}

/// The storage a fresh builder holds for a field of bucket `k`.
pub open spec fn initial_slot(k: FieldKind) -> SlotModel {
    match k {
        FieldKind::Required => SlotModel::Single(None),
        FieldKind::Optional => SlotModel::Maybe(None),
        FieldKind::Repeated => SlotModel::Many(Seq::empty()),
    }
}

/// A setter's effect: replace with `present(v)`, or append `v`.
pub open spec fn set_slot(s: SlotModel, v: Value) -> SlotModel {
    match s {
        SlotModel::Single(_) => SlotModel::Single(Some(v)),
        SlotModel::Maybe(_) => SlotModel::Maybe(Some(v)),
        SlotModel::Many(vs) => SlotModel::Many(vs.push(v)),
    }
}

pub open spec fn is_unset(s: SlotModel) -> bool {
    s matches SlotModel::Single(None)
}

/// The final value of a slot that is not unset.
pub open spec fn final_of(s: SlotModel) -> FinalModel {
    match s {
        SlotModel::Single(o) => FinalModel::Single(o->0),
        SlotModel::Maybe(o) => FinalModel::Maybe(o),
        SlotModel::Many(vs) => FinalModel::Many(vs),
    }
}

/// The model of a builder: each field's name and storage, in declaration order.
pub type BuilderModel = Seq<(Seq<char>, SlotModel)>;

/// The first field, in declaration order, whose required value is absent.
pub open spec fn first_unset(m: BuilderModel) -> Option<int>
    decreases m.len(),
{
    if m.len() == 0 {
        None
    } else {
        match first_unset(m.drop_last()) {
            Some(i) => Some(i),
            None => if is_unset(m.last().1) {
                Some(m.len() - 1)
            } else {
                None
            },
        }
    }
}

/// Assembly: fail on the first unset required field, naming it; else every
/// field's final value, in declaration order.
pub open spec fn build_spec(m: BuilderModel) -> Result<Seq<FinalModel>, Seq<char>> {
    match first_unset(m) {
        Some(i) => Err(m[i].0),
        None => Ok(m.map_values(|e: (Seq<char>, SlotModel)| final_of(e.1))),
    }
}

pub open spec fn result_model(r: Result<Vec<FinalValue>, UnsetField>) -> Result<Seq<FinalModel>, Seq<char>> {
    match r {
        Ok(vals) => Ok(vals@.map_values(|f: FinalValue| f@)),
        Err(e) => Err(e.field@),
    }
}

/// The model of a fresh builder for a description.
pub open spec fn initial_model(d: BuilderDescription) -> BuilderModel {
    d.fields@.map_values(|a: crate::synth::FieldArtifact| (a.name@, initial_slot(a.kind)))
}

/// The model after one setter call on field `i`.
pub open spec fn apply_one(m: BuilderModel, i: int, v: Value) -> BuilderModel {
    m.update(i, (m[i].0, set_slot(m[i].1, v)))
}

/// `first_unset` is the least index of an unset slot.
pub proof fn lemma_first_unset(m: BuilderModel)
    ensures
        first_unset(m) matches Some(i) ==> {
            &&& 0 <= i < m.len()
            &&& is_unset(m[i].1)
            &&& forall|j: int| 0 <= j < i ==> !is_unset(#[trigger] m[j].1)
        },
        first_unset(m) is None ==> forall|j: int| 0 <= j < m.len() ==> !is_unset(#[trigger] m[j].1),
    decreases m.len(),
{
    if m.len() > 0 {
        lemma_first_unset(m.drop_last());
        assert forall|j: int| 0 <= j < m.len() - 1 implies m.drop_last()[j] == m[j] by {}
    }
}

/// One named slot of a builder.
struct Entry {
    name: String,
    slot: Slot,
}

/// A builder whose fields are those of a description.
pub struct DynamicBuilder {
    entries: Vec<Entry>,
}

impl View for DynamicBuilder {
    type V = BuilderModel;

    closed spec fn view(&self) -> BuilderModel {
        self.entries@.map_values(|e: Entry| (e.name@, e.slot@))
    }
}

impl DynamicBuilder {
    /// A fresh builder: every field holds its bucket's initial storage.
    pub fn new(desc: &BuilderDescription) -> (b: DynamicBuilder)
        ensures
            b@ == initial_model(*desc),
    {
        let mut entries: Vec<Entry> = Vec::new();
        let mut i: usize = 0;
        while i < desc.fields.len()
            invariant
                i <= desc.fields@.len(),
                entries@.len() == i,
                forall|j: int|
                    0 <= j < i ==> (#[trigger] entries@[j]).name@ == desc.fields@[j].name@
                        && entries@[j].slot@ == initial_slot(desc.fields@[j].kind),
            decreases desc.fields@.len() - i,
        {
            let a = &desc.fields[i];
            let slot = match a.kind {
                FieldKind::Required => Slot::Single(None),
                FieldKind::Optional => Slot::Maybe(None),
                FieldKind::Repeated => Slot::Many(Vec::new()),
            };
            entries.push(Entry { name: a.name.clone(), slot });
            i = i + 1;
        }
        let b = DynamicBuilder { entries };
        assert(b@ =~= initial_model(*desc));
        b
    }

    /// The number of fields.
    pub fn len(&self) -> (n: usize)
        ensures
            n == self@.len(),
    {
        self.entries.len()
    }

    /// The position of the field called `name`, if there is one.
    pub fn field_index(&self, name: &String) -> (r: Option<usize>)
        ensures
            r matches Some(i) ==> i < self@.len() && self@[i as int].0 == name@ && forall|j: int|
                0 <= j < i ==> #[trigger] self@[j].0 != name@,
            r is None ==> forall|j: int| 0 <= j < self@.len() ==> #[trigger] self@[j].0 != name@,
    {
        let mut i: usize = 0;
        while i < self.entries.len()
            invariant
                i <= self@.len(),
                self@.len() == self.entries@.len(),
                forall|j: int| 0 <= j < i ==> #[trigger] self@[j].0 != name@,
            decreases self@.len() - i,
        {
            if self.entries[i].name == *name {
                return Some(i);
            }
            i = i + 1;
        }
        None
    }

    /// The setter of field `i`: replaces a required or optional value, appends
    /// to a repeated one, and hands the builder back for the next call.
    pub fn set(self, i: usize, v: Value) -> (r: DynamicBuilder)
        requires
            i < self@.len(),
        ensures
            r@ == apply_one(self@, i as int, v),
    {
        let mut entries = self.entries;
        let mut e = entries.remove(i);
        let slot = match e.slot {
            Slot::Single(_) => Slot::Single(Some(v)),
            Slot::Maybe(_) => Slot::Maybe(Some(v)),
            Slot::Many(mut vs) => {
                vs.push(v);
                Slot::Many(vs)
            },
        };
        e.slot = slot;
        entries.insert(i, e);
        let r = DynamicBuilder { entries };
        assert(r@ =~= apply_one(self@, i as int, v));
        r
    }

    /// Assembly: every field's final value in declaration order, or the first
    /// required field that was never set. The builder is left as it was, and
    /// the result depends on its storage alone, so building twice gives equal
    /// results.
    pub fn build(&self) -> (r: Result<Vec<FinalValue>, UnsetField>)
        ensures
            result_model(r) == build_spec(self@),
    {
        let ghost m = self@;
        let mut out: Vec<FinalValue> = Vec::new();
        let mut i: usize = 0;
        while i < self.entries.len()
            invariant
                i <= m.len(),
                m == self@,
                m.len() == self.entries@.len(),
                out@.len() == i,
                forall|j: int| 0 <= j < i ==> !is_unset(#[trigger] m[j].1),
                forall|j: int| 0 <= j < i ==> (#[trigger] out@[j])@ == final_of(m[j].1),
            decreases m.len() - i,
        {
            let e = &self.entries[i];
            assert(m[i as int] == (e.name@, e.slot@));
            let f = match &e.slot {
                Slot::Single(o) => match o {
                    Some(v) => FinalValue::Single(v.duplicate()),
                    None => {
                        proof {
                            lemma_first_unset(m);
                            assert(is_unset(m[i as int].1));
                            if let Some(k) = first_unset(m) {
                                assert(k >= i as int);
                                assert(k <= i as int);
                            }
                            assert(first_unset(m) == Some(i as int));
                        }
                        return Err(UnsetField { field: e.name.clone() });
                    },
                },
                Slot::Maybe(o) => match o {
                    Some(v) => FinalValue::Maybe(Some(v.duplicate())),
                    None => FinalValue::Maybe(None),
                },
                Slot::Many(vs) => FinalValue::Many(duplicate_all(vs)),
            };
            out.push(f);
            i = i + 1;
        }
        proof {
            lemma_first_unset(m);
            assert(out@.map_values(|f: FinalValue| f@) =~= m.map_values(
                |e: (Seq<char>, SlotModel)| final_of(e.1),
            ));
        }
        Ok(out)
    }
}

} // verus!
