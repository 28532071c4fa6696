//! Laws of classification and of the builders that synthesis describes.

use vstd::prelude::*;
use crate::synth::BuilderDescription;
use crate::type_expr::{classify_spec, kind_of, sole_type_argument, FieldClass, FieldKind, TypeExpr};
use crate::runtime::{
    apply_one, build_spec, first_unset, initial_model, is_unset, lemma_first_unset, BuilderModel,
    FinalModel, SlotModel, Value,
};

verus! {

/// The builder model after a sequence of setter calls, each a field position
/// and a value; a call on a position outside the record does nothing.
pub open spec fn apply_calls(m: BuilderModel, calls: Seq<(int, Value)>) -> BuilderModel
    decreases calls.len(),
{
    if calls.len() == 0 {
        m
    } else {
        let p = apply_calls(m, calls.drop_last());
        let (i, v) = calls.last();
        if 0 <= i < p.len() {
            apply_one(p, i, v)
        } else {
            p
        }
    }
}

/// Setter calls never change the number of fields.
pub proof fn lemma_apply_calls_len(m: BuilderModel, calls: Seq<(int, Value)>)
    ensures
        apply_calls(m, calls).len() == m.len(),
    decreases calls.len(),
{
    if calls.len() > 0 {
        lemma_apply_calls_len(m, calls.drop_last());
    }
}

/// A chain of `set` calls is modelled by `apply_calls`: one more call on
/// field `i` applies that setter's effect once more.
pub proof fn lemma_apply_calls_push(m: BuilderModel, calls: Seq<(int, Value)>, i: int, v: Value)
    requires
        0 <= i < m.len(),
    ensures
        apply_calls(m, calls.push((i, v))) == apply_one(apply_calls(m, calls), i, v),
{
    lemma_apply_calls_len(m, calls);
    assert(calls.push((i, v)).drop_last() =~= calls);
}

/// The values handed to the setter of field `i`, in call order.
pub open spec fn values_for(calls: Seq<(int, Value)>, i: int) -> Seq<Value>
    decreases calls.len(),
{
    if calls.len() == 0 {
        Seq::empty()
    } else {
        let p = values_for(calls.drop_last(), i);
        if calls.last().0 == i {
            p.push(calls.last().1)
        } else {
            p
        }
    }
}

/// The last value handed to the setter of field `i`, if any.
pub open spec fn last_for(calls: Seq<(int, Value)>, i: int) -> Option<Value> {
    let vs = values_for(calls, i);
    if vs.len() == 0 {
        None
    } else {
        Some(vs.last())
    }
}

/// The storage of a field of bucket `k` after the calls `calls`.
pub open spec fn slot_after(k: FieldKind, calls: Seq<(int, Value)>, i: int) -> SlotModel {
    match k {
        FieldKind::Required => SlotModel::Single(last_for(calls, i)),
        FieldKind::Optional => SlotModel::Maybe(last_for(calls, i)),
        FieldKind::Repeated => SlotModel::Many(values_for(calls, i)),
    }
}

/// Every field's storage depends only on the calls made to its own setter:
/// the last value for a required or optional field, all of them in order for
/// a repeated one; names and the number of fields do not change.
pub proof fn lemma_calls(d: BuilderDescription, calls: Seq<(int, Value)>)
    ensures
        apply_calls(initial_model(d), calls).len() == d.fields@.len(),
        forall|i: int|
            0 <= i < d.fields@.len() ==> #[trigger] apply_calls(initial_model(d), calls)[i] == (
                d.fields@[i].name@,
                slot_after(d.fields@[i].kind, calls, i),
            ),
    decreases calls.len(),
{
    if calls.len() > 0 {
        lemma_calls(d, calls.drop_last());
    }
}

/// Classification always yields exactly one bucket, and the wrapper names are
/// matched exactly: a type is optional only if its last path segment is
/// `Option`, repeated only if it is `Vec`.
pub proof fn law_classification_total(t: &TypeExpr)
    ensures
        kind_of(classify_spec(t)) == FieldKind::Optional || kind_of(classify_spec(t))
            == FieldKind::Repeated || kind_of(classify_spec(t)) == FieldKind::Required,
        classify_spec(t) is Optional ==> t is Path && t->segments@.len() > 0
            && t->segments@.last().ident@ == "Option"@,
        classify_spec(t) is Repeated ==> t is Path && t->segments@.len() > 0
            && t->segments@.last().ident@ == "Vec"@,
{
}

/// Only the outermost wrapper is removed: `Option<Vec<T>>` is optional, and its
/// payload is `Vec<T>` itself, not `T`.
pub proof fn law_one_level_unwrap(t: &TypeExpr, inner: &TypeExpr)
    requires
        t is Path,
        t->segments@.len() > 0,
        t->segments@.last().ident@ == "Option"@,
        sole_type_argument(&t->segments@.last()) == Some(inner),
        classify_spec(inner) is Repeated,
    ensures
        classify_spec(t) == FieldClass::Optional(inner),
{
}

/// Whether the setter of field `i` was called at least once.
pub open spec fn called(calls: Seq<(int, Value)>, i: int) -> bool {
    values_for(calls, i).len() > 0
}

/// For a record whose fields are all required, assembly succeeds exactly when
/// every setter was called; otherwise it fails naming the first field, in
/// declaration order, whose setter was not.
pub proof fn law_required_completeness(d: BuilderDescription, calls: Seq<(int, Value)>, j: int)
    requires
        forall|i: int| 0 <= i < d.fields@.len() ==> #[trigger] d.fields@[i].kind == FieldKind::Required,
    ensures
        build_spec(apply_calls(initial_model(d), calls)) is Ok <==> forall|i: int|
            0 <= i < d.fields@.len() ==> #[trigger] called(calls, i),
        0 <= j < d.fields@.len() && !called(calls, j) && (forall|i: int| 0 <= i < j ==> #[trigger] called(calls, i))
            ==> build_spec(apply_calls(initial_model(d), calls)) == Err::<Seq<FinalModel>, Seq<char>>(
            d.fields@[j].name@,
        ),
{
    let m = apply_calls(initial_model(d), calls);
    lemma_calls(d, calls);
    lemma_first_unset(m);
    assert forall|i: int| 0 <= i < d.fields@.len() implies (is_unset(#[trigger] m[i].1) <==> !called(
        calls,
        i,
    )) by {
        assert(d.fields@[i].kind == FieldKind::Required);
    }
    if build_spec(m) is Ok {
        assert forall|i: int| 0 <= i < d.fields@.len() implies #[trigger] called(calls, i) by {
            assert(!is_unset(m[i].1));
        }
    }
    if 0 <= j < d.fields@.len() && !called(calls, j) && (forall|i: int|
        0 <= i < j ==> #[trigger] called(calls, i)) {
        assert(is_unset(m[j].1));
        if let Some(k) = first_unset(m) {
            assert(k <= j);
            if k < j {
                assert(called(calls, k));
            }
        }
    }
}

/// Whether every required field of `d` had its setter called.
pub open spec fn required_set(d: BuilderDescription, calls: Seq<(int, Value)>) -> bool {
    forall|i: int|
        0 <= i < d.fields@.len() && d.fields@[i].kind == FieldKind::Required ==> #[trigger] called(
            calls,
            i,
        )
}

/// Assembly succeeds exactly when every required field was set; optional and
/// repeated fields never make it fail.
pub proof fn lemma_build_ok(d: BuilderDescription, calls: Seq<(int, Value)>)
    ensures
        build_spec(apply_calls(initial_model(d), calls)) is Ok <==> required_set(d, calls),
        build_spec(apply_calls(initial_model(d), calls)) matches Ok(vals) ==> vals.len()
            == d.fields@.len(),
{
    let m = apply_calls(initial_model(d), calls);
    lemma_calls(d, calls);
    lemma_first_unset(m);
    assert forall|i: int| 0 <= i < d.fields@.len() implies (is_unset(#[trigger] m[i].1) <==> (
    d.fields@[i].kind == FieldKind::Required && !called(calls, i))) by {}
    if build_spec(m) is Ok {
        assert forall|i: int|
            0 <= i < d.fields@.len() && d.fields@[i].kind == FieldKind::Required implies #[trigger] called(
            calls,
            i,
        ) by {
            assert(!is_unset(m[i].1));
        }
    }
}

/// An optional field whose setter is never called ends absent, and leaving it
/// out does not make assembly fail.
pub proof fn law_optional_default(d: BuilderDescription, calls: Seq<(int, Value)>, i: int)
    requires
        0 <= i < d.fields@.len(),
        d.fields@[i].kind == FieldKind::Optional,
        !called(calls, i),
    ensures
        apply_calls(initial_model(d), calls)[i].1 == SlotModel::Maybe(None),
        build_spec(apply_calls(initial_model(d), calls)) is Ok <==> required_set(d, calls),
        build_spec(apply_calls(initial_model(d), calls)) matches Ok(vals) ==> vals[i]
            == FinalModel::Maybe(None),
{
    lemma_calls(d, calls);
    lemma_build_ok(d, calls);
}

/// A repeated field holds every value handed to its setter, in call order: N
/// calls on it alone give a sequence of those N values; none gives the empty
/// sequence, and leaving it out does not make assembly fail.
pub proof fn law_repeated_accumulation(d: BuilderDescription, calls: Seq<(int, Value)>, i: int)
    requires
        0 <= i < d.fields@.len(),
        d.fields@[i].kind == FieldKind::Repeated,
    ensures
        apply_calls(initial_model(d), calls)[i].1 == SlotModel::Many(values_for(calls, i)),
        build_spec(apply_calls(initial_model(d), calls)) matches Ok(vals) ==> vals[i]
            == FinalModel::Many(values_for(calls, i)),
        (forall|k: int| 0 <= k < calls.len() ==> (#[trigger] calls[k]).0 == i) ==> values_for(calls, i)
            == calls.map_values(|c: (int, Value)| c.1),
        !called(calls, i) ==> values_for(calls, i) == Seq::<Value>::empty(),
        build_spec(apply_calls(initial_model(d), calls)) is Ok <==> required_set(d, calls),
{
    lemma_calls(d, calls);
    lemma_build_ok(d, calls);
    lemma_values_of_one_field(calls, i);
}

proof fn lemma_values_of_one_field(calls: Seq<(int, Value)>, i: int)
    ensures
        (forall|k: int| 0 <= k < calls.len() ==> (#[trigger] calls[k]).0 == i) ==> values_for(calls, i)
            == calls.map_values(|c: (int, Value)| c.1),
    decreases calls.len(),
{
    if calls.len() > 0 {
        lemma_values_of_one_field(calls.drop_last(), i);
        if forall|k: int| 0 <= k < calls.len() ==> (#[trigger] calls[k]).0 == i {
            assert forall|k: int| 0 <= k < calls.drop_last().len() implies (
            #[trigger] calls.drop_last()[k]).0 == i by {
                assert(calls.drop_last()[k] == calls[k]);
            }
            assert(calls.last() == calls[calls.len() - 1]);
            assert(values_for(calls, i) =~= calls.map_values(|c: (int, Value)| c.1));
        }
    }
}

} // verus!
