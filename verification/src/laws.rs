//! What holds of every document that is built, whatever the values, the keys, the number of
//! calls and the depth.

use crate::contexts::{ArrayContext, ObjectContext, ObjectContextProxy};
use crate::holders::{ArrayHolder, ObjectHolder};
use crate::keys::ToStringIfNecessary;
use crate::protocol::{EndArray, EndObject, FillKey, GetParent, ValueFillingProxy};
use crate::values::{spec_converted, spec_converts, AllowedValues, ValueModel};
use vstd::prelude::*;

verus! {

/// Every supported kind of input converts, and to the value of its own kind that holds what
/// was given: an integer, a truth value and text to themselves, a finished array or object to
/// the value that holds its content, and the unit input to the absent value.
pub proof fn lemma_conversions_keep_what_is_given(
    number: i64,
    flag: bool,
    text: String,
    items: ArrayHolder,
    pairs: ObjectHolder,
)
    ensures
        spec_converts::<i64>() && spec_converted(number) == ValueModel::Integer(number),
        spec_converts::<bool>() && spec_converted(flag) == ValueModel::Boolean(flag),
        spec_converts::<String>() && spec_converted(text) == ValueModel::Text(text@),
        spec_converts::<ArrayHolder>() && spec_converted(items) == ValueModel::Array(items@),
        spec_converts::<ObjectHolder>() && spec_converted(pairs) == ValueModel::Object(pairs@),
        spec_converts::<()>() && spec_converted(()) == ValueModel::Absent,
{
}

/// Whether `states` are the states of one array through a run of appends: `states[i + 1]` is
/// `states[i]` with a value of model `items[i]` appended.
pub open spec fn spec_append_run<Parent>(
    states: Seq<ArrayContext<Parent>>,
    items: Seq<ValueModel>,
) -> bool {
    &&& states.len() == items.len() + 1
    &&& forall|i: int|
        0 <= i < items.len() ==> #[trigger] states[i].spec_appended(items[i], states[i + 1])
}

/// Whether `states` are the states of one object through a run of completed pairs:
/// `states[i + 1]` is `states[i]` with the pair `pairs[i]` inserted.
pub open spec fn spec_insert_run<Parent>(
    states: Seq<ObjectContext<Parent>>,
    pairs: Seq<(Seq<char>, ValueModel)>,
) -> bool {
    &&& states.len() == pairs.len() + 1
    &&& forall|i: int|
        0 <= i < pairs.len() ==> #[trigger] states[i].spec_inserted(
            pairs[i].0,
            pairs[i].1,
            states[i + 1],
        )
}

/// Appends keep the order of the calls. After any run of appends an array holds what it held
/// before the run, followed by the appended values one by one in call order: none is dropped,
/// merged or moved, and a fresh array holds exactly the appended values. The enclosing state is
/// the one that the run started with.
pub proof fn lemma_appends_keep_call_order<Parent>(
    states: Seq<ArrayContext<Parent>>,
    items: Seq<ValueModel>,
)
    requires
        spec_append_run(states, items),
    ensures
        states.last()@ == states.first()@ + items,
        states.first()@.len() == 0 ==> states.last()@ == items,
        states.last().spec_parent() == states.first().spec_parent(),
    decreases items.len(),
{
    if items.len() == 0 {
        assert(states.first()@ + items =~= states.first()@);
    } else {
        // The run without its last step obeys the law; the last step appends the last item.
        let earlier = items.len() - 1;
        lemma_appends_keep_call_order(states.drop_last(), items.drop_last());
        assert(states[earlier].spec_appended(items[earlier], states[earlier + 1]));
        assert(states.first()@ + items =~= (states.first()@ + items.drop_last()).push(
            items[earlier],
        ));
    }
    assert(states.first()@.len() == 0 ==> states.first()@ + items =~= items);
}

/// The same law read on the calls themselves: where every state of `states` but the first is
/// what `fill_value` gave for the state before it and the value of `values` at that place, the
/// last state holds what the first held, followed by the conversions of `values` in call order.
pub proof fn lemma_filled_values_keep_call_order<Parent, Value>(
    states: Seq<ArrayContext<Parent>>,
    values: Seq<Value>,
) where AllowedValues: From<Value>
    requires
        spec_converts::<Value>(),
        states.len() == values.len() + 1,
        forall|i: int|
            0 <= i < values.len() ==> #[trigger] states[i].spec_fill_value(
                values[i],
                states[i + 1],
            ),
    ensures
        states.last()@ == states.first()@ + values.map_values(
            |value: Value| spec_converted(value),
        ),
        states.last().spec_parent() == states.first().spec_parent(),
{
    let items = values.map_values(|value: Value| spec_converted(value));
    assert forall|i: int| 0 <= i < items.len() implies #[trigger] states[i].spec_appended(
        items[i],
        states[i + 1],
    ) by {
        assert(states[i].spec_fill_value(values[i], states[i + 1]));
    }
    lemma_appends_keep_call_order(states, items);
}

/// Completed pairs keep the order of the calls, and no key replaces another. After any run of
/// completed pairs an object holds what it held before the run, followed by the new pairs one
/// by one in call order, also where a key occurs again.
pub proof fn lemma_pairs_keep_call_order<Parent>(
    states: Seq<ObjectContext<Parent>>,
    pairs: Seq<(Seq<char>, ValueModel)>,
)
    requires
        spec_insert_run(states, pairs),
    ensures
        states.last()@ == states.first()@ + pairs,
        states.first()@.len() == 0 ==> states.last()@ == pairs,
        states.last().spec_parent() == states.first().spec_parent(),
    decreases pairs.len(),
{
    if pairs.len() == 0 {
        assert(states.first()@ + pairs =~= states.first()@);
    } else {
        // The run without its last step obeys the law; the last step inserts the last pair.
        let earlier = pairs.len() - 1;
        lemma_pairs_keep_call_order(states.drop_last(), pairs.drop_last());
        assert(states[earlier].spec_inserted(
            pairs[earlier].0,
            pairs[earlier].1,
            states[earlier + 1],
        ));
        assert(states.first()@ + pairs =~= (states.first()@ + pairs.drop_last()).push(
            pairs[earlier],
        ));
    }
    assert(states.first()@.len() == 0 ==> states.first()@ + pairs =~= pairs);
}

/// A key with its value is one pair: naming `key` in `object` and then filling in `value`
/// gives `object` with the pair of the key and the converted value inserted.
pub proof fn lemma_key_then_value_is_one_pair<Parent, Key, Value>(
    object: ObjectContext<Parent>,
    key: Key,
    pending: ObjectContextProxy<Parent>,
    value: Value,
    next: ObjectContext<Parent>,
) where Key: ToStringIfNecessary, AllowedValues: From<Value>
    requires
        spec_converts::<Value>(),
        object.spec_fill_key(key, pending),
        pending.spec_fill_value(value, next),
    ensures
        object.spec_inserted(key.spec_string(), spec_converted(value), next),
{
}

/// An array nested in an array folds into one value. Closing `nested`, whose enclosing state is
/// the array `outer`, resumes `outer` with the whole content of `nested` appended as a single
/// array value; what encloses `outer` is untouched.
pub proof fn lemma_array_closes_into_array<Parent>(
    outer: ArrayContext<Parent>,
    nested: ArrayContext<ArrayContext<Parent>>,
    resumed: ArrayContext<Parent>,
)
    requires
        nested.spec_parent() == outer,
        nested.spec_end_array(resumed),
    ensures
        outer.spec_appended(ValueModel::Array(nested@), resumed),
{
}

/// An object nested in an array folds into one value. Closing `nested`, whose enclosing state
/// is the array `outer`, resumes `outer` with the whole content of `nested` appended as a
/// single object value; what encloses `outer` is untouched.
pub proof fn lemma_object_closes_into_array<Parent>(
    outer: ArrayContext<Parent>,
    nested: ObjectContext<ArrayContext<Parent>>,
    resumed: ArrayContext<Parent>,
)
    requires
        nested.spec_parent() == outer,
        nested.spec_end_object(resumed),
    ensures
        outer.spec_appended(ValueModel::Object(nested@), resumed),
{
}

/// An array nested under a key folds into the value of that key. Closing `nested`, whose
/// enclosing state is the pending key `pending`, resumes the object of `pending` with one pair
/// inserted: the key and the whole content of `nested` as a single array value.
pub proof fn lemma_array_closes_into_object<Parent>(
    pending: ObjectContextProxy<Parent>,
    nested: ArrayContext<ObjectContextProxy<Parent>>,
    resumed: ObjectContext<Parent>,
)
    requires
        nested.spec_parent() == pending,
        nested.spec_end_array(resumed),
    ensures
        pending.spec_object().spec_inserted(
            pending.spec_key(),
            ValueModel::Array(nested@),
            resumed,
        ),
{
}

/// An object nested under a key folds into the value of that key. Closing `nested`, whose
/// enclosing state is the pending key `pending`, resumes the object of `pending` with one pair
/// inserted: the key and the whole content of `nested` as a single object value.
pub proof fn lemma_object_closes_into_object<Parent>(
    pending: ObjectContextProxy<Parent>,
    nested: ObjectContext<ObjectContextProxy<Parent>>,
    resumed: ObjectContext<Parent>,
)
    requires
        nested.spec_parent() == pending,
        nested.spec_end_object(resumed),
    ensures
        pending.spec_object().spec_inserted(
            pending.spec_key(),
            ValueModel::Object(nested@),
            resumed,
        ),
{
}

/// Deep nesting unwinds level by level to the state it started from. With an array nested
/// under the key `pending` of an object that is itself nested in the array `outer`, closing
/// the inner array and then the object resumes `outer` with exactly one more value: the object,
/// holding its earlier pairs and then the key with the whole inner array as its single value.
/// What encloses `outer` is untouched, whatever it is, so the same holds at every depth.
pub proof fn lemma_three_levels_fold_in_turn<Parent>(
    outer: ArrayContext<Parent>,
    pending: ObjectContextProxy<ArrayContext<Parent>>,
    inner: ArrayContext<ObjectContextProxy<ArrayContext<Parent>>>,
    middle: ObjectContext<ArrayContext<Parent>>,
    resumed: ArrayContext<Parent>,
)
    requires
        pending.spec_object().spec_parent() == outer,
        inner.spec_parent() == pending,
        inner.spec_end_array(middle),
        middle.spec_end_object(resumed),
    ensures
        middle.spec_parent() == outer,
        middle@ == pending.spec_object()@.push((pending.spec_key(), ValueModel::Array(inner@))),
        resumed.spec_parent() == outer.spec_parent(),
        resumed@ == outer@.push(ValueModel::Object(middle@)),
{
    lemma_array_closes_into_object(pending, inner, middle);
    lemma_object_closes_into_array(outer, middle, resumed);
}

} // verus!
