//! What holds of binding, generating and mapping taken together.

use vstd::prelude::*;
use crate::binder::{admits_all, first_refusal, generate, map_values};
use crate::descriptor::{
    assembled, in_order, placeholder_count, BindOpView, DescriptorView, QueryDescriptor,
};
use crate::draft::BindList;
use crate::error::{BindError, GenerationError, PlaceholderMismatch};
use crate::query::QueryObject;
use crate::traits::{Bind, BindingTo};
use crate::value::{SqlType, SqlValue};

verus! {

/// Binding appends and keeps the order: where `after` is what binding `value`
/// to `before` gave, `after` holds one value more, `value` stands behind all
/// that `before` held, and each of those stands where it stood.
pub proof fn law_bind_appends<Q: BindingTo>(before: Q, value: SqlValue, after: Q)
    requires
        after.bound() == before.bound().push(value),
    ensures
        after.bound().len() == before.bound().len() + 1,
        after.bound()[before.bound().len() as int] == value,
        forall|i: int| 0 <= i < before.bound().len() ==> after.bound()[i] == before.bound()[i],
{
}

/// A value reaches the statement at the slot of its insertion order. Let
/// `value` be bound after `earlier`, let the descriptor of `text` and these
/// values exist, and let its values be mapped to a statement that holds
/// `held`. Then the descriptor has `value` in the bind operation for slot
/// `earlier.len()`, and the statement has it that many places behind what it
/// held, with all that it held before in its old place.
pub proof fn law_value_lands_in_its_slot(
    text: Seq<char>,
    earlier: Seq<SqlValue>,
    value: SqlValue,
    held: Seq<SqlValue>,
)
    requires
        assembled(text, earlier.push(value)) is Ok,
    ensures
        ({
            let d = assembled(text, earlier.push(value))->Ok_0;
            let mapped = held + d.values();
            &&& d.binds.len() == earlier.len() + 1
            &&& d.binds[earlier.len() as int] == (BindOpView { slot: earlier.len(), value })
            &&& forall|i: int| 0 <= i < earlier.len() ==> d.binds[i].value == earlier[i]
            &&& mapped.len() == held.len() + earlier.len() + 1
            &&& mapped[(held.len() + earlier.len()) as int] == value
            &&& forall|i: int| 0 <= i < held.len() ==> mapped[i] == held[i]
        }),
{
}

/// Mapping fills each slot with the value meant for it: whatever a call of
/// [`map_values`] returns, if it is a statement, then for each bind operation
/// of the descriptor the statement holds its value at its slot, counted from
/// the values that the statement held before, and those are where they were.
pub proof fn law_map_values_fills_slots<'q>(
    descriptor: &QueryDescriptor,
    query: QueryObject<'q>,
    mapped: Result<QueryObject<'q>, BindError>,
)
    requires
        descriptor@.well_formed(),
        call_ensures(map_values, (descriptor, query), mapped),
        mapped is Ok,
    ensures
        mapped->Ok_0.bound().len() == query.bound().len() + descriptor@.binds.len(),
        forall|i: int|
            0 <= i < descriptor@.binds.len() ==> mapped->Ok_0.bound()[(query.bound().len()
                + descriptor@.binds[i].slot) as int] == descriptor@.binds[i].value,
        forall|i: int| 0 <= i < query.bound().len() ==> mapped->Ok_0.bound()[i] == query.bound()[i],
{
}

/// Generating twice gives the same: whatever two calls of [`generate`] on one
/// domain object return, both are descriptors with the same text and the
/// same bind operations, or both are the same error.
pub proof fn law_generate_is_idempotent<S: Bind<BindList>>(
    source: &S,
    first: Result<QueryDescriptor, GenerationError<S::Error>>,
    second: Result<QueryDescriptor, GenerationError<S::Error>>,
)
    requires
        S::obeys_bind_spec(),
        call_ensures(generate::<S>, (source,), first),
        call_ensures(generate::<S>, (source,), second),
    ensures
        first is Ok <==> second is Ok,
        first is Ok ==> first->Ok_0@.text == second->Ok_0@.text && first->Ok_0@.binds
            == second->Ok_0@.binds,
        first is Err ==> first->Err_0 == second->Err_0,
{
}

/// Values come back as they went in: the descriptor of a text and as many
/// values as it has placeholders holds that text and those values in their
/// order, value `i` in the bind operation for slot `i`.
pub proof fn law_round_trip(text: Seq<char>, values: Seq<SqlValue>)
    requires
        placeholder_count(text) == values.len(),
    ensures
        assembled(text, values) is Ok,
        assembled(text, values)->Ok_0.text == text,
        assembled(text, values)->Ok_0.values() == values,
        assembled(text, values)->Ok_0.binds.len() == values.len(),
        forall|i: int|
            0 <= i < values.len() ==> assembled(text, values)->Ok_0.binds[i] == (BindOpView {
                slot: i as nat,
                value: values[i],
            }),
        assembled(text, values)->Ok_0.well_formed(),
{
}

/// A text without placeholders and no values give the descriptor of that
/// text with no bind operation.
pub proof fn law_no_placeholders(text: Seq<char>)
    requires
        placeholder_count(text) == 0,
    ensures
        assembled(text, Seq::<SqlValue>::empty()) == Ok::<DescriptorView, PlaceholderMismatch>(
            DescriptorView { text, binds: Seq::<BindOpView>::empty() },
        ),
{
    assert(in_order(Seq::<SqlValue>::empty()) =~= Seq::<BindOpView>::empty());
}

/// Mapping has one outcome: where a value is refused, the statement does not
/// take all the values, and no other refusal can be reported than this one,
/// that of the first value not taken.
pub proof fn law_refusal_is_exact(
    declared: Seq<SqlType>,
    base: nat,
    values: Seq<SqlValue>,
    e1: BindError,
    e2: BindError,
)
    requires
        first_refusal(declared, base, values, e1),
    ensures
        !admits_all(declared, base, values),
        first_refusal(declared, base, values, e2) ==> e1 == e2,
{
    let i1 = e1.slot - base;
    if first_refusal(declared, base, values, e2) {
        let i2 = e2.slot - base;
        if i1 < i2 {
            assert(values.take(i2)[i1] == values[i1]);
        }
        if i2 < i1 {
            assert(values.take(i1)[i2] == values[i2]);
        }
    }
}

} // verus!
