//! Generating the descriptor of a domain object, and mapping the values of a
//! descriptor to a query object.

use vstd::prelude::*;
use crate::descriptor::{assembled, DescriptorView, QueryDescriptor};
use crate::draft::BindList;
use crate::error::{BindError, Error, GenerationError};
use crate::query::QueryObject;
use crate::traits::{Bind, BindingTo};
use crate::value::{SqlType, SqlValue};

verus! {

/// What generating gives for a domain object with the given text and values:
/// the error of the object if it has one, that of the text first, and else
/// what the text and the values put together give.
pub open spec fn generated<E>(
    text: Result<Seq<char>, E>,
    values: Result<Seq<SqlValue>, E>,
) -> Result<DescriptorView, GenerationError<E>> {
    match text {
        Err(e) => Err(GenerationError::Source(e)),
        Ok(text) => match values {
            Err(e) => Err(GenerationError::Source(e)),
            Ok(values) => match assembled(text, values) {
                Ok(d) => Ok(d),
                Err(m) => Err(GenerationError::Placeholders(m)),
            },
        },
    }
}

/// Generates the descriptor of `source`: its SQL text, and one bind operation
/// for each of its values, in their order. It asks `source` for its text, then
/// has it bind its values to an empty list, and puts the two together.
///
/// Of a source that obeys, the result is stated in full. Of any other, the
/// descriptor is made of what its two methods returned, as
/// [`QueryDescriptor::new`] makes it.
pub fn generate<S: Bind<BindList>>(source: &S) -> (r: Result<
    QueryDescriptor,
    GenerationError<S::Error>,
>)
    ensures
        S::obeys_bind_spec() ==> match r {
            Ok(d) => generated(source.text(), source.values()) == Ok::<
                DescriptorView,
                GenerationError<S::Error>,
            >(d@),
            Err(e) => generated(source.text(), source.values()) == Err::<
                DescriptorView,
                GenerationError<S::Error>,
            >(e),
        },
        r matches Ok(d) ==> d@.well_formed(),
        r matches Err(GenerationError::Placeholders(m)) ==> m.placeholders != m.supplied,
{
    let sql = match source.query() {
        Ok(sql) => sql,
        Err(e) => {
            return Err(GenerationError::Source(e));
        },
    };
    let list = match source.map_values(BindList::new()) {
        Ok(list) => list,
        Err(e) => {
            return Err(GenerationError::Source(e));
        },
    };
    match QueryDescriptor::new(sql, list.into_values()) {
        Ok(d) => Ok(d),
        Err(m) => Err(GenerationError::Placeholders(m)),
    }
}

/// Whether a statement that declares `declared` takes a value of type `found`
/// at `slot`: it does unless it declares another type for that slot.
pub open spec fn admits(declared: Seq<SqlType>, slot: int, found: SqlType) -> bool {
    0 <= slot < declared.len() ==> declared[slot] == found
}

/// Whether a statement that declares `declared` and holds `base` values takes
/// all of `values`, one after the other.
pub open spec fn admits_all(declared: Seq<SqlType>, base: nat, values: Seq<SqlValue>) -> bool {
    forall|i: int|
        0 <= i < values.len() ==> admits(declared, base + i, (#[trigger] values[i]).sql_type())
}

/// Whether `e` reports the first of `values` that a statement which declares
/// `declared` and holds `base` values does not take.
pub open spec fn first_refusal(
    declared: Seq<SqlType>,
    base: nat,
    values: Seq<SqlValue>,
    e: BindError,
) -> bool {
    let i = e.slot - base;
    &&& 0 <= i < values.len()
    &&& admits_all(declared, base, values.take(i))
    &&& !admits(declared, e.slot as int, values[i].sql_type())
    &&& e.expected == declared[e.slot as int]
    &&& e.found == values[i].sql_type()
}

/// Binds the values of `descriptor` to `query`, in their order and behind the
/// values that `query` holds already. All of them are bound or, where `query`
/// declares another type for the slot that one of them would take, none is:
/// the error then names the first such slot.
pub fn map_values<'q>(descriptor: &QueryDescriptor, query: QueryObject<'q>) -> (r: Result<
    QueryObject<'q>,
    BindError,
>)
    ensures
        match r {
            Ok(q) => {
                &&& admits_all(query.declared(), query.bound().len(), descriptor@.values())
                &&& q.bound() == query.bound() + descriptor@.values()
                &&& q.kind() == query.kind()
                &&& q.declared() == query.declared()
            },
            Err(e) => first_refusal(
                query.declared(),
                query.bound().len(),
                descriptor@.values(),
                e,
            ),
        },
{
    let ops = descriptor.bind_ops();
    let declared = query.declared_types();
    let base = query.len();
    let ghost values = descriptor@.values();
    let mut i: usize = 0;
    while i < ops.len()
        invariant
            values == descriptor@.values(),
            ops@.len() == values.len(),
            forall|j: int| 0 <= j < ops@.len() ==> (#[trigger] ops@[j])@.value == values[j],
            declared@ == query.declared(),
            base == query.bound().len(),
            i <= ops.len(),
            admits_all(query.declared(), base as nat, values.take(i as int)),
        decreases ops.len() - i,
    {
        if base < declared.len() && i < declared.len() - base {
            let slot = base + i;
            let expected = declared[slot];
            let found = ops[i].value.sql_type();
            if expected != found {
                return Err(BindError { slot, expected, found });
            }
        }
        i = i + 1;
    }
    let mut q = query;
    let mut k: usize = 0;
    while k < ops.len()
        invariant
            ops@.len() == values.len(),
            forall|j: int| 0 <= j < ops@.len() ==> (#[trigger] ops@[j])@.value == values[j],
            k <= ops.len(),
            q.bound() == query.bound() + values.take(k as int),
            q.kind() == query.kind(),
            q.declared() == query.declared(),
        decreases ops.len() - k,
    {
        q = q.bind(ops[k].value.clone());
        k = k + 1;
    }
    proof {
        assert(values.take(values.len() as int) =~= values);
    }
    Ok(q)
}

/// Generates the descriptor of `source` and binds its values to `query`. The
/// error says which of the two steps failed; no value is bound then.
pub fn generate_and_map<'q, S: Bind<BindList>>(source: &S, query: QueryObject<'q>) -> (r: Result<
    (QueryDescriptor, QueryObject<'q>),
    Error<S::Error>,
>)
    ensures
        S::obeys_bind_spec() ==> match r {
            Ok((d, _)) => generated(source.text(), source.values()) == Ok::<
                DescriptorView,
                GenerationError<S::Error>,
            >(d@),
            Err(Error::Generation(e)) => generated(source.text(), source.values()) == Err::<
                DescriptorView,
                GenerationError<S::Error>,
            >(e),
            Err(Error::Bind(e)) => {
                &&& generated(source.text(), source.values()) is Ok
                &&& first_refusal(
                    query.declared(),
                    query.bound().len(),
                    generated(source.text(), source.values())->Ok_0.values(),
                    e,
                )
            },
        },
        r matches Ok((d, q)) ==> ({
            &&& d@.well_formed()
            &&& admits_all(query.declared(), query.bound().len(), d@.values())
            &&& q.bound() == query.bound() + d@.values()
            &&& q.kind() == query.kind()
            &&& q.declared() == query.declared()
        }),
        r matches Err(Error::Generation(GenerationError::Placeholders(m))) ==> m.placeholders
            != m.supplied,
        r matches Err(Error::Bind(e)) ==> query.bound().len() <= e.slot < query.declared().len(),
{
    let descriptor = match generate(source) {
        Ok(d) => d,
        Err(e) => {
            return Err(Error::Generation(e));
        },
    };
    match map_values(&descriptor, query) {
        Ok(q) => Ok((descriptor, q)),
        Err(e) => Err(Error::Bind(e)),
    }
}

} // verus!
