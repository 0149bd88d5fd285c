//! Query objects: statements of the SQLite driver that values are bound to.

use vstd::prelude::*;
use sqlx::sqlite::SqliteArguments;
use crate::driver::{add_blob, add_integer, add_null, add_text, argument_values, new_arguments};
use crate::traits::{Bindable, BindingTo};
use crate::value::{SqlType, SqlValue, Value};

verus! {

/// What running a statement returns. It has no part in how values are bound.
#[derive(Clone, Copy, Debug, PartialEq, Eq, Structural)]
pub enum QueryVariant {
    /// Nothing but the count of the rows it touched.
    Direct,
    /// Rows, each mapped to a type.
    RowMapped,
    /// The first column of each row.
    Scalar,
}

/// A statement under preparation: its kind, the types it declares for its
/// leading slots, and the values bound to it so far, which it keeps in the
/// argument list of the SQLite driver.
///
/// The three kinds bind alike. The declared types are what
/// [`map_values`](crate::binder::map_values) holds the values of a descriptor
/// against; [`bind`](BindingTo::bind) takes any value.
#[derive(Debug)]
pub struct QueryObject<'q> {
    variant: QueryVariant,
    declared: Vec<SqlType>,
    count: usize,
    arguments: SqliteArguments<'q>,
}

/// Appends `value` to `arguments`, by the driver call for its type.
fn add_value<'q>(arguments: &mut SqliteArguments<'q>, value: Value)
    ensures
        argument_values(*final(arguments)) == argument_values(*old(arguments)).push(value@),
        argument_values(*final(arguments)).len() <= usize::MAX,
{
    match value {
        Value::Null => add_null(arguments),
        Value::Integer(i) => add_integer(arguments, i),
        Value::Text(s) => add_text(arguments, s),
        Value::Blob(b) => add_blob(arguments, b),
    }
}

impl<'q> QueryObject<'q> {
    #[verifier::type_invariant]
    spec fn counted(&self) -> bool {
        self.count == argument_values(self.arguments).len()
    }

    /// The kind of the statement.
    pub closed spec fn kind(&self) -> QueryVariant {
        self.variant
    }

    /// The types declared for the leading slots.
    pub closed spec fn declared(&self) -> Seq<SqlType> {
        self.declared@
    }

    /// A statement of the given kind that declares no types and holds no
    /// values.
    pub fn new(variant: QueryVariant) -> (q: Self)
        ensures
            q.kind() == variant,
            q.declared() == Seq::<SqlType>::empty(),
            q.bound() == Seq::<SqlValue>::empty(),
    {
        QueryObject { variant, declared: Vec::new(), count: 0, arguments: new_arguments() }
    }

    /// A statement of the given kind that holds no values and declares, for
    /// each `i` below the length of `declared`, that slot `i` takes values of
    /// type `declared[i]` only. The slots behind those take any value.
    pub fn typed(variant: QueryVariant, declared: Vec<SqlType>) -> (q: Self)
        ensures
            q.kind() == variant,
            q.declared() == declared@,
            q.bound() == Seq::<SqlValue>::empty(),
    {
        QueryObject { variant, declared, count: 0, arguments: new_arguments() }
    }

    /// The kind of the statement.
    pub fn variant(&self) -> (v: QueryVariant)
        ensures
            v == self.kind(),
    {
        self.variant
    }

    /// The types declared for the leading slots.
    pub fn declared_types(&self) -> (declared: &Vec<SqlType>)
        ensures
            declared@ == self.declared(),
    {
        &self.declared
    }

    /// How many values are bound.
    pub fn len(&self) -> (n: usize)
        ensures
            n == self.bound().len(),
    {
        proof {
            use_type_invariant(self);
        }
        self.count
    }

    /// Gives up the argument list, for the driver to run the statement with.
    pub fn into_arguments(self) -> (arguments: SqliteArguments<'q>)
        ensures
            argument_values(arguments) == self.bound(),
    {
        self.arguments
    }
}

impl<'q> BindingTo for QueryObject<'q> {
    open spec fn obeys_binding_spec() -> bool {
        true
    }

    closed spec fn bound(&self) -> Seq<SqlValue> {
        argument_values(self.arguments)
    }

    fn bind<T: Bindable>(self, value: T) -> (r: Self)
        ensures
            r.kind() == self.kind(),
            r.declared() == self.declared(),
    {
        proof {
            use_type_invariant(&self);
        }
        let QueryObject { variant, declared, count, arguments } = self;
        let mut arguments = arguments;
        add_value(&mut arguments, value.into_value());
        QueryObject { variant, declared, count: count + 1, arguments }
    }
}

} // verus!
