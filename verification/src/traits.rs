//! The three interfaces of the binder.
//!
//! Each can be implemented by code that is not verified. Such an
//! implementation says nothing of itself, and nothing is taken for granted of
//! it: what a method promises, it promises of the implementations whose
//! `obeys_*` function is true, and those are proved to keep the promise.

use vstd::prelude::*;
use crate::value::{SqlValue, Value};

verus! {

/// A Rust value that can be bound to a placeholder: it can be moved to the
/// task that runs the statement, and it converts to a [`Value`], which carries
/// its SQL type.
pub trait Bindable: Send + Sized {
    /// Whether the implementation is held to what `into_value` states.
    open spec fn obeys_bindable_spec() -> bool {
        false
    }

    /// The SQL value that this Rust value stands for.
    open spec fn sql_value(&self) -> SqlValue {
        arbitrary()
    }

    fn into_value(self) -> (v: Value)
        ensures
            Self::obeys_bindable_spec() ==> v@ == self.sql_value(),
    ;
}

/// A query object that values can be bound to, one placeholder after the
/// other.
pub trait BindingTo: Sized {
    /// Whether the implementation is held to what `bind` states.
    open spec fn obeys_binding_spec() -> bool {
        false
    }

    /// The values bound so far, in the order of their placeholders.
    open spec fn bound(&self) -> Seq<SqlValue> {
        arbitrary()
    }

    /// Binds `value` to the next placeholder. Binding only ever appends: one
    /// value is added, behind those bound before, which keep their places.
    fn bind<T: Bindable>(self, value: T) -> (r: Self)
        ensures
            Self::obeys_binding_spec() ==> r.bound().len() == self.bound().len() + 1
                && r.bound().drop_last() == self.bound(),
            Self::obeys_binding_spec() && T::obeys_bindable_spec() ==> r.bound()
                == self.bound().push(value.sql_value()),
    ;
}

/// A domain object that stands for one SQL statement and the values that go
/// with it.
///
/// An implementation that obeys answers for the object as it is: its text and
/// its values are functions of the object alone, so that asking twice gives
/// the same answer.
pub trait Bind<Q: BindingTo> {
    type Error;

    /// Whether the implementation is held to what `query` and `map_values`
    /// state.
    open spec fn obeys_bind_spec() -> bool {
        false
    }

    /// The SQL text of the object, or the error that keeps it from having one.
    open spec fn text(&self) -> Result<Seq<char>, Self::Error> {
        arbitrary()
    }

    /// The values of the object in the order of the placeholders of its text,
    /// or the error that keeps it from supplying them.
    open spec fn values(&self) -> Result<Seq<SqlValue>, Self::Error> {
        arbitrary()
    }

    /// Produces the SQL text.
    fn query(&self) -> (r: Result<String, Self::Error>)
        ensures
            Self::obeys_bind_spec() ==> match r {
                Ok(sql) => self.text() == Ok::<Seq<char>, Self::Error>(sql@),
                Err(e) => self.text() == Err::<Seq<char>, Self::Error>(e),
            },
    ;

    /// Binds the values of the object to `query`, after those that it holds
    /// already.
    fn map_values(&self, query: Q) -> (r: Result<Q, Self::Error>)
        ensures
            Self::obeys_bind_spec() && Q::obeys_binding_spec() ==> match r {
                Ok(q) => self.values() is Ok && q.bound() == query.bound() + self.values()->Ok_0,
                Err(e) => self.values() == Err::<Seq<SqlValue>, Self::Error>(e),
            },
    ;
}

} // verus!
