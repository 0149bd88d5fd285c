//! The values that can be bound, their SQL types, and the Rust types that
//! convert to them.

use vstd::prelude::*;
use crate::traits::Bindable;

verus! {

/// The SQL storage classes a bound value can be declared with.
#[derive(Clone, Copy, Debug, PartialEq, Eq, Structural)]
pub enum SqlType {
    Null,
    Integer,
    Text,
    Blob,
}

/// The mathematical content of a value: what contracts speak of.
pub enum SqlValue {
    Null,
    Integer(i64),
    Text(Seq<char>),
    Blob(Seq<u8>),
}

/// A scalar that can be attached to a placeholder of a statement.
#[derive(Debug, PartialEq, Eq)]
pub enum Value {
    Null,
    Integer(i64),
    Text(String),
    Blob(Vec<u8>),
}

impl View for Value {
    type V = SqlValue;

    open spec fn view(&self) -> SqlValue {
        match *self {
            Value::Null => SqlValue::Null,
            Value::Integer(i) => SqlValue::Integer(i),
            Value::Text(s) => SqlValue::Text(s@),
            Value::Blob(b) => SqlValue::Blob(b@),
        }
    }
}

/// The contents of `values`, one for one.
pub open spec fn views(values: Seq<Value>) -> Seq<SqlValue> {
    Seq::new(values.len(), |i: int| values[i]@)
}

impl SqlValue {
    /// The SQL type of the value.
    pub open spec fn sql_type(self) -> SqlType {
        match self {
            SqlValue::Null => SqlType::Null,
            SqlValue::Integer(_) => SqlType::Integer,
            SqlValue::Text(_) => SqlType::Text,
            SqlValue::Blob(_) => SqlType::Blob,
        }
    }
}

impl Value {
    /// The SQL type that the value carries.
    pub fn sql_type(&self) -> (t: SqlType)
        ensures
            t == self@.sql_type(),
    {
        match self {
            Value::Null => SqlType::Null,
            Value::Integer(_) => SqlType::Integer,
            Value::Text(_) => SqlType::Text,
            Value::Blob(_) => SqlType::Blob,
        }
    }
}

impl Clone for Value {
    fn clone(&self) -> (v: Value)
        ensures
            v@ == self@,
    {
        match self {
            Value::Null => Value::Null,
            Value::Integer(i) => Value::Integer(*i),
            Value::Text(s) => Value::Text(s.clone()),
            Value::Blob(b) => Value::Blob(b.clone()),
        }
    }
}

impl Bindable for i64 {
    open spec fn obeys_bindable_spec() -> bool {
        true
    }

    open spec fn sql_value(&self) -> SqlValue {
        SqlValue::Integer(*self)
    }

    fn into_value(self) -> (v: Value) {
        Value::Integer(self)
    }
}

impl Bindable for String {
    open spec fn obeys_bindable_spec() -> bool {
        true
    }

    open spec fn sql_value(&self) -> SqlValue {
        SqlValue::Text(self@)
    }

    fn into_value(self) -> (v: Value) {
        Value::Text(self)
    }
}

impl Bindable for Vec<u8> {
    open spec fn obeys_bindable_spec() -> bool {
        true
    }

    open spec fn sql_value(&self) -> SqlValue {
        SqlValue::Blob(self@)
    }

    fn into_value(self) -> (v: Value) {
        Value::Blob(self)
    }
}

impl<'a> Bindable for &'a str {
    open spec fn obeys_bindable_spec() -> bool {
        true
    }

    open spec fn sql_value(&self) -> SqlValue {
        SqlValue::Text(self@)
    }

    fn into_value(self) -> (v: Value) {
        Value::Text(self.to_owned())
    }
}

impl Bindable for Value {
    open spec fn obeys_bindable_spec() -> bool {
        true
    }

    open spec fn sql_value(&self) -> SqlValue {
        self@
    }

    fn into_value(self) -> (v: Value) {
        self
    }
}

impl<T: Bindable> Bindable for Option<T> {
    open spec fn obeys_bindable_spec() -> bool {
        T::obeys_bindable_spec()
    }

    open spec fn sql_value(&self) -> SqlValue {
        match *self {
            Some(t) => t.sql_value(),
            None => SqlValue::Null,
        }
    }

    fn into_value(self) -> (v: Value) {
        match self {
            Some(t) => t.into_value(),
            None => Value::Null,
        }
    }
}

} // verus!
