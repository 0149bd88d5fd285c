//! What values are bound to before there is a descriptor: a bare list, and a
//! draft, which is a list with its SQL text.

use vstd::prelude::*;
use core::convert::Infallible;
use crate::traits::{Bind, Bindable, BindingTo};
use crate::value::{views, SqlValue, Value};

verus! {

/// Values in the order in which they were bound, and nothing else. A domain
/// object binds to such a list when its descriptor is generated.
#[derive(Clone, Debug, PartialEq, Eq)]
pub struct BindList {
    values: Vec<Value>,
}

impl BindList {
    /// The list that holds no value.
    pub fn new() -> (list: BindList)
        ensures
            list.bound() == Seq::<SqlValue>::empty(),
    {
        BindList { values: Vec::new() }
    }

    /// How many values are bound.
    pub fn len(&self) -> (n: usize)
        ensures
            n == self.bound().len(),
    {
        self.values.len()
    }

    /// The value bound at `slot`.
    pub fn get(&self, slot: usize) -> (value: Option<&Value>)
        ensures
            match value {
                Some(v) => slot < self.bound().len() && v@ == self.bound()[slot as int],
                None => slot >= self.bound().len(),
            },
    {
        if slot < self.values.len() {
            Some(&self.values[slot])
        } else {
            None
        }
    }

    /// The values, first bound first.
    pub fn values(&self) -> (values: &Vec<Value>)
        ensures
            views(values@) == self.bound(),
    {
        &self.values
    }

    /// The values, first bound first.
    pub fn into_values(self) -> (values: Vec<Value>)
        ensures
            views(values@) == self.bound(),
    {
        self.values
    }
}

impl BindingTo for BindList {
    open spec fn obeys_binding_spec() -> bool {
        true
    }

    closed spec fn bound(&self) -> Seq<SqlValue> {
        views(self.values@)
    }

    fn bind<T: Bindable>(self, value: T) -> (r: Self) {
        let mut values = self.values;
        values.push(value.into_value());
        BindList { values }
    }
}

/// A domain object given in full: SQL text and the values for its
/// placeholders. Values are bound to it one by one; it never fails to say
/// what it holds.
#[derive(Clone, Debug, PartialEq, Eq)]
pub struct Draft {
    sql: String,
    binds: BindList,
}

/// The content of a [`Draft`].
pub struct DraftView {
    pub text: Seq<char>,
    pub values: Seq<SqlValue>,
}

impl View for Draft {
    type V = DraftView;

    closed spec fn view(&self) -> DraftView {
        DraftView { text: self.sql@, values: self.binds.bound() }
    }
}

impl Draft {
    /// The draft of `sql` with no value bound.
    pub fn new(sql: String) -> (draft: Draft)
        ensures
            draft@ == (DraftView { text: sql@, values: Seq::<SqlValue>::empty() }),
    {
        Draft { sql, binds: BindList::new() }
    }

    /// The SQL text.
    pub fn sql(&self) -> (sql: &str)
        ensures
            sql@ == self@.text,
    {
        self.sql.as_str()
    }

    /// The values bound so far.
    pub fn binds(&self) -> (binds: &BindList)
        ensures
            binds.bound() == self@.values,
    {
        &self.binds
    }
}

impl BindingTo for Draft {
    open spec fn obeys_binding_spec() -> bool {
        true
    }

    open spec fn bound(&self) -> Seq<SqlValue> {
        self@.values
    }

    fn bind<T: Bindable>(self, value: T) -> (r: Self)
        ensures
            r@.text == self@.text,
    {
        Draft { sql: self.sql, binds: self.binds.bind(value) }
    }
}

impl<Q: BindingTo> Bind<Q> for Draft {
    type Error = Infallible;

    open spec fn obeys_bind_spec() -> bool {
        true
    }

    open spec fn text(&self) -> Result<Seq<char>, Infallible> {
        Ok(self@.text)
    }

    open spec fn values(&self) -> Result<Seq<SqlValue>, Infallible> {
        Ok(self@.values)
    }

    fn query(&self) -> (r: Result<String, Infallible>) {
        Ok(self.sql.clone())
    }

    fn map_values(&self, query: Q) -> (r: Result<Q, Infallible>) {
        let values = self.binds.values();
        let ghost all = self@.values;
        let mut q = query;
        let mut i: usize = 0;
        while i < values.len()
            invariant
                views(values@) == all,
                i <= values.len(),
                Q::obeys_binding_spec() ==> q.bound() == query.bound() + all.take(i as int),
            decreases values.len() - i,
        {
            q = q.bind(values[i].clone());
            i = i + 1;
        }
        Ok(q)
    }
}

} // verus!
