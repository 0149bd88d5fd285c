//! Descriptors: SQL text with one bind operation for each placeholder.

use vstd::prelude::*;
use crate::error::PlaceholderMismatch;
use crate::value::{views, SqlValue, Value};

verus! {

/// Whether `c` marks a placeholder in SQL text.
pub open spec fn is_placeholder(c: char) -> bool {
    c == '?'
}

/// How many placeholders `sql` has: each `?` in it is one, wherever it stands.
pub open spec fn placeholder_count(sql: Seq<char>) -> nat {
    sql.filter(|c: char| is_placeholder(c)).len()
}

/// Counts the placeholders of `sql`.
pub fn count_placeholders(sql: &str) -> (n: usize)
    ensures
        n == placeholder_count(sql@),
{
    // `n` stays below the number of characters, which fits in `len`.
    let len: usize = sql.unicode_len();
    let mut n: usize = 0;
    proof {
        reveal(Seq::filter);
    }
    for c in it: sql.chars()
        invariant
            it.seq() == sql@,
            len == sql@.len(),
            n <= it.index(),
            n == placeholder_count(sql@.take(it.index() as int)),
    {
        proof {
            let seen = sql@.take(it.index() as int);
            assert(sql@.take(it.index() + 1) =~= seen.push(c));
            seen.lemma_filter_len_push(|c: char| is_placeholder(c), c);
        }
        if c == '?' {
            n = n + 1;
        }
    }
    proof {
        assert(sql@.take(sql@.len() as int) =~= sql@);
    }
    n
}

/// One value and the slot of the statement that it is meant for. Slots are
/// counted from 0 in the order of the placeholders.
#[derive(Clone, Debug, PartialEq, Eq)]
pub struct BindOp {
    pub slot: usize,
    pub value: Value,
}

/// The content of a [`BindOp`].
pub struct BindOpView {
    pub slot: nat,
    pub value: SqlValue,
}

impl View for BindOp {
    type V = BindOpView;

    open spec fn view(&self) -> BindOpView {
        BindOpView { slot: self.slot as nat, value: self.value@ }
    }
}

/// The content of a [`QueryDescriptor`].
pub struct DescriptorView {
    pub text: Seq<char>,
    pub binds: Seq<BindOpView>,
}

/// The bind operations that put `values` into slots 0, 1, 2 and so on.
pub open spec fn in_order(values: Seq<SqlValue>) -> Seq<BindOpView> {
    Seq::new(values.len(), |i: int| BindOpView { slot: i as nat, value: values[i] })
}

impl DescriptorView {
    /// The values of the bind operations, in their order.
    pub open spec fn values(self) -> Seq<SqlValue> {
        Seq::new(self.binds.len(), |i: int| self.binds[i].value)
    }

    /// There is one bind operation for each placeholder of the text, and the
    /// operation at position `i` is the one for slot `i`.
    pub open spec fn well_formed(self) -> bool {
        &&& placeholder_count(self.text) == self.binds.len()
        &&& forall|i: int| 0 <= i < self.binds.len() ==> (#[trigger] self.binds[i]).slot == i
    }
}

/// What putting `text` and `values` together gives: the descriptor of the
/// two if there is one value for each placeholder, and else the two counts.
pub open spec fn assembled(text: Seq<char>, values: Seq<SqlValue>) -> Result<
    DescriptorView,
    PlaceholderMismatch,
> {
    if placeholder_count(text) == values.len() {
        Ok(DescriptorView { text, binds: in_order(values) })
    } else {
        Err(
            PlaceholderMismatch {
                placeholders: placeholder_count(text) as usize,
                supplied: values.len() as usize,
            },
        )
    }
}

/// SQL text and the values for its placeholders, ready to be handed to the
/// statement that runs it. It is made once and never changed.
#[derive(Debug, PartialEq, Eq)]
pub struct QueryDescriptor {
    sql: String,
    binds: Vec<BindOp>,
}

impl View for QueryDescriptor {
    type V = DescriptorView;

    closed spec fn view(&self) -> DescriptorView {
        DescriptorView {
            text: self.sql@,
            binds: Seq::new(self.binds@.len(), |i: int| self.binds@[i]@),
        }
    }
}

impl QueryDescriptor {
    #[verifier::type_invariant]
    spec fn fits(&self) -> bool {
        self@.well_formed()
    }

    /// Puts `sql` and `values` together, value `i` for placeholder `i`. There
    /// is no descriptor unless the two have the same number.
    pub fn new(sql: String, values: Vec<Value>) -> (r: Result<
        QueryDescriptor,
        PlaceholderMismatch,
    >)
        ensures
            match r {
                Ok(d) => assembled(sql@, views(values@)) == Ok::<
                    DescriptorView,
                    PlaceholderMismatch,
                >(d@),
                Err(e) => assembled(sql@, views(values@)) == Err::<
                    DescriptorView,
                    PlaceholderMismatch,
                >(e),
            },
            r matches Ok(d) ==> d@.well_formed(),
            r matches Err(e) ==> e.placeholders != e.supplied,
    {
        let placeholders = count_placeholders(sql.as_str());
        let supplied = values.len();
        if placeholders != supplied {
            return Err(PlaceholderMismatch { placeholders, supplied });
        }
        let ghost all = values@;
        let mut binds: Vec<BindOp> = Vec::new();
        for value in it: values
            invariant
                it.seq() == all,
                binds@.len() == it.index(),
                forall|i: int|
                    0 <= i < binds@.len() ==> (#[trigger] binds@[i])@ == in_order(views(all))[i],
        {
            let slot = binds.len();
            binds.push(BindOp { slot, value });
        }
        let d = QueryDescriptor { sql, binds };
        proof {
            assert(d@.binds =~= in_order(views(all)));
            use_type_invariant(&d);
        }
        Ok(d)
    }

    /// The SQL text.
    pub fn sql(&self) -> (sql: &str)
        ensures
            sql@ == self@.text,
    {
        self.sql.as_str()
    }

    /// How many bind operations there are.
    pub fn len(&self) -> (n: usize)
        ensures
            n == self@.binds.len(),
    {
        self.binds.len()
    }

    /// The bind operations, that for slot 0 first.
    pub fn bind_ops(&self) -> (ops: &Vec<BindOp>)
        ensures
            ops@.len() == self@.binds.len(),
            forall|i: int| 0 <= i < ops@.len() ==> (#[trigger] ops@[i])@ == self@.binds[i],
    {
        &self.binds
    }

    /// The bind operation for slot `slot`.
    pub fn bind_op(&self, slot: usize) -> (op: Option<&BindOp>)
        ensures
            match op {
                Some(op) => slot < self@.binds.len() && op@ == self@.binds[slot as int],
                None => slot >= self@.binds.len(),
            },
    {
        if slot < self.binds.len() {
            Some(&self.binds[slot])
        } else {
            None
        }
    }
}

} // verus!
