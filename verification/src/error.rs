//! The errors of generating and of mapping.

use vstd::prelude::*;
use crate::value::SqlType;

verus! {

/// The placeholders of a text and the values supplied for it differ in number.
#[derive(Clone, Copy, Debug, PartialEq, Eq, Structural)]
pub struct PlaceholderMismatch {
    /// How many placeholders the text has.
    pub placeholders: usize,
    /// How many values were supplied.
    pub supplied: usize,
}

/// No descriptor could be generated.
#[derive(Clone, Debug, PartialEq, Eq)]
pub enum GenerationError<E> {
    /// The domain object could not produce its text or its values.
    Source(E),
    /// The text and the values do not fit together.
    Placeholders(PlaceholderMismatch),
}

/// The statement does not take a value at the slot it was meant for.
#[derive(Clone, Copy, Debug, PartialEq, Eq, Structural)]
pub struct BindError {
    /// The slot of the statement that refused the value.
    pub slot: usize,
    /// The type that the statement declares for the slot.
    pub expected: SqlType,
    /// The type of the value.
    pub found: SqlType,
}

/// What can go wrong between a domain object and a bound statement.
#[derive(Clone, Debug, PartialEq, Eq)]
pub enum Error<E> {
    Generation(GenerationError<E>),
    Bind(BindError),
}

} // verus!
