//! The boundary to sqlx: the argument list of its SQLite driver.
//!
//! Nothing in this file is proved. Each function states what the driver's
//! source shows of the call it makes, and the rest of the crate is verified
//! against these statements.

use vstd::prelude::*;
use sqlx::sqlite::SqliteArguments;
use crate::value::SqlValue;

verus! {

/// `sqlx::sqlite::SqliteArguments`: the values bound to a statement so far.
#[verifier::external_type_specification]
#[verifier::external_body]
pub struct ExSqliteArguments<'q>(SqliteArguments<'q>);

/// The values that an argument list holds, first bound first.
pub uninterp spec fn argument_values(arguments: SqliteArguments<'_>) -> Seq<SqlValue>;

/// `SqliteArguments::default()`: a list that holds no value.
#[verifier::external_body]
pub(crate) fn new_arguments<'q>() -> (arguments: SqliteArguments<'q>)
    ensures
        argument_values(arguments) == Seq::<SqlValue>::empty(),
{
    SqliteArguments::default()
}

/// `Arguments::add` with an `Option<i64>` that is `None`: the driver appends
/// SQL NULL. The list is a `Vec`, so its length stays within `usize`.
#[verifier::external_body]
pub(crate) fn add_null<'q>(arguments: &mut SqliteArguments<'q>)
    ensures
        argument_values(*final(arguments)) == argument_values(*old(arguments)).push(SqlValue::Null),
        argument_values(*final(arguments)).len() <= usize::MAX,
{
    sqlx::Arguments::add(arguments, Option::<i64>::None)
}

/// `Arguments::add` with an `i64`: the driver appends it as a 64-bit integer.
/// The list is a `Vec`, so its length stays within `usize`.
#[verifier::external_body]
pub(crate) fn add_integer<'q>(arguments: &mut SqliteArguments<'q>, value: i64)
    ensures
        argument_values(*final(arguments)) == argument_values(*old(arguments)).push(
            SqlValue::Integer(value),
        ),
        argument_values(*final(arguments)).len() <= usize::MAX,
{
    sqlx::Arguments::add(arguments, value)
}

/// `Arguments::add` with a `String`: the driver appends it as text, as it is.
/// The list is a `Vec`, so its length stays within `usize`.
#[verifier::external_body]
pub(crate) fn add_text<'q>(arguments: &mut SqliteArguments<'q>, value: String)
    ensures
        argument_values(*final(arguments)) == argument_values(*old(arguments)).push(
            SqlValue::Text(value@),
        ),
        argument_values(*final(arguments)).len() <= usize::MAX,
{
    sqlx::Arguments::add(arguments, value)
}

/// `Arguments::add` with a `Vec<u8>`: the driver appends it as a blob, as it
/// is. The list is a `Vec`, so its length stays within `usize`.
#[verifier::external_body]
pub(crate) fn add_blob<'q>(arguments: &mut SqliteArguments<'q>, value: Vec<u8>)
    ensures
        argument_values(*final(arguments)) == argument_values(*old(arguments)).push(
            SqlValue::Blob(value@),
        ),
        argument_values(*final(arguments)).len() <= usize::MAX,
{
    sqlx::Arguments::add(arguments, value)
}

} // verus!
