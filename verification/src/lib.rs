//! Typed binding of parameter values to SQL statements.
//!
//! A domain object yields SQL text and, in the order of its placeholders, the
//! values that go with it. [`generate`] turns it into a [`QueryDescriptor`]:
//! the text and one [`BindOp`] for each placeholder. [`map_values`] binds the
//! values of a descriptor to a [`QueryObject`], which collects them in the
//! argument list of the SQLite driver, whatever kind of result the statement
//! will give.

pub mod binder;
pub mod descriptor;
pub mod draft;
pub mod driver;
pub mod error;
pub mod laws;
pub mod query;
pub mod traits;
pub mod value;

pub use binder::{generate, generate_and_map, map_values};
pub use descriptor::{count_placeholders, BindOp, QueryDescriptor};
pub use draft::{BindList, Draft};
pub use error::{BindError, Error, GenerationError, PlaceholderMismatch};
pub use query::{QueryObject, QueryVariant};
pub use traits::{Bind, Bindable, BindingTo};
pub use value::{SqlType, Value};
