//! A typed access layer over a schemaless document database.
//!
//! Query arguments are bound by name, possibly nested, and the untyped values
//! that come back are cast to the types an application expects, with one
//! failure mode where the shapes disagree.

pub mod args;
pub mod cast;
pub mod datetime_text;
pub mod duration_text;
pub mod decimal;
pub mod engine;
pub mod error;
pub mod float;
pub mod object;
pub mod query;
pub mod record;
pub mod text;
pub mod value;

pub use crate::args::ArgsBuilder;
pub use crate::cast::{FromValue, ValueCast};
pub use crate::error::DbError;
pub use crate::query::{Db, QueryBuilder};
pub use crate::record::Record;
pub use crate::value::Value;
