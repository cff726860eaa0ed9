//! The failures that this layer reports.

use vstd::prelude::*;

verus! {

/// `surrealdb::Error`, the engine's own failure. Nothing is known of what it
/// holds: it is only carried to the caller.
#[verifier::external_type_specification]
#[verifier::external_body]
pub struct ExEngineFailure(surrealdb::Error);

/// What can go wrong between a query and a typed value.
#[derive(Debug)]
pub enum DbError {
    /// A value's shape does not fit the type that was asked for.
    CastFailed,
    /// A record holds no field of this name.
    InvalidKey(&'static str),
    /// The engine failed; its error is passed through unchanged.
    Surrealdb(surrealdb::Error),
}

} // verus!
