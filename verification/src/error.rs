//! The error taxonomy of the library.
//!
//! Validation failures are reported before any store access; parse failures
//! never panic; a missing row is `SqlxEntityNotFound`; more rows than one
//! where exactly one was expected is `InvariantViolation`; every other
//! store-reported failure is wrapped opaquely in `Sqlx`.

use vstd::prelude::*;

use crate::values::Uuid;

verus! {

/// One error kind for every failure the library can report.
#[derive(Debug)]
pub enum Error {
    /// A store-reported failure (constraint violation, unknown table,
    /// malformed row), wrapped opaquely as a message.
    Sqlx(String),
    /// Zero rows were returned or affected where exactly one was expected.
    SqlxEntityNotFound { entity: String, id: Uuid },
    /// More than one row was returned where uniqueness was assumed.
    InvariantViolation { entity: String, id: Uuid },
    /// A record for create had an empty title.
    BookTitleNotSet,
    /// A record for create had an empty authors list.
    BookAuthorsNotSet,
    /// External text could not be parsed as a timestamp.
    InvalidDateTimeFormat,
    /// External text could not be parsed as an identifier.
    InvalidUuidFormat,
    /// A failure outside the persistence layer, wrapped as a message.
    Service(String),
}

/// The result type used by every fallible function of the library.
pub type Result<T> = core::result::Result<T, Error>;

} // verus!
