//! The error type shared by clients and pools.

use vstd::prelude::*;

verus! {

/// Enum of all possible errors.
#[derive(Debug)]
pub enum SqlError {
    /// Indicates that the connection to the sqlite database is closed.
    Closed,
    /// Error updating PRAGMA: the database reported a value other than the
    /// one that was requested.
    PragmaUpdate { name: &'static str, exp: &'static str, got: String },
    /// Represents a [`rusqlite::Error`], passed through unchanged.
    Rusqlite(rusqlite::Error),
}

impl From<rusqlite::Error> for SqlError {
    fn from(value: rusqlite::Error) -> (r: Self) {
        SqlError::Rusqlite(value)
    }
}

impl vstd::std_specs::convert::FromSpecImpl<rusqlite::Error> for SqlError {
    open spec fn obeys_from_spec() -> bool {
        true
    }

    open spec fn from_spec(value: rusqlite::Error) -> Self {
        SqlError::Rusqlite(value)
    }
}

} // verus!
