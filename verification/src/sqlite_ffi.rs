//! Declarations of the underlying sqlite client's types, and the trusted
//! wrappers through which the verified code calls into it.
//!
//! Every contract in this file is believed, not proved: each wrapper's body
//! only makes the named call and converts its arguments and result. The
//! outcome of each call depends on the database and the file system, so the
//! contracts promise nothing about which variant comes back; the verified
//! callers state what holds of every outcome.

use vstd::prelude::*;

verus! {

/// Declares `rusqlite::Connection`, the single-threaded database connection
/// that an actor owns exclusively. Values of it are opaque here: the crate
/// never reads into one, it only opens, hands around and closes them.
#[verifier::external_type_specification]
#[verifier::external_body]
pub struct ExConnection(rusqlite::Connection);

/// Declares `rusqlite::OpenFlags`, the flag set passed to sqlite when a
/// connection is opened. Opaque here; chosen by the caller, handed through.
#[verifier::external_type_specification]
#[verifier::external_body]
pub struct ExOpenFlags(rusqlite::OpenFlags);

/// Declares `rusqlite::Error`, the error type of the underlying sqlite
/// client, so that it can be carried through this crate's signatures.
/// Values of it are opaque here; the crate only stores and returns them.
#[verifier::external_type_specification]
#[verifier::external_body]
pub struct ExRusqliteError(rusqlite::Error);

/// Relies on `rusqlite::OpenFlags` being `Copy`: its derived `clone` returns
/// the flags unchanged.
pub assume_specification[ <rusqlite::OpenFlags as Clone>::clone ](
    flags: &rusqlite::OpenFlags,
) -> (r: rusqlite::OpenFlags)
    ensures
        r == *flags,
;

/// Relies on `rusqlite::OpenFlags::default`: the flag set
/// `READ_WRITE | CREATE | NO_MUTEX | URI`. Opaque to the verifier.
#[verifier::external_body]
pub(crate) fn default_open_flags() -> rusqlite::OpenFlags {
    rusqlite::OpenFlags::default()
}

/// Relies on `rusqlite::Connection::open_with_flags`: opens the database at
/// `path` (`":memory:"` for an in-memory database). Whether it succeeds
/// depends on the file system, so nothing is promised of the outcome.
#[verifier::external_body]
pub(crate) fn connection_open(path: &str, flags: rusqlite::OpenFlags) -> Result<
    rusqlite::Connection,
    rusqlite::Error,
> {
    rusqlite::Connection::open_with_flags(path, flags)
}

/// Relies on `rusqlite::Connection::open_with_flags_and_vfs`: as
/// [`connection_open`], but through the named sqlite vfs.
#[verifier::external_body]
pub(crate) fn connection_open_vfs(path: &str, flags: rusqlite::OpenFlags, vfs: &str) -> Result<
    rusqlite::Connection,
    rusqlite::Error,
> {
    rusqlite::Connection::open_with_flags_and_vfs(path, flags, vfs)
}

/// Relies on `rusqlite::Connection::pragma_update_and_check` with the pragma
/// `journal_mode`: sets the pragma to `value` and returns the value the
/// database reports back, which the database may choose differently from
/// `value`. The closure only extracts the single returned column.
#[verifier::external_body]
pub(crate) fn pragma_journal_mode_update(conn: &rusqlite::Connection, value: &str) -> Result<
    String,
    rusqlite::Error,
> {
    conn.pragma_update_and_check(None, "journal_mode", value, |row| row.get(0))
}

/// Relies on `rusqlite::Connection::close`: on failure it returns the error
/// and the connection itself, unconsumed, so that closing can be attempted
/// again.
#[verifier::external_body]
pub(crate) fn connection_close(conn: rusqlite::Connection) -> Result<
    (),
    (rusqlite::Connection, rusqlite::Error),
> {
    conn.close()
}

} // verus!
