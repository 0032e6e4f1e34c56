//! Connection configuration: the builder, the journal-mode setting, and the
//! verified opening sequence for a single connection.

use vstd::prelude::*;
use vstd::string::*;
use vstd::utf8::encode_utf8;

use crate::error::SqlError;
use crate::sqlite_ffi::{
    connection_open, connection_open_vfs, default_open_flags, pragma_journal_mode_update,
};

verus! {

/// The possible sqlite journal modes.
#[derive(Clone, Copy, Debug)]
pub enum JournalMode {
    Delete,
    Truncate,
    Persist,
    Memory,
    Wal,
    Off,
}

/// The string representation of a journal mode, as sqlite spells it.
pub open spec fn journal_mode_chars(m: JournalMode) -> Seq<char> {
    match m {
        JournalMode::Delete => "DELETE"@,
        JournalMode::Truncate => "TRUNCATE"@,
        JournalMode::Persist => "PERSIST"@,
        JournalMode::Memory => "MEMORY"@,
        JournalMode::Wal => "WAL"@,
        JournalMode::Off => "OFF"@,
    }
}

impl JournalMode {
    /// Returns the appropriate string representation of the journal mode.
    pub fn as_str(&self) -> (r: &'static str)
        ensures
            r@ == journal_mode_chars(*self),
    {
        match self {
            Self::Delete => "DELETE",
            Self::Truncate => "TRUNCATE",
            Self::Persist => "PERSIST",
            Self::Memory => "MEMORY",
            Self::Wal => "WAL",
            Self::Off => "OFF",
        }
    }
}

/// ASCII-lowercases one byte, as `u8::to_ascii_lowercase` does: `b'A'` to
/// `b'Z'` map to `b'a'` to `b'z'`, every other byte is unchanged.
pub open spec fn ascii_lower_byte(b: u8) -> u8 {
    if 65 <= b <= 90 {
        (b + 32) as u8
    } else {
        b
    }
}

/// Whether two byte strings are an ASCII case-insensitive match.
pub open spec fn bytes_eq_ignore_ascii_case(a: Seq<u8>, b: Seq<u8>) -> bool {
    a.len() == b.len() && (forall|i: int|
        0 <= i < a.len() ==> ascii_lower_byte(a[i]) == ascii_lower_byte(b[i]))
}

fn lower_byte(b: u8) -> (r: u8)
    ensures
        r == ascii_lower_byte(b),
{
    if 65 <= b && b <= 90 {
        b + 32
    } else {
        b
    }
}

/// Whether two strings are an ASCII case-insensitive match, compared byte by
/// byte as `str::eq_ignore_ascii_case` does.
pub fn eq_ignore_ascii_case(a: &str, b: &str) -> (r: bool)
    ensures
        r == bytes_eq_ignore_ascii_case(encode_utf8(a@), encode_utf8(b@)),
{
    let av = a.as_bytes_vec();
    let bv = b.as_bytes_vec();
    let n = av.len();
    if n != bv.len() {
        return false;
    }
    let mut i: usize = 0;
    while i < n
        invariant
            i <= n,
            n == av@.len(),
            n == bv@.len(),
            av@ == encode_utf8(a@),
            bv@ == encode_utf8(b@),
            forall|j: int| 0 <= j < i ==> ascii_lower_byte(av@[j]) == ascii_lower_byte(bv@[j]),
        decreases n - i,
    {
        if lower_byte(av[i]) != lower_byte(bv[i]) {
            return false;
        }
        i += 1;
    }
    true
}

/// A `ClientBuilder` holds the configuration for opening a single sqlite
/// connection: the database path (an in-memory database when none is set),
/// the open flags, an optional journal mode to establish, and an optional
/// vfs name.
#[derive(Clone, Debug)]
pub struct ClientBuilder {
    pub path: Option<String>,
    pub flags: rusqlite::OpenFlags,
    pub journal_mode: Option<JournalMode>,
    pub vfs: Option<String>,
}

impl ClientBuilder {
    /// Returns a new `ClientBuilder` with the default settings.
    pub fn new() -> (r: Self)
        ensures
            r.path is None,
            r.journal_mode is None,
            r.vfs is None,
    {
        ClientBuilder {
            path: None,
            flags: default_open_flags(),
            journal_mode: None,
            vfs: None,
        }
    }

    /// Specify the path of the sqlite3 database to open.
    ///
    /// By default, an in-memory database is used.
    pub fn path(self, path: &str) -> (r: Self)
        ensures
            r.path matches Some(p) && p@ == path@,
            r.flags == self.flags,
            r.journal_mode == self.journal_mode,
            r.vfs == self.vfs,
    {
        ClientBuilder { path: Some(path.to_owned()), ..self }
    }

    /// Specify the `OpenFlags` to use when opening a new connection.
    ///
    /// By default, `OpenFlags::default()` is used.
    pub fn flags(self, flags: rusqlite::OpenFlags) -> (r: Self)
        ensures
            r.flags == flags,
            r.path == self.path,
            r.journal_mode == self.journal_mode,
            r.vfs == self.vfs,
    {
        ClientBuilder { flags, ..self }
    }

    /// Specify the `JournalMode` to set when opening a new connection.
    ///
    /// By default, no `journal_mode` is explicitly set.
    pub fn journal_mode(self, journal_mode: JournalMode) -> (r: Self)
        ensures
            r.journal_mode == Some(journal_mode),
            r.path == self.path,
            r.flags == self.flags,
            r.vfs == self.vfs,
    {
        ClientBuilder { journal_mode: Some(journal_mode), ..self }
    }

    /// Specify the name of the sqlite vfs to use.
    pub fn vfs(self, vfs: &str) -> (r: Self)
        ensures
            r.vfs matches Some(v) && v@ == vfs@,
            r.path == self.path,
            r.flags == self.flags,
            r.journal_mode == self.journal_mode,
    {
        ClientBuilder { vfs: Some(vfs.to_owned()), ..self }
    }
}

/// Checks the value the database reported back after a journal-mode update
/// against the mode that was requested, comparing ASCII case-insensitively.
/// Accepts exactly the matching values; any other value is a
/// `PragmaUpdate` error carrying the expected and the reported value.
pub fn verify_journal_mode(journal_mode: JournalMode, got: String) -> (r: Result<(), SqlError>)
    ensures
        r matches Ok(_) <==> bytes_eq_ignore_ascii_case(
            encode_utf8(got@),
            encode_utf8(journal_mode_chars(journal_mode)),
        ),
        r matches Err(e) ==> (e matches SqlError::PragmaUpdate { name, exp, got: g }
            && name@ == "journal_mode"@
            && exp@ == journal_mode_chars(journal_mode)
            && g@ == got@),
{
    let val = journal_mode.as_str();
    if eq_ignore_ascii_case(got.as_str(), val) {
        Ok(())
    } else {
        Err(SqlError::PragmaUpdate { name: "journal_mode", exp: val, got })
    }
}

/// Opens a connection as the builder says: at the configured path (in
/// memory when none is set), through the configured vfs when one is set,
/// and, when a journal mode is configured, establishes it and checks the
/// value the database reports back.
///
/// Opening itself may fail for reasons only the database knows, so success
/// cannot be promised; what is promised is how each error comes about: a
/// `PragmaUpdate` error arises exactly from a configured journal mode that
/// the database did not adopt, never otherwise, and opening never reports
/// `Closed`.
pub fn create_conn(builder: ClientBuilder) -> (r: Result<rusqlite::Connection, SqlError>)
    ensures
        !(r matches Err(SqlError::Closed)),
        builder.journal_mode is None ==> !(r matches Err(SqlError::PragmaUpdate { .. })),
        r matches Err(e) ==> (e matches SqlError::PragmaUpdate { name, exp, got } ==> (
            name@ == "journal_mode"@
            && (builder.journal_mode matches Some(jm) && exp@ == journal_mode_chars(jm))
            && !bytes_eq_ignore_ascii_case(encode_utf8(got@), encode_utf8(exp@))
        )),
{
    let ClientBuilder { path, flags, journal_mode, vfs } = builder;
    let path_str: &str = match &path {
        Some(p) => p.as_str(),
        None => ":memory:",
    };
    let opened = match &vfs {
        Some(v) => connection_open_vfs(path_str, flags, v.as_str()),
        None => connection_open(path_str, flags),
    };
    let conn = match opened {
        Ok(c) => c,
        Err(e) => {
            return Err(SqlError::Rusqlite(e));
        },
    };
    match journal_mode {
        None => Ok(conn),
        Some(jm) => {
            match pragma_journal_mode_update(&conn, jm.as_str()) {
                Err(e) => Err(SqlError::Rusqlite(e)),
                Ok(out) => {
                    match verify_journal_mode(jm, out) {
                        Ok(_) => Ok(conn),
                        Err(e) => Err(e),
                    }
                },
            }
        },
    }
}

} // verus!
