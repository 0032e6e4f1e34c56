//! Pool configuration and the pool's collective open and close logic.

use vstd::prelude::*;

use crate::client::{ClientBuilder, JournalMode};
use crate::error::SqlError;

verus! {

/// A `PoolBuilder` holds the configuration for opening a pool of sqlite
/// connections: the per-connection settings, plus the number of
/// connections the pool is bounded by.
#[derive(Clone, Debug)]
pub struct PoolBuilder {
    pub path: Option<String>,
    pub flags: rusqlite::OpenFlags,
    pub journal_mode: Option<JournalMode>,
    pub vfs: Option<String>,
    pub num_conns: Option<usize>,
}

impl PoolBuilder {
    /// Returns a new `PoolBuilder` with the default settings.
    pub fn new() -> (r: Self)
        ensures
            r.path is None,
            r.journal_mode is None,
            r.vfs is None,
            r.num_conns is None,
    {
        let base = ClientBuilder::new();
        PoolBuilder {
            path: None,
            flags: base.flags,
            journal_mode: None,
            vfs: None,
            num_conns: None,
        }
    }

    /// Specify the path of the sqlite3 database to open.
    ///
    /// By default, an in-memory database is used.
    pub fn path(self, path: &str) -> (r: Self)
        ensures
            r.path matches Some(p) && p@ == path@,
            r.flags == self.flags,
            r.journal_mode == self.journal_mode,
            r.vfs == self.vfs,
            r.num_conns == self.num_conns,
    {
        PoolBuilder { path: Some(path.to_owned()), ..self }
    }

    /// Specify the `OpenFlags` to use when opening a new connection.
    ///
    /// By default, `OpenFlags::default()` is used.
    pub fn flags(self, flags: rusqlite::OpenFlags) -> (r: Self)
        ensures
            r.flags == flags,
            r.path == self.path,
            r.journal_mode == self.journal_mode,
            r.vfs == self.vfs,
            r.num_conns == self.num_conns,
    {
        PoolBuilder { flags, ..self }
    }

    /// Specify the `JournalMode` to set when opening a new connection.
    ///
    /// By default, no `journal_mode` is explicitly set.
    pub fn journal_mode(self, journal_mode: JournalMode) -> (r: Self)
        ensures
            r.journal_mode == Some(journal_mode),
            r.path == self.path,
            r.flags == self.flags,
            r.vfs == self.vfs,
            r.num_conns == self.num_conns,
    {
        PoolBuilder { journal_mode: Some(journal_mode), ..self }
    }

    /// Specify the name of the sqlite vfs to use.
    pub fn vfs(self, vfs: &str) -> (r: Self)
        ensures
            r.vfs matches Some(v) && v@ == vfs@,
            r.path == self.path,
            r.flags == self.flags,
            r.journal_mode == self.journal_mode,
            r.num_conns == self.num_conns,
    {
        PoolBuilder { vfs: Some(vfs.to_owned()), ..self }
    }

    /// Specify the number of sqlite connections to open as part of the
    /// pool.
    ///
    /// Defaults to the number of logical CPUs of the current system.
    pub fn num_conns(self, num_conns: usize) -> (r: Self)
        ensures
            r.num_conns == Some(num_conns),
            r.path == self.path,
            r.flags == self.flags,
            r.journal_mode == self.journal_mode,
            r.vfs == self.vfs,
    {
        PoolBuilder { num_conns: Some(num_conns), ..self }
    }

    /// The builder for one of the pool's connections: the same
    /// configuration, minus the pool size.
    pub fn client_builder(&self) -> (r: ClientBuilder)
        ensures
            r.path == self.path,
            r.flags == self.flags,
            r.journal_mode == self.journal_mode,
            r.vfs == self.vfs,
    {
        ClientBuilder {
            path: match &self.path {
                Some(p) => Some(p.clone()),
                None => None,
            },
            flags: self.flags,
            journal_mode: self.journal_mode,
            vfs: match &self.vfs {
                Some(v) => Some(v.clone()),
                None => None,
            },
        }
    }

    /// The number of connections the pool will open: the configured
    /// number or, when none was configured, the machine's available
    /// parallelism, which the runtime hands in (taken as one when it
    /// could not be determined).
    pub fn get_num_conns(&self, available_parallelism: usize) -> (r: usize)
        ensures
            self.num_conns matches Some(n) ==> r == n,
            self.num_conns is None && available_parallelism > 0 ==> r == available_parallelism,
            self.num_conns is None && available_parallelism == 0 ==> r == 1,
    {
        match self.num_conns {
            Some(n) => n,
            None => {
                if available_parallelism == 0 {
                    1
                } else {
                    available_parallelism
                }
            },
        }
    }
}

/// Collects the outcomes of opening every one of the pool's connections:
/// all of them in their order when every open succeeded, otherwise the
/// first failure.
pub fn collect_open_results<T>(results: Vec<Result<T, SqlError>>) -> (r: Result<Vec<T>, SqlError>)
    ensures
        r is Ok <==> (forall|i: int| 0 <= i < results@.len() ==> results@[i] is Ok),
        r matches Ok(vs) ==> vs@.len() == results@.len() && (forall|i: int|
            0 <= i < results@.len() ==> ((#[trigger] results@[i]) matches Ok(v) && vs@[i] == v)),
        r matches Err(e) ==> exists|i: int|
            0 <= i < results@.len() && ((#[trigger] results@[i]) matches Err(e2) && e == e2) && (
            forall|j: int| 0 <= j < i ==> (#[trigger] results@[j]) is Ok),
{
    let ghost orig = results@;
    let mut rest = results;
    let mut out: Vec<T> = Vec::new();
    while rest.len() > 0
        invariant
            orig == results@,
            orig.len() == out@.len() + rest@.len(),
            rest@ == orig.subrange(out@.len() as int, orig.len() as int),
            forall|i: int|
                0 <= i < out@.len() ==> ((#[trigger] orig[i]) matches Ok(v) && out@[i] == v),
        decreases rest@.len(),
    {
        let ghost k = out@.len() as int;
        assert(rest@[0] == orig[k]);
        let x = rest.remove(0);
        match x {
            Ok(v) => {
                out.push(v);
                proof {
                    assert(rest@ =~= orig.subrange(out@.len() as int, orig.len() as int));
                }
            },
            Err(e) => {
                proof {
                    assert((#[trigger] results@[k]) is Err && results@[k]->Err_0 == e);
                    assert(forall|j: int| 0 <= j < k ==> (#[trigger] results@[j]) is Ok);
                }
                return Err(e);
            },
        }
    }
    Ok(out)
}

/// The failures among a sequence of close outcomes, in their order.
pub open spec fn failures_of(s: Seq<Result<(), SqlError>>) -> Seq<SqlError>
    decreases s.len(),
{
    if s.len() == 0 {
        Seq::empty()
    } else {
        match s.first() {
            Ok(_) => failures_of(s.drop_first()),
            Err(e) => seq![e] + failures_of(s.drop_first()),
        }
    }
}

/// Lists every failure among the outcomes of closing the pool's
/// connections, in order: best-effort close aggregation swallows no
/// error — when several actors fail to close, all of their failures stay
/// observable.
pub fn collect_close_failures(results: Vec<Result<(), SqlError>>) -> (r: Vec<SqlError>)
    ensures
        r@ == failures_of(results@),
{
    let ghost orig = results@;
    let mut rest = results;
    let mut acc: Vec<SqlError> = Vec::new();
    while rest.len() > 0
        invariant
            failures_of(orig) == acc@ + failures_of(rest@),
        decreases rest@.len(),
    {
        let ghost before = rest@;
        let x = rest.remove(0);
        proof {
            assert(before.drop_first() =~= rest@);
        }
        match x {
            Ok(_) => {},
            Err(e) => {
                acc.push(e);
                proof {
                    assert(acc@ + failures_of(rest@) =~= failures_of(orig));
                }
            },
        }
    }
    proof {
        assert(acc@ =~= acc@ + failures_of(rest@));
    }
    acc
}

/// Aggregates the outcomes of closing every one of the pool's
/// connections. Every close has already been attempted — one failure does
/// not keep the others from being tried — and here the failures are
/// folded into one result: success when every close succeeded, otherwise
/// the first failure.
pub fn collect_close_results(results: Vec<Result<(), SqlError>>) -> (r: Result<(), SqlError>)
    ensures
        r is Ok <==> (forall|i: int| 0 <= i < results@.len() ==> results@[i] is Ok),
        r matches Err(e) ==> exists|i: int|
            0 <= i < results@.len() && ((#[trigger] results@[i]) matches Err(e2) && e == e2) && (
            forall|j: int| 0 <= j < i ==> (#[trigger] results@[j]) is Ok),
{
    match collect_open_results(results) {
        Ok(_) => Ok(()),
        Err(e) => Err(e),
    }
}

} // verus!
