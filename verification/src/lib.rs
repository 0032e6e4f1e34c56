//! An async-friendly access layer for SQLite connections.
//!
//! A SQLite connection must only ever be touched by one thread at a time.
//! This crate wraps each connection in a dedicated worker (an actor) that
//! owns the connection exclusively and serializes all operations on it
//! through a command queue, and adds a pool layer on top: bounded sizing,
//! a waiter queue for callers when the pool is saturated, and coordinated
//! graceful shutdown.

mod actor;
mod client;
mod error;
mod handle;
mod pool;
mod pool_state;
mod sqlite_ffi;

pub use actor::{ActorState, Command, Reply, close_resource};
pub use client::{ClientBuilder, JournalMode, create_conn, eq_ignore_ascii_case, verify_journal_mode};
pub use error::SqlError;
pub use handle::{and_then_outcome, close_outcome, submit_outcome};
pub use pool::{PoolBuilder, collect_close_failures, collect_close_results, collect_open_results};
pub use pool_state::{
    AcquireStep, PoolState, ReleaseStep, lemma_close_waits_for_in_use, lemma_saturation,
};
