//! The handle's view of an actor: the decision logic that turns the raw
//! outcome of a queue submission into the caller's result.
//!
//! A handle is a cheap, cloneable reference to an actor's command queue;
//! the queue and the reply channels live with the runtime. What is verified
//! here is the mapping that the submit and close paths apply to every
//! possible outcome of those channels.

use vstd::prelude::*;

use crate::error::SqlError;

verus! {

/// Maps the outcome of a submitted operation to the caller's result.
///
/// `sent` says whether the command could be enqueued at all; `reply` is the
/// answer that came back over the single-use reply channel, if one came. A
/// queue that was disconnected before the send, or a reply channel dropped
/// before an answer arrived, both mean the actor is gone: the caller fails
/// with `Closed`. Otherwise the operation's own result is passed through
/// unchanged, its error wrapped as the underlying client's error.
pub fn submit_outcome<T>(sent: bool, reply: Option<Result<T, rusqlite::Error>>) -> (r: Result<
    T,
    SqlError,
>)
    ensures
        !sent ==> r matches Err(SqlError::Closed),
        sent && reply is None ==> r matches Err(SqlError::Closed),
        sent ==> (reply matches Some(Ok(v)) ==> r matches Ok(out) && out == v),
        sent ==> (reply matches Some(Err(e)) ==> r matches Err(SqlError::Rusqlite(out))
            && out == e),
{
    if !sent {
        return Err(SqlError::Closed);
    }
    match reply {
        None => Err(SqlError::Closed),
        Some(Ok(v)) => Ok(v),
        Some(Err(e)) => Err(SqlError::Rusqlite(e)),
    }
}

/// Maps the outcome of a submitted operation to the caller's result,
/// for callers that bring their own error type.
///
/// As [`submit_outcome`], but the operation already failed with the
/// caller's error type, and a gone actor is reported by converting
/// `Closed` into that type. What the caller's conversion returns is its
/// own affair; an answered submission passes the operation's result
/// through unchanged.
pub fn and_then_outcome<T, E: From<SqlError>>(sent: bool, reply: Option<Result<T, E>>) -> (r:
    Result<T, E>)
    ensures
        sent ==> (reply matches Some(res) ==> r == res),
        !sent || reply is None ==> r is Err,
{
    if !sent {
        return Err(E::from(SqlError::Closed));
    }
    match reply {
        None => Err(E::from(SqlError::Closed)),
        Some(res) => res,
    }
}

/// Maps the outcome of a close request to the caller's result.
///
/// If the actor's queue was already disconnected before the request could
/// be sent, or the actor went away before replying, the connection is
/// already closed — that counts as success. Otherwise the close outcome
/// reported by the actor is passed through unchanged.
pub fn close_outcome(sent: bool, reply: Option<Result<(), SqlError>>) -> (r: Result<(), SqlError>)
    ensures
        !sent ==> r is Ok,
        sent && reply is None ==> r is Ok,
        sent ==> (reply matches Some(res) ==> r == res),
{
    if !sent {
        return Ok(());
    }
    match reply {
        None => Ok(()),
        Some(res) => res,
    }
}

} // verus!
