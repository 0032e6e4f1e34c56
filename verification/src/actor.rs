//! The resource actor: a dedicated worker owns one connection exclusively
//! and processes commands from its queue one at a time, forever until
//! shutdown.
//!
//! The runtime part of the actor — a thread, a channel, the boxed caller
//! operations — cannot be reasoned about here, so this module verifies the
//! actor's dispatch discipline over a model: each queued operation is
//! identified by a ticket, and the connection is modeled by the sequence of
//! tickets applied to it. The real shutdown step on the connection itself,
//! [`close_resource`], is verified against the sqlite client's close call.

use vstd::prelude::*;

use crate::error::SqlError;
use crate::sqlite_ffi::connection_close;

verus! {

/// A unit of work queued to an actor: either an opaque operation to run
/// against the resource (identified here by its ticket), or a request to
/// close the resource and terminate the actor.
pub enum Command {
    Invoke { ticket: u64 },
    Shutdown { ticket: u64 },
}

/// What the actor sends back over a command's single-use reply channel.
#[derive(Debug, PartialEq, Eq, Structural)]
pub enum Reply {
    /// The operation ran to completion; its result goes to the submitter.
    OpDone { ticket: u64 },
    /// The resource was closed; the actor terminates.
    CloseOk { ticket: u64 },
    /// Closing failed; the resource is recovered and the actor lives on.
    CloseFailed { ticket: u64 },
}

/// The actor's state, as the dispatch logic sees it: whether the resource
/// is still open, and the operations the resource has observed, in order.
pub struct ActorState {
    pub alive: bool,
    pub applied: Vec<u64>,
}

impl ActorState {
    /// A freshly spawned actor: resource open, nothing applied yet.
    pub fn new() -> (r: Self)
        ensures
            r.alive,
            r.applied@ == Seq::<u64>::empty(),
    {
        ActorState { alive: true, applied: Vec::new() }
    }

    /// Runs one queued operation with exclusive access to the resource: the
    /// resource observes the operation (its ticket is appended to the
    /// trace), and the reply carries the result back to exactly the
    /// submission it belongs to.
    pub fn apply_invoke(&mut self, ticket: u64) -> (reply: u64)
        requires
            old(self).alive,
        ensures
            final(self).alive,
            final(self).applied@ == old(self).applied@.push(ticket),
            reply == ticket,
    {
        self.applied.push(ticket);
        ticket
    }

    /// Handles a shutdown command, given the outcome of closing the
    /// resource: a successful close terminates the actor; a failed close
    /// leaves the resource recovered and the actor alive, so closing can be
    /// retried — and either way no queued operation is lost or reordered.
    pub fn apply_shutdown(&mut self, close_ok: bool)
        requires
            old(self).alive,
        ensures
            final(self).alive == !close_ok,
            final(self).applied@ == old(self).applied@,
    {
        if close_ok {
            self.alive = false;
        }
    }

    /// Dispatches one received command, as the actor's loop does: an
    /// invocation runs with exclusive access to the resource and its
    /// result is replied to exactly its submitter; a shutdown command is
    /// answered with the outcome of the close attempt (`close_ok`, the
    /// outcome of [`close_resource`]), terminating the actor only when
    /// the close succeeded.
    pub fn on_command(&mut self, cmd: Command, close_ok: bool) -> (r: Reply)
        requires
            old(self).alive,
        ensures
            cmd matches Command::Invoke { ticket } ==> (final(self).alive && final(self).applied@
                == old(self).applied@.push(ticket) && r == (Reply::OpDone { ticket })),
            cmd matches Command::Shutdown { ticket } ==> (final(self).applied@ == old(self).applied@ && final(self).alive == !close_ok && (close_ok ==> r == (Reply::CloseOk {
                ticket,
            })) && (!close_ok ==> r == (Reply::CloseFailed { ticket }))),
    {
        match cmd {
            Command::Invoke { ticket } => {
                let done = self.apply_invoke(ticket);
                Reply::OpDone { ticket: done }
            },
            Command::Shutdown { ticket } => {
                self.apply_shutdown(close_ok);
                if close_ok {
                    Reply::CloseOk { ticket }
                } else {
                    Reply::CloseFailed { ticket }
                }
            },
        }
    }

    /// The actor's command-processing loop over a batch of queued
    /// invocations.
    ///
    /// This states the actor's core guarantee: for a batch of submitted
    /// operations, the replies correspond one-to-one to the submissions,
    /// and the resource observes the operations in exactly submission
    /// order — a single queue with a single consumer interleaves nothing.
    pub fn run_queue(&mut self, tickets: &Vec<u64>) -> (replies: Vec<u64>)
        requires
            old(self).alive,
        ensures
            final(self).alive,
            final(self).applied@ == old(self).applied@ + tickets@,
            replies@ == tickets@,
    {
        let mut replies: Vec<u64> = Vec::new();
        let n = tickets.len();
        let mut i: usize = 0;
        while i < n
            invariant
                i <= n,
                n == tickets@.len(),
                self.alive,
                self.applied@ == old(self).applied@ + tickets@.subrange(0, i as int),
                replies@ == tickets@.subrange(0, i as int),
            decreases n - i,
        {
            let t = tickets[i];
            let reply = self.apply_invoke(t);
            replies.push(reply);
            proof {
                assert(tickets@.subrange(0, i + 1 as int) =~= tickets@.subrange(
                    0,
                    i as int,
                ).push(t));
                assert(self.applied@ =~= old(self).applied@ + tickets@.subrange(0, i + 1 as int));
            }
            i += 1;
        }
        proof {
            assert(tickets@.subrange(0, n as int) =~= tickets@);
        }
        replies
    }
}

/// Attempts to close the resource, as the actor does on a shutdown
/// command. On success nothing is handed back and the actor may
/// terminate; on failure the connection is recovered in its pre-close
/// state — close is non-consuming on failure — and the error is reported,
/// so the actor stays alive and a later close can be retried.
pub fn close_resource(conn: rusqlite::Connection) -> (r: (
    Option<rusqlite::Connection>,
    Result<(), SqlError>,
))
    ensures
        r.1 is Ok <==> r.0 is None,
        r.1 matches Err(e) ==> e matches SqlError::Rusqlite(_),
{
    match connection_close(conn) {
        Ok(_) => (None, Ok(())),
        Err((c, e)) => (Some(c), Err(SqlError::Rusqlite(e))),
    }
}

} // verus!
