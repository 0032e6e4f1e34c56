//! The pool's bookkeeping: a bounded set of actors, an idle list, a waiter
//! list, and the closing flag, together with every transition the pool
//! performs on them.
//!
//! All of the pool's shared state lives in this one structure, guarded at
//! run time by a single mutual-exclusion region and touched only through
//! the transitions below, each of which is O(1) bookkeeping (no transition
//! blocks or suspends). The runtime performs the slow work — creating an
//! actor, handing a handle over a channel — outside the critical section
//! and reports the outcome back through the matching transition.
//!
//! Handles and waiters are identified by numbers; the runtime keeps the
//! actual channel endpoints keyed by them.

use vstd::prelude::*;

use crate::error::SqlError;

verus! {

/// What `acquire` decided, evaluated under the pool's critical section.
pub enum AcquireStep {
    /// The pool is closing: the caller fails with `Closed`.
    Refused,
    /// An idle handle was popped and checked out to the caller.
    Reuse { handle: u64 },
    /// There was room to grow: the caller must create a new actor outside
    /// the critical section and then report back with `create_finished`
    /// or `create_failed`.
    StartCreate,
    /// The pool is saturated: the caller was enqueued as a waiter and must
    /// suspend until a release hands it a handle, or abandon the wait with
    /// `waiter_abandoned`.
    Wait { waiter: u64 },
}

/// What `release` decided for the handle being given back.
pub enum ReleaseStep {
    /// A waiter was pending: the handle goes straight to it, never
    /// touching the idle list.
    HandToWaiter { waiter: u64, handle: u64 },
    /// Nobody was waiting: the handle was parked on the idle list.
    MadeIdle,
    /// The pool is closing: the handle is forwarded to the shutdown
    /// coordinator, which will shut its actor down and then report
    /// `actor_drained`.
    ForwardToCloser { handle: u64 },
}

/// The pool's shared bookkeeping.
///
/// `count` is the number of live actors plus the creations still in
/// flight; it only grows up to `max_conns` and only shrinks when a
/// creation fails or an actor is drained during shutdown. The four parts
/// of `count` are: handles parked idle, handles checked out (`in_use`),
/// creations in flight (`creating`), and handles held by the shutdown
/// coordinator awaiting their actor's termination (`draining`).
pub struct PoolState {
    pub max_conns: usize,
    pub count: usize,
    pub idle: Vec<u64>,
    pub in_use: usize,
    pub creating: usize,
    pub draining: usize,
    pub waiters: Vec<u64>,
    pub next_waiter: u64,
    pub closing: bool,
}

impl PoolState {
    /// The pool invariant. Every handle is accounted for exactly once, the
    /// pool never exceeds its bound, draining only happens while closing,
    /// and once closing no handle sits idle and no waiter is left pending.
    pub open spec fn wf(self) -> bool {
        &&& self.max_conns >= 1
        &&& self.count as int == self.idle@.len() + self.in_use as int + self.creating as int
            + self.draining as int
        &&& self.count <= self.max_conns
        &&& (!self.closing ==> self.draining == 0)
        &&& (self.closing ==> self.idle@.len() == 0 && self.waiters@.len() == 0)
    }

    /// Shutdown is complete exactly when no actor is left.
    pub open spec fn spec_close_finished(self) -> bool {
        self.count == 0
    }

    /// A fresh pool: empty, not closing, bounded by `max_conns`.
    pub fn new(max_conns: usize) -> (r: PoolState)
        requires
            max_conns >= 1,
        ensures
            r.wf(),
            r.max_conns == max_conns,
            r.count == 0,
            r.in_use == 0,
            r.creating == 0,
            r.draining == 0,
            r.idle@.len() == 0,
            r.waiters@.len() == 0,
            r.next_waiter == 0,
            !r.closing,
    {
        PoolState {
            max_conns,
            count: 0,
            idle: Vec::new(),
            in_use: 0,
            creating: 0,
            draining: 0,
            waiters: Vec::new(),
            next_waiter: 0,
            closing: false,
        }
    }

    /// One acquire attempt, evaluated under the critical section.
    ///
    /// A closing pool refuses. Otherwise an idle handle is reused if one
    /// exists; else, if there is room to grow, `count` is raised *before*
    /// the slow creation happens outside the lock; else the caller is
    /// enqueued as a waiter. In every branch the invariant is preserved,
    /// so no sequence of acquires can check out more than `max_conns`
    /// handles.
    pub fn acquire(&mut self) -> (r: AcquireStep)
        requires
            old(self).wf(),
            old(self).next_waiter < u64::MAX,
        ensures
            final(self).wf(),
            final(self).max_conns == old(self).max_conns,
            final(self).closing == old(self).closing,
            old(self).closing ==> r is Refused && *final(self) == *old(self),
            !old(self).closing && old(self).idle@.len() > 0 ==> (r matches AcquireStep::Reuse {
                handle,
            } && handle == old(self).idle@.last() && final(self).idle@ == old(self).idle@.drop_last() && final(self).in_use == old(self).in_use + 1 && final(self).count
                == old(self).count && final(self).creating == old(self).creating && final(self).waiters@ == old(self).waiters@ && final(self).next_waiter == old(self).next_waiter),
            !old(self).closing && old(self).idle@.len() == 0 && old(self).count < old(self).max_conns ==> (r is StartCreate && final(self).count == old(self).count + 1 && final(self).creating == old(self).creating + 1 && final(self).in_use == old(self).in_use && final(self).idle@ == old(self).idle@ && final(self).waiters@ == old(self).waiters@ && final(self).next_waiter == old(self).next_waiter),
            !old(self).closing && old(self).idle@.len() == 0 && old(self).count >= old(self).max_conns ==> (r matches AcquireStep::Wait { waiter } && waiter == old(self).next_waiter && final(self).waiters@ == old(self).waiters@.push(old(self).next_waiter)
                && final(self).count == old(self).count && final(self).in_use == old(self).in_use
                && final(self).idle@ == old(self).idle@ && final(self).next_waiter == old(self).next_waiter + 1),
    {
        if self.closing {
            return AcquireStep::Refused;
        }
        match self.idle.pop() {
            Some(handle) => {
                self.in_use = self.in_use + 1;
                AcquireStep::Reuse { handle }
            },
            None => {
                if self.count < self.max_conns {
                    self.count = self.count + 1;
                    self.creating = self.creating + 1;
                    AcquireStep::StartCreate
                } else {
                    let waiter = self.next_waiter;
                    self.next_waiter = self.next_waiter + 1;
                    self.waiters.push(waiter);
                    AcquireStep::Wait { waiter }
                }
            },
        }
    }

    /// A creation that `acquire` started has produced a live actor: the
    /// new handle is checked out to the caller that started it.
    pub fn create_finished(&mut self)
        requires
            old(self).wf(),
            old(self).creating > 0,
        ensures
            final(self).wf(),
            final(self).creating == old(self).creating - 1,
            final(self).in_use == old(self).in_use + 1,
            final(self).count == old(self).count,
            final(self).idle@ == old(self).idle@,
            final(self).waiters@ == old(self).waiters@,
            final(self).draining == old(self).draining,
            final(self).closing == old(self).closing,
            final(self).max_conns == old(self).max_conns,
            final(self).next_waiter == old(self).next_waiter,
    {
        self.creating = self.creating - 1;
        self.in_use = self.in_use + 1;
    }

    /// A creation that `acquire` started has failed: the accounting is
    /// corrected — `count` returns to what it was before the attempt, so a
    /// failed open leaves nothing leaked — and, when the pool is closing at
    /// that moment, the closer is told that one fewer actor needs
    /// draining (the returned flag).
    pub fn create_failed(&mut self) -> (notify_closer: bool)
        requires
            old(self).wf(),
            old(self).creating > 0,
        ensures
            final(self).wf(),
            notify_closer == old(self).closing,
            final(self).count == old(self).count - 1,
            final(self).creating == old(self).creating - 1,
            final(self).in_use == old(self).in_use,
            final(self).idle@ == old(self).idle@,
            final(self).waiters@ == old(self).waiters@,
            final(self).draining == old(self).draining,
            final(self).closing == old(self).closing,
            final(self).max_conns == old(self).max_conns,
            final(self).next_waiter == old(self).next_waiter,
    {
        self.creating = self.creating - 1;
        self.count = self.count - 1;
        self.closing
    }

    /// A checked-out handle is given back.
    ///
    /// While the pool is not closing: if a waiter is pending the handle is
    /// handed to it directly — it never becomes observably idle in
    /// between, so no wakeup can be lost — and the most recently enqueued
    /// waiter is served first; only when nobody waits does the handle go
    /// onto the idle list. While the pool is closing, the handle is
    /// forwarded to the shutdown coordinator instead: no new work starts
    /// on an actor mid-shutdown.
    ///
    /// If the handoff to the returned waiter turns out to be abandoned,
    /// the runtime first removes that waiter (`waiter_abandoned` has then
    /// already run, or the handoff failure stands for it) and calls
    /// `release` again: the handle counts as checked out until some
    /// handoff succeeds.
    pub fn release(&mut self, handle: u64) -> (r: ReleaseStep)
        requires
            old(self).wf(),
            old(self).in_use > 0,
        ensures
            final(self).wf(),
            final(self).max_conns == old(self).max_conns,
            final(self).closing == old(self).closing,
            final(self).next_waiter == old(self).next_waiter,
            old(self).closing ==> (r matches ReleaseStep::ForwardToCloser { handle: h } && h
                == handle && final(self).in_use == old(self).in_use - 1 && final(self).draining
                == old(self).draining + 1 && final(self).count == old(self).count && final(self).idle@ == old(self).idle@ && final(self).waiters@ == old(self).waiters@),
            !old(self).closing && old(self).waiters@.len() > 0 ==> (r
                matches ReleaseStep::HandToWaiter { waiter, handle: h } && h == handle && waiter
                == old(self).waiters@.last() && final(self).waiters@ == old(self).waiters@.drop_last() && final(self).idle@ == old(self).idle@ && final(self).in_use
                == old(self).in_use && final(self).count == old(self).count),
            !old(self).closing && old(self).waiters@.len() == 0 ==> (r is MadeIdle && final(self).idle@ == old(self).idle@.push(handle) && final(self).in_use == old(self).in_use - 1
                && final(self).count == old(self).count && final(self).waiters@ == old(self).waiters@),
    {
        if self.closing {
            self.in_use = self.in_use - 1;
            self.draining = self.draining + 1;
            return ReleaseStep::ForwardToCloser { handle };
        }
        match self.waiters.pop() {
            Some(waiter) => ReleaseStep::HandToWaiter { waiter, handle },
            None => {
                self.in_use = self.in_use - 1;
                self.idle.push(handle);
                ReleaseStep::MadeIdle
            },
        }
    }

    /// A waiter stopped waiting before a handle reached it (its acquire
    /// was canceled): its first pending entry, if it still has one, is
    /// removed, and it must never be granted a handle afterwards.
    pub fn waiter_abandoned(&mut self, waiter: u64)
        requires
            old(self).wf(),
        ensures
            final(self).wf(),
            final(self).max_conns == old(self).max_conns,
            final(self).closing == old(self).closing,
            final(self).count == old(self).count,
            final(self).in_use == old(self).in_use,
            final(self).creating == old(self).creating,
            final(self).draining == old(self).draining,
            final(self).idle@ == old(self).idle@,
            final(self).next_waiter == old(self).next_waiter,
            !old(self).waiters@.contains(waiter) ==> final(self).waiters@ == old(self).waiters@,
            old(self).waiters@.contains(waiter) ==> exists|i: int|
                0 <= i < old(self).waiters@.len() && old(self).waiters@[i] == waiter && (forall|
                    j: int,
                |
                    0 <= j < i ==> old(self).waiters@[j] != waiter) && final(self).waiters@ == old(self).waiters@.remove(i),
    {
        let n = self.waiters.len();
        let mut i: usize = 0;
        while i < n
            invariant
                i <= n,
                n == self.waiters@.len(),
                old(self).wf(),
                *self == *old(self),
                forall|j: int| 0 <= j < i ==> self.waiters@[j] != waiter,
            decreases n - i,
        {
            if self.waiters[i] == waiter {
                self.waiters.remove(i);
                return ;
            }
            i += 1;
        }
    }

    /// Shutdown begins: exactly once.
    ///
    /// The first call marks the pool closing and, under the same critical
    /// section, captures the whole idle list (returned first, for the
    /// coordinator to shut down) and the whole waiter list (returned
    /// second; every one of these waiters is woken with a `Closed`
    /// failure, never left hanging). A second call finds the pool already
    /// closing and fails with `Closed` — repeating `close` is a defined
    /// error, never a hang.
    pub fn close_begin(&mut self) -> (r: Result<(Vec<u64>, Vec<u64>), SqlError>)
        requires
            old(self).wf(),
        ensures
            final(self).wf(),
            final(self).max_conns == old(self).max_conns,
            final(self).closing,
            final(self).next_waiter == old(self).next_waiter,
            old(self).closing ==> (r matches Err(SqlError::Closed) && *final(self) == *old(self)),
            !old(self).closing ==> (r matches Ok(captured) && captured.0@ == old(self).idle@
                && captured.1@ == old(self).waiters@ && final(self).idle@.len() == 0 && final(self).waiters@.len() == 0 && final(self).draining == old(self).draining + old(self).idle@.len() && final(self).count == old(self).count && final(self).in_use == old(self).in_use && final(self).creating == old(self).creating),
    {
        if self.closing {
            return Err(SqlError::Closed);
        }
        self.closing = true;
        let mut captured_idle: Vec<u64> = Vec::new();
        core::mem::swap(&mut self.idle, &mut captured_idle);
        let mut captured_waiters: Vec<u64> = Vec::new();
        core::mem::swap(&mut self.waiters, &mut captured_waiters);
        self.draining = self.draining + captured_idle.len();
        Ok((captured_idle, captured_waiters))
    }

    /// The shutdown coordinator has finished with one actor it held for
    /// draining (its shutdown was issued and acknowledged, or had to be
    /// abandoned): one fewer actor is left.
    pub fn actor_drained(&mut self)
        requires
            old(self).wf(),
            old(self).draining > 0,
        ensures
            final(self).wf(),
            final(self).draining == old(self).draining - 1,
            final(self).count == old(self).count - 1,
            final(self).in_use == old(self).in_use,
            final(self).creating == old(self).creating,
            final(self).idle@ == old(self).idle@,
            final(self).waiters@ == old(self).waiters@,
            final(self).closing == old(self).closing,
            final(self).max_conns == old(self).max_conns,
            final(self).next_waiter == old(self).next_waiter,
    {
        self.draining = self.draining - 1;
        self.count = self.count - 1;
    }

    /// The coordinator has issued a shutdown to each of a batch of handles
    /// it held for draining and gathered the outcomes: every one of those
    /// actors is now done with, whether its close succeeded or not — one
    /// failed close does not block closing the others — and the failures
    /// are kept, in order, for the closer's aggregate result.
    pub fn drain_batch(&mut self, outcomes: Vec<Result<(), SqlError>>) -> (fails: Vec<SqlError>)
        requires
            old(self).wf(),
            old(self).draining >= outcomes@.len(),
        ensures
            final(self).wf(),
            final(self).draining == old(self).draining - outcomes@.len(),
            final(self).count == old(self).count - outcomes@.len(),
            final(self).in_use == old(self).in_use,
            final(self).creating == old(self).creating,
            final(self).idle@ == old(self).idle@,
            final(self).waiters@ == old(self).waiters@,
            final(self).closing == old(self).closing,
            final(self).max_conns == old(self).max_conns,
            final(self).next_waiter == old(self).next_waiter,
            fails@ == crate::pool::failures_of(outcomes@),
    {
        let n = outcomes.len();
        let mut i: usize = 0;
        while i < n
            invariant
                i <= n,
                n == outcomes@.len(),
                old(self).wf(),
                old(self).draining >= n,
                self.wf(),
                self.draining == old(self).draining - i,
                self.count == old(self).count - i,
                self.in_use == old(self).in_use,
                self.creating == old(self).creating,
                self.idle@ == old(self).idle@,
                self.waiters@ == old(self).waiters@,
                self.closing == old(self).closing,
                self.max_conns == old(self).max_conns,
                self.next_waiter == old(self).next_waiter,
            decreases n - i,
        {
            self.actor_drained();
            i += 1;
        }
        crate::pool::collect_close_failures(outcomes)
    }

    /// Whether shutdown is complete: the closer may return only when every
    /// actor has terminated.
    pub fn close_finished(&self) -> (r: bool)
        ensures
            r == self.spec_close_finished(),
    {
        self.count == 0
    }
}

/// Law: the pool saturation invariant. However acquires, releases and
/// creations interleave, a well-formed pool never has more handles checked
/// out — nor more checked out plus being created — than `max_conns`, for
/// any `max_conns >= 1`.
pub proof fn lemma_saturation(s: PoolState)
    requires
        s.wf(),
    ensures
        s.in_use <= s.max_conns,
        s.in_use + s.creating + s.idle@.len() + s.draining <= s.max_conns,
{
}

/// Law: shutdown waits for work in flight. While any handle is still
/// checked out — an operation is mid-flight on its actor — the pool's
/// actor count cannot be zero, so `close` cannot yet report completion;
/// it returns only after that handle is released, forwarded to the
/// coordinator, and its actor drained.
pub proof fn lemma_close_waits_for_in_use(s: PoolState)
    requires
        s.wf(),
        s.in_use > 0,
    ensures
        !s.spec_close_finished(),
{
}

} // verus!
