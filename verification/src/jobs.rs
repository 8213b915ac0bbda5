//! The job slot: at most one outstanding background job per kind, with
//! at most one unconsumed completed result.
//!
//! A slot is driven by three parties. The consumer thread spawns work
//! with [`AsyncSingleJob::spawn`] and later pulls the outcome with
//! [`AsyncSingleJob::take_last`]. The worker reports through
//! [`AsyncSingleJob::start_next`], [`AsyncSingleJob::set_progress`] and
//! [`AsyncSingleJob::finish`]. Spawning unconditionally supersedes: it
//! replaces the queued input and discards an unconsumed result, so a
//! slot never queues two generations.

use vstd::prelude::*;

verus! {

/// A progress report of a running job, as a percentage.
#[derive(Clone, Copy, Debug, PartialEq, Eq, Structural)]
pub struct ProgressPercent {
    pub progress: u8,
}

impl ProgressPercent {
    /// The percentage `current` is of `total`, clamped to 100. A zero
    /// total counts as 1, so an empty task reports its `current` share
    /// of one unit rather than dividing by zero.
    pub open spec fn spec_percent(current: u64, total: u64) -> int {
        let t = if total == 0 { 1 as int } else { total as int };
        let raw = current * 100 / t;
        if raw > 100 {
            100
        } else {
            raw
        }
    }

    /// Progress of `current` out of `total` units of work.
    pub fn new(current: u64, total: u64) -> (r: ProgressPercent)
        ensures
            r.progress == Self::spec_percent(current, total),
    {
        let t: u128 = if total == 0 { 1 } else { total as u128 };
        let raw: u128 = (current as u128) * 100 / t;
        let capped: u128 = if raw > 100 { 100 } else { raw };
        ProgressPercent { progress: capped as u8 }
    }

    /// The report a job shows before its first real progress update.
    pub fn empty() -> (r: ProgressPercent)
        ensures
            r.progress == 0,
    {
        ProgressPercent { progress: 0 }
    }
}

/// The slot for one job kind. `J` is the owned input snapshot a job
/// runs on; `R` is the completed outcome it hands back.
pub struct AsyncSingleJob<J, R> {
    /// The latest spawned input, not yet picked up by the worker.
    pub next: Option<J>,
    /// Whether the worker is currently executing a job body.
    pub running: bool,
    /// The latest completed, not yet consumed outcome.
    pub last: Option<R>,
    /// The latest progress report of the outstanding job.
    pub progress: Option<ProgressPercent>,
}

impl<J, R> AsyncSingleJob<J, R> {
    /// The queued input waiting for the worker, if any.
    pub open spec fn next_spec(self) -> Option<J> {
        self.next
    }

    /// Whether the worker is executing a job body.
    pub open spec fn running_spec(self) -> bool {
        self.running
    }

    /// The unconsumed completed outcome, if any.
    pub open spec fn last_spec(self) -> Option<R> {
        self.last
    }

    /// The latest progress report, if any.
    pub open spec fn progress_spec(self) -> Option<ProgressPercent> {
        self.progress
    }

    /// A job is outstanding: spawned and not yet completed, whether it
    /// still waits for the worker or is being executed.
    pub open spec fn is_pending_spec(self) -> bool {
        self.next is Some || self.running
    }

    /// An idle slot: nothing queued, nothing running, nothing to take.
    pub fn new() -> (r: Self)
        ensures
            r.next_spec() is None,
            !r.running_spec(),
            r.last_spec() is None,
            r.progress_spec() is None,
            !r.is_pending_spec(),
    {
        AsyncSingleJob { next: None, running: false, last: None, progress: None }
    }

    /// Request background work on `task`. The queued input is replaced
    /// and an unconsumed result is discarded — a newer spawn always
    /// supersedes. Returns whether the caller must schedule a worker
    /// (none is active for this slot yet).
    pub fn spawn(&mut self, task: J) -> (schedule: bool)
        ensures
            final(self).next_spec() == Some(task),
            final(self).last_spec() is None,
            final(self).running_spec() == old(self).running_spec(),
            final(self).progress_spec() == old(self).progress_spec(),
            schedule == !old(self).running_spec(),
            final(self).is_pending_spec(),
    {
        self.next = Some(task);
        self.last = None;
        !self.running
    }

    /// The worker picks up the queued input, if any. With an input it
    /// starts executing; with none the worker goes idle.
    pub fn start_next(&mut self) -> (r: Option<J>)
        ensures
            r == old(self).next_spec(),
            final(self).next_spec() is None,
            final(self).running_spec() == (old(self).next_spec() is Some),
            final(self).last_spec() == old(self).last_spec(),
            final(self).progress_spec() == old(self).progress_spec(),
    {
        let r = self.next.take();
        self.running = r.is_some();
        r
    }

    /// The worker finished the job body it was executing. The outcome
    /// is written even if a newer spawn has superseded the job — the
    /// consumer's freshness check decides at consumption time.
    pub fn finish(&mut self, result: R)
        requires
            old(self).running_spec(),
        ensures
            final(self).last_spec() == Some(result),
            !final(self).running_spec(),
            final(self).next_spec() == old(self).next_spec(),
            final(self).progress_spec() is None,
            final(self).is_pending_spec() == (old(self).next_spec() is Some),
    {
        self.running = false;
        self.progress = None;
        self.last = Some(result);
    }

    /// Exactly what one `take_last` call does to a slot: it hands out
    /// the stored outcome and leaves everything else untouched.
    pub open spec fn take_last_transition(pre: Self, post: Self, r: Option<R>) -> bool {
        &&& r == pre.last_spec()
        &&& post.last_spec() is None
        &&& post.next_spec() == pre.next_spec()
        &&& post.running_spec() == pre.running_spec()
        &&& post.progress_spec() == pre.progress_spec()
    }

    /// Remove and return the unconsumed completed outcome. Consumption
    /// is one-shot: a second call without an intervening completion
    /// returns nothing (see [`lemma_take_last_one_shot`]).
    pub fn take_last(&mut self) -> (r: Option<R>)
        ensures
            r == old(self).last_spec(),
            final(self).last_spec() is None,
            Self::take_last_transition(*old(self), *final(self), r),
    {
        self.last.take()
    }

    /// Whether a job is outstanding: spawned and not yet completed.
    pub fn is_pending(&self) -> (r: bool)
        ensures
            r == self.is_pending_spec(),
    {
        self.next.is_some() || self.running
    }

    /// The last reported progress of the outstanding job, if any.
    pub fn progress(&self) -> (r: Option<ProgressPercent>)
        ensures
            r == self.progress_spec(),
    {
        self.progress
    }

    /// The worker reports progress of the job body it is executing.
    pub fn set_progress(&mut self, p: ProgressPercent)
        requires
            old(self).running_spec(),
        ensures
            final(self).progress_spec() == Some(p),
            final(self).next_spec() == old(self).next_spec(),
            final(self).running_spec() == old(self).running_spec(),
            final(self).last_spec() == old(self).last_spec(),
    {
        self.progress = Some(p);
    }
}

/// One-shot consumption: two consecutive `take_last` calls with no
/// intervening completion yield a value at most once — whatever the
/// first call returned, the second returns `None`.
pub proof fn lemma_take_last_one_shot<J, R>(
    s0: AsyncSingleJob<J, R>,
    s1: AsyncSingleJob<J, R>,
    s2: AsyncSingleJob<J, R>,
    r1: Option<R>,
    r2: Option<R>,
)
    requires
        AsyncSingleJob::take_last_transition(s0, s1, r1),
        AsyncSingleJob::take_last_transition(s1, s2, r2),
    ensures
        r2 is None,
{
}

} // verus!
