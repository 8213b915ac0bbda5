//! The trailing-edge debouncer behind the repository watcher: it
//! converts a noisy stream of raw filesystem events into a single
//! low-frequency "repository changed" trigger.
//!
//! Every raw event pushes the deadline out to `now + window`; the
//! signal fires only when a poll finds the deadline reached with no
//! intervening reset, so one quiet period yields exactly one signal no
//! matter how many raw events preceded it
//! (see [`lemma_debounce_coalesces`]).

use vstd::prelude::*;

verus! {

/// The debounce state: the quiet window and the pending deadline, if
/// any raw event is waiting to be reported.
#[derive(Clone, Copy, Debug, PartialEq, Eq, Structural)]
pub struct Debouncer {
    /// The quiet period, in milliseconds.
    pub window: u64,
    /// When the coalesced signal is due, or `None` when no raw event
    /// is pending.
    pub deadline: Option<u64>,
}

impl Debouncer {
    /// The state after a raw event at `now`: the deadline moves to
    /// `now + window`, whatever it was.
    pub open spec fn register_spec(self, now: u64) -> Debouncer {
        Debouncer { window: self.window, deadline: Some((now + self.window) as u64) }
    }

    /// Whether a poll at `now` emits the coalesced signal: a deadline
    /// is pending and the quiet period has elapsed.
    pub open spec fn poll_fires_spec(self, now: u64) -> bool {
        match self.deadline {
            Some(d) => now >= d,
            None => false,
        }
    }

    /// The state after a poll at `now`: firing consumes the deadline,
    /// anything else changes nothing.
    pub open spec fn poll_state_spec(self, now: u64) -> Debouncer {
        if self.poll_fires_spec(now) {
            Debouncer { window: self.window, deadline: None }
        } else {
            self
        }
    }

    /// An idle debouncer with the given quiet window.
    pub fn new(window: u64) -> (r: Debouncer)
        ensures
            r == (Debouncer { window, deadline: None }),
    {
        Debouncer { window, deadline: None }
    }

    /// A raw filesystem event arrived at `now`: reset the deadline to
    /// `now + window`, superseding any earlier deadline.
    pub fn register_raw_event(&mut self, now: u64)
        requires
            now + old(self).window <= u64::MAX,
        ensures
            *final(self) == old(self).register_spec(now),
    {
        self.deadline = Some(now + self.window);
    }

    /// The timer looks at the clock: emit the coalesced signal exactly
    /// when a deadline is pending and `now` has reached it.
    pub fn poll(&mut self, now: u64) -> (fired: bool)
        ensures
            fired == old(self).poll_fires_spec(now),
            *final(self) == old(self).poll_state_spec(now),
    {
        match self.deadline {
            Some(d) => {
                if now >= d {
                    self.deadline = None;
                    true
                } else {
                    false
                }
            },
            None => false,
        }
    }
}

/// One step of the debouncer's life: a raw filesystem event or a
/// timer poll, each stamped with its time.
pub enum WatchStep {
    Raw(u64),
    Poll(u64),
}

/// When a step happens.
pub open spec fn step_time(st: WatchStep) -> u64 {
    match st {
        WatchStep::Raw(t) => t,
        WatchStep::Poll(t) => t,
    }
}

/// The debouncer state after one step.
pub open spec fn step_state(s: Debouncer, st: WatchStep) -> Debouncer {
    match st {
        WatchStep::Raw(t) => s.register_spec(t),
        WatchStep::Poll(t) => s.poll_state_spec(t),
    }
}

/// The debouncer state after a whole trace of steps.
pub open spec fn run_state(s: Debouncer, tr: Seq<WatchStep>) -> Debouncer
    decreases tr.len(),
{
    if tr.len() == 0 {
        s
    } else {
        run_state(step_state(s, tr[0]), tr.drop_first())
    }
}

/// How many coalesced signals a trace of steps emits.
pub open spec fn signal_count(s: Debouncer, tr: Seq<WatchStep>) -> nat
    decreases tr.len(),
{
    if tr.len() == 0 {
        0
    } else {
        let here: nat = match tr[0] {
            WatchStep::Poll(t) => if s.poll_fires_spec(t) {
                1 as nat
            } else {
                0 as nat
            },
            WatchStep::Raw(_) => 0 as nat,
        };
        here + signal_count(step_state(s, tr[0]), tr.drop_first())
    }
}

/// Every step of the trace happens strictly before the deadline in
/// effect at that moment, where `d` is the deadline in effect at the
/// start: each raw event re-arms the deadline to its own time plus
/// the window. This is exactly a burst whose raw events lie within
/// less than the window of each other, with polls in between.
pub open spec fn covered(d: u64, tr: Seq<WatchStep>, w: u64) -> bool
    decreases tr.len(),
{
    if tr.len() == 0 {
        true
    } else {
        step_time(tr[0]) < d && match tr[0] {
            WatchStep::Raw(t) => t + w <= u64::MAX && covered((t + w) as u64, tr.drop_first(), w),
            WatchStep::Poll(_) => covered(d, tr.drop_first(), w),
        }
    }
}

/// The deadline in effect after the trace, starting from deadline `d`:
/// the last raw event's time plus the window, or `d` if the trace has
/// no raw event.
pub open spec fn rearmed_deadline(d: u64, tr: Seq<WatchStep>, w: u64) -> u64
    decreases tr.len(),
{
    if tr.len() == 0 {
        d
    } else {
        match tr[0] {
            WatchStep::Raw(t) => rearmed_deadline((t + w) as u64, tr.drop_first(), w),
            WatchStep::Poll(_) => rearmed_deadline(d, tr.drop_first(), w),
        }
    }
}

/// While an armed debouncer only sees steps that come before the
/// deadline in effect, no poll fires, and the trace ends armed at the
/// rearmed deadline.
pub proof fn lemma_armed_burst_is_silent(s: Debouncer, tr: Seq<WatchStep>, d: u64)
    requires
        s.deadline == Some(d),
        covered(d, tr, s.window),
    ensures
        signal_count(s, tr) == 0,
        run_state(s, tr) == (Debouncer {
            window: s.window,
            deadline: Some(rearmed_deadline(d, tr, s.window)),
        }),
    decreases tr.len(),
{
    if tr.len() == 0 {
    } else {
        match tr[0] {
            WatchStep::Raw(t) => {
                lemma_armed_burst_is_silent(
                    step_state(s, tr[0]),
                    tr.drop_first(),
                    (t + s.window) as u64,
                );
            },
            WatchStep::Poll(t) => {
                assert(t < d);
                assert(!s.poll_fires_spec(t));
                lemma_armed_burst_is_silent(step_state(s, tr[0]), tr.drop_first(), d);
            },
        }
    }
}

/// An idle debouncer stays idle and silent under polls alone.
pub proof fn lemma_idle_polls_silent(s: Debouncer, tr: Seq<WatchStep>)
    requires
        s.deadline is None,
        forall|i: int| 0 <= i < tr.len() ==> tr[i] is Poll,
    ensures
        signal_count(s, tr) == 0,
        run_state(s, tr) == s,
    decreases tr.len(),
{
    if tr.len() == 0 {
    } else {
        assert(tr[0] is Poll);
        lemma_idle_polls_silent(step_state(s, tr[0]), tr.drop_first());
    }
}

/// Splitting a trace splits its signal count.
pub proof fn lemma_signal_count_append(s: Debouncer, a: Seq<WatchStep>, b: Seq<WatchStep>)
    ensures
        signal_count(s, a + b) == signal_count(s, a) + signal_count(run_state(s, a), b),
        run_state(s, a + b) == run_state(run_state(s, a), b),
    decreases a.len(),
{
    if a.len() == 0 {
        assert(a + b =~= b);
    } else {
        assert((a + b)[0] == a[0]);
        assert((a + b).drop_first() =~= a.drop_first() + b);
        lemma_signal_count_append(step_state(s, a[0]), a.drop_first(), b);
    }
}

/// Debounce coalescing: a burst of raw events each arriving within
/// less than the quiet window of the previous one — with however many
/// early timer polls in between — produces exactly one downstream
/// signal. Nothing fires during the burst; the single signal fires at
/// the first poll at or after the last raw event's time plus the
/// window; and every later poll of the quiet slot stays silent.
///
/// The burst is `Raw(t0)` followed by `mid`, whose steps all satisfy
/// [`covered`]; `t_fire` is the first poll past the rearmed deadline,
/// and `tail` are later polls before any new raw event.
pub proof fn lemma_debounce_coalesces(
    s: Debouncer,
    t0: u64,
    mid: Seq<WatchStep>,
    t_fire: u64,
    tail: Seq<WatchStep>,
)
    requires
        s.deadline is None,
        t0 + s.window <= u64::MAX,
        covered((t0 + s.window) as u64, mid, s.window),
        t_fire >= rearmed_deadline((t0 + s.window) as u64, mid, s.window),
        forall|i: int| 0 <= i < tail.len() ==> tail[i] is Poll,
    ensures
        ({
            let burst = seq![WatchStep::Raw(t0)] + mid;
            let whole = burst + seq![WatchStep::Poll(t_fire)] + tail;
            &&& signal_count(s, burst) == 0
            &&& signal_count(s, whole) == 1
        }),
{
    let w = s.window;
    let armed = Debouncer { window: w, deadline: Some((t0 + w) as u64) };
    let burst = seq![WatchStep::Raw(t0)] + mid;
    let fire = seq![WatchStep::Poll(t_fire)];
    let whole = burst + fire + tail;

    assert(burst[0] == WatchStep::Raw(t0));
    assert(burst.drop_first() =~= mid);
    assert(step_state(s, burst[0]) == armed);
    lemma_armed_burst_is_silent(armed, mid, (t0 + w) as u64);
    assert(signal_count(s, burst) == 0);

    let rearmed = run_state(s, burst);
    let d_final = rearmed_deadline((t0 + w) as u64, mid, w);
    assert(rearmed == (Debouncer { window: w, deadline: Some(d_final) }));

    assert(rearmed.poll_fires_spec(t_fire));
    let idle = run_state(rearmed, fire);
    reveal_with_fuel(run_state, 2);
    reveal_with_fuel(signal_count, 2);
    assert(fire[0] == WatchStep::Poll(t_fire));
    assert(fire.drop_first() =~= Seq::<WatchStep>::empty());
    assert(idle == (Debouncer { window: w, deadline: None }));
    assert(signal_count(rearmed, fire) == 1);

    lemma_idle_polls_silent(idle, tail);

    lemma_signal_count_append(s, burst + fire, tail);
    lemma_signal_count_append(s, burst, fire);
    assert(whole =~= (burst + fire) + tail);
    assert(run_state(s, burst + fire) == idle);
    assert(signal_count(s, whole) == 1);
}

} // verus!
