//! Background-job and event-multiplexing substrate for a terminal user
//! interface that drives slow repository and highlighting operations off
//! the render thread.
//!
//! The crate provides the pieces that keep such an interface responsive:
//! job slots that run at most one outstanding job per kind and let a newer
//! request supersede an older one ([`jobs`]), payload-free notification
//! buses for two disjoint domains (repository work and application work),
//! a trailing-edge debouncer that coalesces bursts of filesystem change
//! signals ([`watcher`]), an independently clocked busy spinner
//! ([`spinner`]), and a multiplexer that merges the five event sources
//! into the single stream one consumer loop drains ([`select_event`]).

pub mod chan;
pub mod git;
pub mod input;
pub mod jobs;
pub mod repo;
pub mod spinner;
pub mod string_utils;
pub mod syntax;
pub mod text;
pub mod textinput;
pub mod ui;
pub mod watcher;

use vstd::prelude::*;

use crate::chan::{
    recv_source_blocking, try_recv_app, try_recv_git, try_recv_input, try_recv_notify,
    try_recv_spinner, ChannelDisconnected, SelectedSource,
};
use crate::input::{InputEvent, InputState};
use crossbeam_channel::Receiver;
use std::time::Instant;

verus! {

/// Progress of the background syntax-highlighting job: either an
/// intermediate progress report or the final completion signal.
#[derive(Clone, Copy, Debug, PartialEq, Eq, Structural)]
pub enum SyntaxHighlightProgress {
    Progress,
    Done,
}

/// Notifications of the application-level job domain (work that is not
/// derived from the repository, currently only syntax highlighting).
#[derive(Clone, Copy, Debug, PartialEq, Eq, Structural)]
pub enum AsyncAppNotification {
    SyntaxHighlighting(SyntaxHighlightProgress),
}

/// A slot-changed signal from either of the two disjoint notification
/// domains: application-level jobs or repository-level jobs.
#[derive(Clone, Copy, Debug, PartialEq, Eq, Structural)]
pub enum AsyncNotification {
    App(AsyncAppNotification),
    Git(git::AsyncNotification),
}

/// One unified event as the consumer loop sees it, tagged by origin.
#[derive(Clone, Copy, Debug, PartialEq, Eq, Structural)]
pub enum QueueEvent {
    /// The debounced watcher fired, or the bootstrap refresh: run a full
    /// update.
    Notify,
    /// The spinner ticker fired: redraw only the busy glyph.
    SpinnerUpdate,
    /// A job slot changed state on one of the two buses.
    AsyncEvent(AsyncNotification),
    /// User input arrived.
    InputEvent(InputEvent),
}

/// The very first loop iteration synthesizes a full-refresh event
/// without waiting on the multiplexer, so the interface populates
/// before any input or background job has occurred. Every later
/// iteration gets nothing here and must block on [`select_event`].
pub fn bootstrap_event(first_update: &mut bool) -> (r: Option<QueueEvent>)
    ensures
        *old(first_update) ==> r == Some(QueueEvent::Notify),
        !*old(first_update) ==> r is None,
        !*final(first_update),
{
    if *first_update {
        *first_update = false;
        Some(QueueEvent::Notify)
    } else {
        None
    }
}

/// The unified event each tagged message becomes: the origin decides
/// the variant, the payload is carried along unchanged.
pub open spec fn unified_event_spec(raw: SelectedSource) -> QueueEvent {
    match raw {
        SelectedSource::Input(e) => QueueEvent::InputEvent(e),
        SelectedSource::Git(g) => QueueEvent::AsyncEvent(AsyncNotification::Git(g)),
        SelectedSource::App(a) => QueueEvent::AsyncEvent(AsyncNotification::App(a)),
        SelectedSource::Notify => QueueEvent::Notify,
        SelectedSource::Spinner => QueueEvent::SpinnerUpdate,
    }
}

/// Tag one received message as the unified event of its origin.
pub fn unified_event(raw: SelectedSource) -> (r: QueueEvent)
    ensures
        r == unified_event_spec(raw),
{
    match raw {
        SelectedSource::Input(e) => QueueEvent::InputEvent(e),
        SelectedSource::Git(g) => QueueEvent::AsyncEvent(AsyncNotification::Git(g)),
        SelectedSource::App(a) => QueueEvent::AsyncEvent(AsyncNotification::App(a)),
        SelectedSource::Notify => QueueEvent::Notify,
        SelectedSource::Spinner => QueueEvent::SpinnerUpdate,
    }
}

/// Block until one of the five event sources has data and return
/// exactly one unified event, tagged by origin.
///
/// The sources are first polled round-robin starting at `*rotation`,
/// which advances by one on every call, so under a sustained backlog
/// each source periodically gets first claim and none is permanently
/// starved (see [`lemma_rotation_covers`]). When no source has data
/// the call parks on all five channels and completes one receive,
/// picking at random among simultaneously ready sources. A
/// disconnected channel is the fatal bus failure and is returned as
/// the error.
pub fn select_event(
    rx_input: &Receiver<InputEvent>,
    rx_git: &Receiver<git::AsyncNotification>,
    rx_app: &Receiver<AsyncAppNotification>,
    rx_notify: &Receiver<()>,
    rx_spinner: &Receiver<Instant>,
    rotation: &mut usize,
) -> (r: Result<QueueEvent, ChannelDisconnected>)
    requires
        *old(rotation) < 5,
    ensures
        *final(rotation) == (*old(rotation) + 1) % 5,
{
    let start: usize = *rotation;
    *rotation = (start + 1) % 5;
    {
        let mut k: usize = 0;
        while k < 5
            invariant
                k <= 5,
                start < 5,
                *rotation == (*old(rotation) + 1) % 5,
            decreases 5 - k,
        {
            let idx = (start + k) % 5;
            if idx == 0 {
                match try_recv_input(rx_input) {
                    Ok(Some(e)) => {
                        return Ok(QueueEvent::InputEvent(e));
                    },
                    Ok(None) => {},
                    Err(e) => {
                        return Err(e);
                    },
                }
            } else if idx == 1 {
                match try_recv_git(rx_git) {
                    Ok(Some(e)) => {
                        return Ok(QueueEvent::AsyncEvent(AsyncNotification::Git(e)));
                    },
                    Ok(None) => {},
                    Err(e) => {
                        return Err(e);
                    },
                }
            } else if idx == 2 {
                match try_recv_app(rx_app) {
                    Ok(Some(e)) => {
                        return Ok(QueueEvent::AsyncEvent(AsyncNotification::App(e)));
                    },
                    Ok(None) => {},
                    Err(e) => {
                        return Err(e);
                    },
                }
            } else if idx == 3 {
                match try_recv_notify(rx_notify) {
                    Ok(Some(_)) => {
                        return Ok(QueueEvent::Notify);
                    },
                    Ok(None) => {},
                    Err(e) => {
                        return Err(e);
                    },
                }
            } else {
                match try_recv_spinner(rx_spinner) {
                    Ok(Some(_)) => {
                        return Ok(QueueEvent::SpinnerUpdate);
                    },
                    Ok(None) => {},
                    Err(e) => {
                        return Err(e);
                    },
                }
            }
            k = k + 1;
        }
    }
    match recv_source_blocking(rx_input, rx_git, rx_app, rx_notify, rx_spinner) {
        Ok(raw) => Ok(unified_event(raw)),
        Err(e) => Err(e),
    }
}

/// No starvation of a source by the scan order: from any rotation
/// offset, every source index is the first one polled within the next
/// five calls. Together with the contract of [`select_event`] — the
/// offset advances by one per call and each call scans all five
/// sources — a source with data is serviced within a bounded number
/// of loop iterations.
pub proof fn lemma_rotation_covers(start: int, i: int)
    requires
        0 <= start < 5,
        0 <= i < 5,
    ensures
        exists|k: int| 0 <= k < 5 && #[trigger] ((start + k) % 5) == i,
{
    let k = if i >= start {
        i - start
    } else {
        5 + i - start
    };
    assert(0 <= k < 5);
    assert((start + k) % 5 == i);
}

/// What the consumer loop does with one unified event.
#[derive(Clone, Copy, Debug, PartialEq, Eq, Structural)]
pub enum LoopStep {
    /// The spinner fast path: rotate the glyph and redraw only it,
    /// skipping the full update/redraw pipeline.
    SpinnerRedraw,
    /// Hand the input to the focused components; `rehide_cursor` marks
    /// the return from an external editor, after which the terminal
    /// cursor must be hidden again.
    DispatchInput { ev: InputEvent, rehide_cursor: bool },
    /// Run the full refresh (bootstrap or watcher-triggered).
    FullUpdate,
    /// Apply a slot notification and redraw.
    AsyncUpdate(AsyncNotification),
    /// A completion that changed nothing: skip the update, still
    /// redraw.
    RedrawOnly,
}

/// The decision [`plan_step`] takes for each event.
pub open spec fn plan_step_spec(ev: QueueEvent) -> LoopStep {
    match ev {
        QueueEvent::SpinnerUpdate => LoopStep::SpinnerRedraw,
        QueueEvent::InputEvent(iev) => LoopStep::DispatchInput {
            ev: iev,
            rehide_cursor: iev == InputEvent::State(InputState::Polling),
        },
        QueueEvent::Notify => LoopStep::FullUpdate,
        QueueEvent::AsyncEvent(n) => if n == AsyncNotification::Git(
            git::AsyncNotification::FinishUnchanged,
        ) {
            LoopStep::RedrawOnly
        } else {
            LoopStep::AsyncUpdate(n)
        },
    }
}

/// Translate one unified event into the consumer loop's decision:
/// spinner ticks take the cheap redraw path, input is dispatched (with
/// the cursor re-hidden when the input reader resumes polling), a
/// refresh trigger runs the full update, and a slot notification is
/// applied unless it reports that nothing changed.
pub fn plan_step(ev: QueueEvent) -> (s: LoopStep)
    ensures
        s == plan_step_spec(ev),
{
    match ev {
        QueueEvent::SpinnerUpdate => LoopStep::SpinnerRedraw,
        QueueEvent::InputEvent(iev) => {
            let rehide = match iev {
                InputEvent::State(InputState::Polling) => true,
                _ => false,
            };
            LoopStep::DispatchInput { ev: iev, rehide_cursor: rehide }
        },
        QueueEvent::Notify => LoopStep::FullUpdate,
        QueueEvent::AsyncEvent(n) => {
            match n {
                AsyncNotification::Git(git::AsyncNotification::FinishUnchanged) => {
                    LoopStep::RedrawOnly
                },
                _ => LoopStep::AsyncUpdate(n),
            }
        },
    }
}

} // verus!
