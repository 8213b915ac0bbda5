//! The busy spinner: a low-overhead visual cue on its own fixed-rate
//! clock, decoupled from job completion timing.
//!
//! On every tick the consumer loop rotates the glyph and re-reads the
//! aggregate busy flag from the slots; the glyph is shown exactly
//! while that flag is set.

use vstd::prelude::*;

verus! {

/// The spinner state: which of the four frames is current, and
/// whether any background work is pending.
#[derive(Clone, Copy, Debug, PartialEq, Eq, Structural)]
pub struct Spinner {
    /// The current frame, always below four.
    pub idx: u8,
    /// The busy flag, as of the last tick.
    pub pending: bool,
}

/// The glyph of each of the four spinner frames.
pub open spec fn frame_glyph(idx: u8) -> char {
    if idx == 0 {
        '|'
    } else if idx == 1 {
        '/'
    } else if idx == 2 {
        '-'
    } else {
        '\\'
    }
}

impl Spinner {
    /// The frame that follows `idx` in the four-frame cycle.
    pub open spec fn next_frame(idx: u8) -> u8 {
        if idx >= 3 {
            0
        } else {
            (idx + 1) as u8
        }
    }

    /// A still, idle spinner.
    pub fn new() -> (r: Spinner)
        ensures
            r == (Spinner { idx: 0, pending: false }),
    {
        Spinner { idx: 0, pending: false }
    }

    /// A tick arrived: rotate to the next frame. The busy flag is not
    /// touched here; the loop re-reads it from the slots afterwards.
    pub fn update(&mut self)
        ensures
            final(self).idx == Self::next_frame(old(self).idx),
            final(self).pending == old(self).pending,
    {
        self.idx = if self.idx >= 3 {
            0
        } else {
            self.idx + 1
        };
    }

    /// Record the aggregate busy flag the slots report.
    pub fn set_state(&mut self, pending: bool)
        ensures
            final(self).pending == pending,
            final(self).idx == old(self).idx,
    {
        self.pending = pending;
    }

    /// What the render surface should show at the spinner's cell: the
    /// current frame's glyph exactly while work is pending, nothing
    /// otherwise. This is the busy indicator itself: it reports busy
    /// if and only if the recorded flag is set.
    pub fn glyph(&self) -> (r: Option<char>)
        ensures
            (r is Some) == self.pending,
            self.pending ==> r == Some(frame_glyph(self.idx)),
    {
        if self.pending {
            Some(
                if self.idx == 0 {
                    '|'
                } else if self.idx == 1 {
                    '/'
                } else if self.idx == 2 {
                    '-'
                } else {
                    '\\'
                },
            )
        } else {
            None
        }
    }
}

impl Default for Spinner {
    /// A still, idle spinner.
    fn default() -> (r: Spinner)
        ensures
            r == (Spinner { idx: 0, pending: false }),
    {
        Spinner::new()
    }
}

} // verus!
