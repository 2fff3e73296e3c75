//! Scroll position of the message log.
//!
//! The log is positioned by a closed feedback loop: a keystroke or a
//! send records a requested offset in `pending_offset`; the next layout
//! pass consumes that request, clamps it to the actual content extent,
//! writes the clamped value back into `current_offset`, and clears the
//! request. Scroll-to-bottom asks for an offset far beyond any plausible
//! content extent and relies on that clamp, so the exact content height
//! never needs to be known in advance.

use vstd::prelude::*;

verus! {

/// Offset requested by one line-step keystroke.
pub const LINE_STEP: u64 = 60;

/// The scroll-to-bottom request: an offset beyond any plausible content
/// extent, clamped by the following layout pass.
pub const SCROLL_BOTTOM: u64 = 100_000;

/// Scroll position of the message log, in display units.
#[derive(Clone, Copy, Debug, PartialEq, Eq)]
pub struct ScrollState {
    /// Offset actually applied by the latest layout pass.
    pub current_offset: u64,
    /// Offset requested for the next layout pass, if any.
    pub pending_offset: Option<u64>,
    /// Height of the scroll viewport as of the latest layout pass; the
    /// page-step keystrokes scroll by this amount.
    pub viewport_height: u64,
}

pub open spec fn min_u64(a: u64, b: u64) -> u64 {
    if a <= b {
        a
    } else {
        b
    }
}

pub open spec fn sat_add(a: u64, b: u64) -> u64 {
    if a + b <= u64::MAX {
        (a + b) as u64
    } else {
        u64::MAX
    }
}

pub open spec fn sat_sub(a: u64, b: u64) -> u64 {
    if a >= b {
        (a - b) as u64
    } else {
        0
    }
}

impl ScrollState {
    /// The starting position: top of the log, nothing requested.
    pub open spec fn spec_initial() -> ScrollState {
        ScrollState { current_offset: 0, pending_offset: None, viewport_height: 0 }
    }

    pub fn initial() -> (r: ScrollState)
        ensures
            r == ScrollState::spec_initial(),
    {
        ScrollState { current_offset: 0, pending_offset: None, viewport_height: 0 }
    }

    /// The state after requesting the offset `target`.
    pub open spec fn spec_request(self, target: u64) -> ScrollState {
        ScrollState { pending_offset: Some(target), ..self }
    }

    /// The state after a scroll-to-bottom request.
    pub open spec fn spec_to_bottom(self) -> ScrollState {
        self.spec_request(SCROLL_BOTTOM)
    }

    /// The state after a scroll-to-top request.
    pub open spec fn spec_to_top(self) -> ScrollState {
        self.spec_request(0)
    }

    /// The state after requesting one step of `step` units downwards
    /// from the current offset.
    pub open spec fn spec_step_down(self, step: u64) -> ScrollState {
        self.spec_request(sat_add(self.current_offset, step))
    }

    /// The state after requesting one step of `step` units upwards from
    /// the current offset, stopping at the top.
    pub open spec fn spec_step_up(self, step: u64) -> ScrollState {
        self.spec_request(sat_sub(self.current_offset, step))
    }

    /// The state after a layout pass over content whose largest
    /// reachable offset is `max_offset`, rendered in a viewport of
    /// height `viewport_height`: the requested offset (or, with no
    /// request, the current one) clamped to the content, the request
    /// cleared, and the viewport height recorded.
    pub open spec fn spec_laid_out(self, max_offset: u64, viewport_height: u64) -> ScrollState {
        let target = match self.pending_offset {
            Some(t) => t,
            None => self.current_offset,
        };
        ScrollState {
            current_offset: min_u64(target, max_offset),
            pending_offset: None,
            viewport_height: viewport_height,
        }
    }

    /// Requests the given offset for the next layout pass.
    pub fn request(&mut self, target: u64)
        ensures
            *final(self) == old(self).spec_request(target),
    {
        self.pending_offset = Some(target);
    }

    /// Requests a jump to the bottom of the log.
    pub fn to_bottom(&mut self)
        ensures
            *final(self) == old(self).spec_to_bottom(),
    {
        self.pending_offset = Some(SCROLL_BOTTOM);
    }

    /// Requests a jump to the top of the log.
    pub fn to_top(&mut self)
        ensures
            *final(self) == old(self).spec_to_top(),
    {
        self.pending_offset = Some(0);
    }

    /// Requests one step downwards from the current offset.
    pub fn step_down(&mut self, step: u64)
        ensures
            *final(self) == old(self).spec_step_down(step),
    {
        let target = if self.current_offset <= u64::MAX - step {
            self.current_offset + step
        } else {
            u64::MAX
        };
        self.pending_offset = Some(target);
    }

    /// Requests one step upwards from the current offset, stopping at
    /// the top.
    pub fn step_up(&mut self, step: u64)
        ensures
            *final(self) == old(self).spec_step_up(step),
    {
        let target = if self.current_offset >= step {
            self.current_offset - step
        } else {
            0
        };
        self.pending_offset = Some(target);
    }

    /// Records the outcome of a layout pass: consumes and clears any
    /// requested offset, clamped to the content extent. Whatever was
    /// requested, the request never survives the pass.
    pub fn apply_layout(&mut self, max_offset: u64, viewport_height: u64)
        ensures
            *final(self) == old(self).spec_laid_out(max_offset, viewport_height),
            final(self).pending_offset is None,
    {
        let target = match self.pending_offset {
            Some(t) => t,
            None => self.current_offset,
        };
        let clamped = if target <= max_offset {
            target
        } else {
            max_offset
        };
        self.current_offset = clamped;
        self.pending_offset = None;
        self.viewport_height = viewport_height;
    }
}

/// Scroll-to-bottom is idempotent: against the same content, asking for
/// the bottom twice ends at the same offset as asking once, and that
/// offset is the content's largest reachable one, clamped only by the
/// request's own ceiling.
pub proof fn lemma_to_bottom_idempotent(s: ScrollState, max_offset: u64, viewport_height: u64)
    ensures
        ({
            let once = s.spec_to_bottom().spec_laid_out(max_offset, viewport_height);
            let twice = once.spec_to_bottom().spec_laid_out(max_offset, viewport_height);
            &&& twice.current_offset == once.current_offset
            &&& once.current_offset == min_u64(SCROLL_BOTTOM, max_offset)
            &&& max_offset <= SCROLL_BOTTOM ==> once.current_offset == max_offset
        }),
{
}

/// A pending offset never outlives the layout pass that consumes it:
/// after any layout pass, against any content, nothing is pending.
pub proof fn lemma_layout_clears_pending(s: ScrollState, max_offset: u64, viewport_height: u64)
    ensures
        s.spec_laid_out(max_offset, viewport_height).pending_offset is None,
{
}

} // verus!
