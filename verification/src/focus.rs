//! Which target has the keyboard focus, and since when.

use vstd::prelude::*;

verus! {

/// The focused target and the time of its last change. Target 0 stands for
/// no target.
#[derive(Clone, Copy, Debug, PartialEq, Eq, Structural)]
pub struct FocusTracker {
    pub focused_engine_id: u64,
    pub last_change_ms: u64,
}

/// The focused target after `engine_id` reported that it gained or lost the
/// focus: a gain makes it the focused target, a loss clears the focus only if
/// it was the focused target.
pub open spec fn focus_after(current: u64, engine_id: u64, focused: bool) -> u64 {
    if focused {
        engine_id
    } else if current == engine_id {
        0
    } else {
        current
    }
}

impl FocusTracker {
    /// A tracker with no target focused, as of `now_ms`.
    pub fn new(now_ms: u64) -> (tracker: Self)
        ensures
            tracker.focused_engine_id == 0,
            tracker.last_change_ms == now_ms,
    {
        FocusTracker { focused_engine_id: 0, last_change_ms: now_ms }
    }

    /// Records at `now_ms` that `engine_id` gained or lost the focus. The
    /// time of the last change moves only if the focused target changed.
    pub fn set_focused_engine(&mut self, engine_id: u64, focused: bool, now_ms: u64)
        ensures
            final(self).focused_engine_id == focus_after(
                old(self).focused_engine_id,
                engine_id,
                focused,
            ),
            final(self).last_change_ms == if final(self).focused_engine_id != old(
                self,
            ).focused_engine_id {
                now_ms
            } else {
                old(self).last_change_ms
            },
    {
        let current = self.focused_engine_id;
        let next = if focused {
            engine_id
        } else if current == engine_id {
            0
        } else {
            current
        };
        if next != current {
            self.focused_engine_id = next;
            self.last_change_ms = now_ms;
        }
    }

    /// The focused target and the time of its last change.
    pub fn focused_engine_status(&self) -> (status: (u64, u64))
        ensures
            status.0 == self.focused_engine_id,
            status.1 == self.last_change_ms,
    {
        (self.focused_engine_id, self.last_change_ms)
    }
}

} // verus!
