//! Waiting for the target to report the keyboard focus.
//!
//! After the switch to the dictation source the daemon is asked, again and
//! again for a bounded time, which target is focused. The questions are
//! asked outside this library; what each answer means is decided here.

use vstd::prelude::*;
use crate::health::{HealthModel, ToggleRuntimeHealth};
use crate::messages::{
    focus_timed_out, focus_timed_out_text, focus_unavailable, focus_unavailable_text,
};

verus! {

/// What the wait has seen so far.
#[derive(Clone, Copy, Debug, PartialEq, Eq, Structural)]
pub struct FocusWait {
    /// The focused target of the last answer, 0 before the first.
    pub last_focused_engine_id: u64,
    /// The time of the focused target's last change, by the last answer.
    pub last_change_ms: u64,
}

/// What an answer means for the wait.
#[derive(Debug)]
pub enum FocusPoll {
    /// A target is focused.
    Focused { engine_id: u64, last_change_ms: u64 },
    /// No target is focused yet: ask again after the poll interval.
    Retry,
    /// No target became focused in time.
    TimedOut(String),
}

/// The error that an answer without a focused target stands for.
pub open spec fn poll_error(reply: Result<(u64, u64), String>) -> Seq<char> {
    match reply {
        Ok((_, change_ms)) => focus_unavailable_text(change_ms),
        Err(e) => e@,
    }
}

/// The wait after `reply`.
pub open spec fn wait_after(wait: FocusWait, reply: Result<(u64, u64), String>) -> FocusWait {
    match reply {
        Ok((engine_id, change_ms)) => FocusWait {
            last_focused_engine_id: engine_id,
            last_change_ms: change_ms,
        },
        Err(_) => wait,
    }
}

/// Whether `reply` names a focused target.
pub open spec fn is_focused(reply: Result<(u64, u64), String>) -> bool {
    match reply {
        Ok((engine_id, _)) => engine_id != 0,
        Err(_) => false,
    }
}

/// The focused target in the health record after `reply`, `elapsed_ms` into
/// a wait of `timeout_ms`: the answer's, and none once the wait has timed
/// out.
pub open spec fn health_after_poll(
    health: HealthModel,
    wait: FocusWait,
    reply: Result<(u64, u64), String>,
    elapsed_ms: u64,
    timeout_ms: u64,
) -> HealthModel {
    let seen = match reply {
        Ok((engine_id, change_ms)) => HealthModel {
            focused_engine_id: engine_id,
            engine_last_change_ms: change_ms,
            ..health
        },
        Err(_) => health,
    };
    if !is_focused(reply) && elapsed_ms >= timeout_ms {
        HealthModel {
            focused_engine_id: 0,
            engine_last_change_ms: wait_after(wait, reply).last_change_ms,
            ..seen
        }
    } else {
        seen
    }
}

impl FocusWait {
    /// A wait that has seen no answer.
    pub fn new() -> (wait: Self)
        ensures
            wait == (FocusWait { last_focused_engine_id: 0, last_change_ms: 0 }),
    {
        FocusWait { last_focused_engine_id: 0, last_change_ms: 0 }
    }

    /// Takes the daemon's answer, `elapsed_ms` into a wait of `timeout_ms`.
    ///
    /// An answer with a target other than 0 ends the wait with that target.
    /// Any other answer, or an error, leads to another question, unless the
    /// time is up: then the wait ends with a message that holds the last
    /// answer and the last error. Every answer is recorded in the health
    /// record.
    pub fn on_reply(
        &mut self,
        health: &mut ToggleRuntimeHealth,
        reply: &Result<(u64, u64), String>,
        elapsed_ms: u64,
        timeout_ms: u64,
    ) -> (poll: FocusPoll)
        ensures
            *final(self) == wait_after(*old(self), *reply),
            final(health)@ == health_after_poll(
                old(health)@,
                *old(self),
                *reply,
                elapsed_ms,
                timeout_ms,
            ),
            match poll {
                FocusPoll::Focused { engine_id, last_change_ms } => {
                    &&& is_focused(*reply)
                    &&& *reply == Ok::<(u64, u64), String>((engine_id, last_change_ms))
                },
                FocusPoll::Retry => !is_focused(*reply) && elapsed_ms < timeout_ms,
                FocusPoll::TimedOut(message) => {
                    &&& !is_focused(*reply)
                    &&& elapsed_ms >= timeout_ms
                    &&& message@ == focus_timed_out_text(
                        timeout_ms,
                        final(self).last_focused_engine_id,
                        final(self).last_change_ms,
                        poll_error(*reply),
                    )
                },
            },
    {
        let error_text = match reply {
            Ok((engine_id, change_ms)) => {
                self.last_focused_engine_id = *engine_id;
                self.last_change_ms = *change_ms;
                health.mark_focused_engine_status(*engine_id, *change_ms);
                if *engine_id != 0 {
                    return FocusPoll::Focused { engine_id: *engine_id, last_change_ms: *change_ms };
                }
                focus_unavailable(*change_ms)
            },
            Err(e) => e.clone(),
        };
        if elapsed_ms < timeout_ms {
            return FocusPoll::Retry;
        }
        health.mark_focused_engine_status(0, self.last_change_ms);
        FocusPoll::TimedOut(
            focus_timed_out(
                timeout_ms,
                self.last_focused_engine_id,
                self.last_change_ms,
                error_text.as_str(),
            ),
        )
    }
}

} // verus!
