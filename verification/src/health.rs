//! The listener's health record and its short history of events, for an
//! operator to inspect.

use std::collections::VecDeque;
use vstd::prelude::*;
use vstd::string::StringExecFns;
use crate::numerals::{decimal, decimal_text};
use crate::strings::{contains_text, starts_with, str_contains, str_starts_with};

verus! {

/// The number of event lines that the history keeps.
pub const TOGGLE_EVENT_HISTORY_LIMIT: usize = 60;

/// The time that must pass between two failure notifications, in
/// milliseconds.
pub const FAILURE_NOTIFICATION_COOLDOWN_MS: u64 = 8000;

/// The listener's health record.
#[derive(Debug)]
pub struct ToggleRuntimeHealth {
    /// Whether the listener works.
    pub healthy: bool,
    /// The component that reported last.
    pub component: String,
    /// The stable code of the last report.
    pub code: String,
    /// The message of the last report.
    pub message: String,
    /// The time of the last success.
    pub last_success_ms: u64,
    /// Whether the listener has a session with the keyboards.
    pub listener_session_ok: bool,
    /// Whether the shortcut is bound.
    pub shortcut_bound: bool,
    /// How often binding the shortcut failed.
    pub bind_fail_count: u64,
    /// How often the toggle was pressed with the dictation source active.
    pub press_while_dikt_count: u64,
    /// How often a stop call timed out and the daemon had stopped all the same.
    pub stop_timeout_fallback_count: u64,
    /// The time of the last failure notification.
    pub last_notification_ms: u64,
    /// The name of the toggle state.
    pub current_state: String,
    /// The shortcut, for a human reader.
    pub shortcut_description: String,
    /// The code of the last failed start, empty if the last start succeeded.
    pub last_start_failure_code: String,
    /// The message of the last failed start.
    pub last_start_failure_message: String,
    /// The time of the last failed start, 0 if there is none.
    pub last_start_failure_ms: u64,
    /// The message of the last failed stop.
    pub last_stop_failure_message: String,
    /// The time of the last failed stop, 0 if there is none.
    pub last_stop_failure_ms: u64,
    /// The daemon session whose commit is expected, 0 if none is.
    pub pending_commit_session_id: u64,
    /// Since when that commit is expected.
    pub pending_commit_mark_ms: u64,
    /// The focused target as last read from the daemon.
    pub focused_engine_id: u64,
    /// The time of the focused target's last change, as last read.
    pub engine_last_change_ms: u64,
    /// The time of the last attempt to switch the input source.
    pub last_switch_attempt_ms: u64,
    /// How long the last confirmed switch took.
    pub last_switch_confirm_latency_ms: u64,
    /// The message of the last failed switch, empty after a confirmed one.
    pub last_switch_failure_message: String,
    /// The last failed call to the daemon, with its message.
    pub last_dbus_error: String,
    /// The time of that failure.
    pub last_dbus_error_ms: u64,
}

/// What the health record holds, as plain values.
pub struct HealthModel {
    pub healthy: bool,
    pub component: Seq<char>,
    pub code: Seq<char>,
    pub message: Seq<char>,
    pub last_success_ms: u64,
    pub listener_session_ok: bool,
    pub shortcut_bound: bool,
    pub bind_fail_count: u64,
    pub press_while_dikt_count: u64,
    pub stop_timeout_fallback_count: u64,
    pub last_notification_ms: u64,
    pub current_state: Seq<char>,
    pub shortcut_description: Seq<char>,
    pub last_start_failure_code: Seq<char>,
    pub last_start_failure_message: Seq<char>,
    pub last_start_failure_ms: u64,
    pub last_stop_failure_message: Seq<char>,
    pub last_stop_failure_ms: u64,
    pub pending_commit_session_id: u64,
    pub pending_commit_mark_ms: u64,
    pub focused_engine_id: u64,
    pub engine_last_change_ms: u64,
    pub last_switch_attempt_ms: u64,
    pub last_switch_confirm_latency_ms: u64,
    pub last_switch_failure_message: Seq<char>,
    pub last_dbus_error: Seq<char>,
    pub last_dbus_error_ms: u64,
}

impl View for ToggleRuntimeHealth {
    type V = HealthModel;

    open spec fn view(&self) -> HealthModel {
        HealthModel {
            healthy: self.healthy,
            component: self.component@,
            code: self.code@,
            message: self.message@,
            last_success_ms: self.last_success_ms,
            listener_session_ok: self.listener_session_ok,
            shortcut_bound: self.shortcut_bound,
            bind_fail_count: self.bind_fail_count,
            press_while_dikt_count: self.press_while_dikt_count,
            stop_timeout_fallback_count: self.stop_timeout_fallback_count,
            last_notification_ms: self.last_notification_ms,
            current_state: self.current_state@,
            shortcut_description: self.shortcut_description@,
            last_start_failure_code: self.last_start_failure_code@,
            last_start_failure_message: self.last_start_failure_message@,
            last_start_failure_ms: self.last_start_failure_ms,
            last_stop_failure_message: self.last_stop_failure_message@,
            last_stop_failure_ms: self.last_stop_failure_ms,
            pending_commit_session_id: self.pending_commit_session_id,
            pending_commit_mark_ms: self.pending_commit_mark_ms,
            focused_engine_id: self.focused_engine_id,
            engine_last_change_ms: self.engine_last_change_ms,
            last_switch_attempt_ms: self.last_switch_attempt_ms,
            last_switch_confirm_latency_ms: self.last_switch_confirm_latency_ms,
            last_switch_failure_message: self.last_switch_failure_message@,
            last_dbus_error: self.last_dbus_error@,
            last_dbus_error_ms: self.last_dbus_error_ms,
        }
    }
}

/// A count after one more was counted; it stays at the end of its type.
pub open spec fn bumped(count: u64) -> u64 {
    if count == u64::MAX {
        count
    } else {
        (count + 1) as u64
    }
}

/// The health record before the listener has started.
pub open spec fn initial_health() -> HealthModel {
    HealthModel {
        healthy: false,
        component: "global_shortcuts"@,
        code: "not_initialized"@,
        message: "Global dictation shortcut listener not initialized yet"@,
        last_success_ms: 0,
        listener_session_ok: false,
        shortcut_bound: false,
        bind_fail_count: 0,
        press_while_dikt_count: 0,
        stop_timeout_fallback_count: 0,
        last_notification_ms: 0,
        current_state: "idle"@,
        shortcut_description: Seq::empty(),
        last_start_failure_code: Seq::empty(),
        last_start_failure_message: Seq::empty(),
        last_start_failure_ms: 0,
        last_stop_failure_message: Seq::empty(),
        last_stop_failure_ms: 0,
        pending_commit_session_id: 0,
        pending_commit_mark_ms: 0,
        focused_engine_id: 0,
        engine_last_change_ms: 0,
        last_switch_attempt_ms: 0,
        last_switch_confirm_latency_ms: 0,
        last_switch_failure_message: Seq::empty(),
        last_dbus_error: Seq::empty(),
        last_dbus_error_ms: 0,
    }
}

/// Whether an error with `code` comes from the keyboard layer.
pub open spec fn is_listener_error(code: Seq<char>) -> bool {
    starts_with(code, "evdev_"@)
}

/// Whether an error with `code` from the keyboard layer means that the
/// shortcut is not bound.
pub open spec fn is_bind_error(code: Seq<char>) -> bool {
    is_listener_error(code) && (contains_text(code, "bind"@) || contains_text(code, "permission"@))
}

/// The health record after an error was reported.
pub open spec fn health_after_error(health: HealthModel, code: Seq<char>, message: Seq<char>) -> HealthModel {
    HealthModel {
        healthy: false,
        component: "global_shortcuts"@,
        code,
        message,
        listener_session_ok: if is_listener_error(code) {
            false
        } else {
            health.listener_session_ok
        },
        shortcut_bound: if is_bind_error(code) {
            false
        } else {
            health.shortcut_bound
        },
        bind_fail_count: if is_bind_error(code) {
            bumped(health.bind_fail_count)
        } else {
            health.bind_fail_count
        },
        ..health
    }
}

/// Whether a failure notification may be shown at `now_ms`: not in a
/// restricted session, and not within the cooldown after the last one.
pub open spec fn may_notify(health: HealthModel, restricted: bool, now_ms: u64) -> bool {
    !restricted && now_ms - health.last_notification_ms >= FAILURE_NOTIFICATION_COOLDOWN_MS
}

/// The text of a failed call to the daemon.
pub open spec fn dbus_error_text(method: Seq<char>, message: Seq<char>) -> Seq<char> {
    method + ": "@ + message
}

impl Default for ToggleRuntimeHealth {
    /// The health record before the listener has started.
    fn default() -> (health: Self)
        ensures
            health@ == initial_health(),
    {
        ToggleRuntimeHealth {
            healthy: false,
            component: String::from_str("global_shortcuts"),
            code: String::from_str("not_initialized"),
            message: String::from_str("Global dictation shortcut listener not initialized yet"),
            last_success_ms: 0,
            listener_session_ok: false,
            shortcut_bound: false,
            bind_fail_count: 0,
            press_while_dikt_count: 0,
            stop_timeout_fallback_count: 0,
            last_notification_ms: 0,
            current_state: String::from_str("idle"),
            shortcut_description: String::new(),
            last_start_failure_code: String::new(),
            last_start_failure_message: String::new(),
            last_start_failure_ms: 0,
            last_stop_failure_message: String::new(),
            last_stop_failure_ms: 0,
            pending_commit_session_id: 0,
            pending_commit_mark_ms: 0,
            focused_engine_id: 0,
            engine_last_change_ms: 0,
            last_switch_attempt_ms: 0,
            last_switch_confirm_latency_ms: 0,
            last_switch_failure_message: String::new(),
            last_dbus_error: String::new(),
            last_dbus_error_ms: 0,
        }
    }
}

impl ToggleRuntimeHealth {
    /// Records at `now_ms` that the listener works.
    pub fn mark_health_success(&mut self, message: &str, now_ms: u64)
        ensures
            final(self)@ == (HealthModel {
                healthy: true,
                component: "global_shortcuts"@,
                code: "ok"@,
                message: message@,
                last_success_ms: now_ms,
                listener_session_ok: true,
                shortcut_bound: true,
                ..old(self)@
            }),
    {
        self.healthy = true;
        self.component = String::from_str("global_shortcuts");
        self.code = String::from_str("ok");
        self.message = String::from_str(message);
        self.last_success_ms = now_ms;
        self.listener_session_ok = true;
        self.shortcut_bound = true;
    }

    /// Records the name of the toggle state.
    pub fn mark_toggle_state(&mut self, state: &str)
        ensures
            final(self)@ == (HealthModel { current_state: state@, ..old(self)@ }),
    {
        self.current_state = String::from_str(state);
    }

    /// Records an error. An error of the keyboard layer, whose code starts
    /// with `evdev_`, also ends the listener's session; if its code speaks
    /// of binding or permission, the shortcut counts as unbound and the
    /// failure is counted.
    pub fn mark_health_error(&mut self, code: &str, message: &str)
        ensures
            final(self)@ == health_after_error(old(self)@, code@, message@),
    {
        self.healthy = false;
        self.component = String::from_str("global_shortcuts");
        self.code = String::from_str(code);
        self.message = String::from_str(message);
        if str_starts_with(code, "evdev_") {
            self.listener_session_ok = false;
            if str_contains(code, "bind") || str_contains(code, "permission") {
                self.shortcut_bound = false;
                self.bind_fail_count = self.bind_fail_count.saturating_add(1);
            }
        }
    }

    /// Records the shortcut's description.
    pub fn mark_shortcut_description(&mut self, description: &str)
        ensures
            final(self)@ == (HealthModel { shortcut_description: description@, ..old(self)@ }),
    {
        self.shortcut_description = String::from_str(description);
    }

    /// Records at `now_ms` that a start failed.
    pub fn mark_start_failure(&mut self, code: &str, message: &str, now_ms: u64)
        ensures
            final(self)@ == (HealthModel {
                last_start_failure_code: code@,
                last_start_failure_message: message@,
                last_start_failure_ms: now_ms,
                ..old(self)@
            }),
    {
        self.last_start_failure_code = String::from_str(code);
        self.last_start_failure_message = String::from_str(message);
        self.last_start_failure_ms = now_ms;
    }

    /// Forgets the last failed start.
    pub fn clear_start_failure(&mut self)
        ensures
            final(self)@ == (HealthModel {
                last_start_failure_code: Seq::empty(),
                last_start_failure_message: Seq::empty(),
                last_start_failure_ms: 0,
                ..old(self)@
            }),
    {
        self.last_start_failure_code = String::new();
        self.last_start_failure_message = String::new();
        self.last_start_failure_ms = 0;
    }

    /// Records at `now_ms` that a stop failed.
    pub fn mark_stop_failure(&mut self, message: &str, now_ms: u64)
        ensures
            final(self)@ == (HealthModel {
                last_stop_failure_message: message@,
                last_stop_failure_ms: now_ms,
                ..old(self)@
            }),
    {
        self.last_stop_failure_message = String::from_str(message);
        self.last_stop_failure_ms = now_ms;
    }

    /// Forgets the last failed stop.
    pub fn clear_stop_failure(&mut self)
        ensures
            final(self)@ == (HealthModel {
                last_stop_failure_message: Seq::empty(),
                last_stop_failure_ms: 0,
                ..old(self)@
            }),
    {
        self.last_stop_failure_message = String::new();
        self.last_stop_failure_ms = 0;
    }

    /// Records at `now_ms` that the commit of `session_id` is expected.
    pub fn mark_pending_commit(&mut self, session_id: u64, now_ms: u64)
        ensures
            final(self)@ == (HealthModel {
                pending_commit_session_id: session_id,
                pending_commit_mark_ms: now_ms,
                ..old(self)@
            }),
    {
        self.pending_commit_session_id = session_id;
        self.pending_commit_mark_ms = now_ms;
    }

    /// Records that no commit is expected.
    pub fn clear_pending_commit(&mut self)
        ensures
            final(self)@ == (HealthModel {
                pending_commit_session_id: 0,
                pending_commit_mark_ms: 0,
                ..old(self)@
            }),
    {
        self.pending_commit_session_id = 0;
        self.pending_commit_mark_ms = 0;
    }

    /// Records the focused target as read from the daemon.
    pub fn mark_focused_engine_status(&mut self, engine_id: u64, last_change_ms: u64)
        ensures
            final(self)@ == (HealthModel {
                focused_engine_id: engine_id,
                engine_last_change_ms: last_change_ms,
                ..old(self)@
            }),
    {
        self.focused_engine_id = engine_id;
        self.engine_last_change_ms = last_change_ms;
    }

    /// Records at `now_ms` an attempt to switch the input source.
    pub fn mark_switch_attempt(&mut self, now_ms: u64)
        ensures
            final(self)@ == (HealthModel { last_switch_attempt_ms: now_ms, ..old(self)@ }),
    {
        self.last_switch_attempt_ms = now_ms;
    }

    /// Records a confirmed switch and how long it took.
    pub fn mark_switch_confirm(&mut self, latency_ms: u64)
        ensures
            final(self)@ == (HealthModel {
                last_switch_confirm_latency_ms: latency_ms,
                last_switch_failure_message: Seq::empty(),
                ..old(self)@
            }),
    {
        self.last_switch_confirm_latency_ms = latency_ms;
        self.last_switch_failure_message = String::new();
    }

    /// Records a failed switch.
    pub fn mark_switch_failure(&mut self, message: &str)
        ensures
            final(self)@ == (HealthModel { last_switch_failure_message: message@, ..old(self)@ }),
    {
        self.last_switch_failure_message = String::from_str(message);
    }

    /// Records at `now_ms` a failed call of `method` to the daemon.
    pub fn mark_dbus_error(&mut self, method: &str, message: &str, now_ms: u64)
        ensures
            final(self)@ == (HealthModel {
                last_dbus_error: dbus_error_text(method@, message@),
                last_dbus_error_ms: now_ms,
                ..old(self)@
            }),
    {
        self.last_dbus_error = String::from_str(method).concat(": ").concat(message);
        self.last_dbus_error_ms = now_ms;
    }

    /// Counts a press of the toggle with the dictation source active.
    pub fn bump_press_while_dikt(&mut self)
        ensures
            final(self)@ == (HealthModel {
                press_while_dikt_count: bumped(old(self)@.press_while_dikt_count),
                ..old(self)@
            }),
    {
        self.press_while_dikt_count = self.press_while_dikt_count.saturating_add(1);
    }

    /// Counts a stop call that timed out while the daemon had stopped.
    pub fn bump_stop_timeout_fallback(&mut self)
        ensures
            final(self)@ == (HealthModel {
                stop_timeout_fallback_count: bumped(old(self)@.stop_timeout_fallback_count),
                ..old(self)@
            }),
    {
        self.stop_timeout_fallback_count = self.stop_timeout_fallback_count.saturating_add(1);
    }

    /// Decides whether a failure notification is shown at `now_ms`, and
    /// records the time if it is.
    ///
    /// None is shown in a restricted session, nor within eight seconds after
    /// the last one.
    pub fn allow_notification(&mut self, restricted: bool, now_ms: u64) -> (allowed: bool)
        ensures
            allowed == may_notify(old(self)@, restricted, now_ms),
            final(self)@ == if allowed {
                HealthModel { last_notification_ms: now_ms, ..old(self)@ }
            } else {
                old(self)@
            },
    {
        if restricted {
            return false;
        }
        if now_ms.saturating_sub(self.last_notification_ms) < FAILURE_NOTIFICATION_COOLDOWN_MS {
            return false;
        }
        self.last_notification_ms = now_ms;
        true
    }

    /// For how long the expected commit has been expected at `now_ms`; 0 if
    /// none is.
    pub fn pending_commit_age_ms(&self, now_ms: u64) -> (age: u64)
        ensures
            age == if self@.pending_commit_session_id == 0 || now_ms
                < self@.pending_commit_mark_ms {
                0
            } else {
                now_ms - self@.pending_commit_mark_ms
            },
    {
        if self.pending_commit_session_id == 0 {
            0
        } else {
            now_ms.saturating_sub(self.pending_commit_mark_ms)
        }
    }
}

/// The ten leading figures of the health record: whether the listener works,
/// component, code, message, time of the last success, whether the listener
/// has its session, whether the shortcut is bound, and the three counts.
pub fn toggle_diagnostics_tuple(health: &ToggleRuntimeHealth) -> (figures: (
    bool,
    String,
    String,
    String,
    u64,
    bool,
    bool,
    u64,
    u64,
    u64,
))
    ensures
        figures.0 == health@.healthy,
        figures.1@ == health@.component,
        figures.2@ == health@.code,
        figures.3@ == health@.message,
        figures.4 == health@.last_success_ms,
        figures.5 == health@.listener_session_ok,
        figures.6 == health@.shortcut_bound,
        figures.7 == health@.bind_fail_count,
        figures.8 == health@.press_while_dikt_count,
        figures.9 == health@.stop_timeout_fallback_count,
{
    (
        health.healthy,
        health.component.clone(),
        health.code.clone(),
        health.message.clone(),
        health.last_success_ms,
        health.listener_session_ok,
        health.shortcut_bound,
        health.bind_fail_count,
        health.press_while_dikt_count,
        health.stop_timeout_fallback_count,
    )
}

/// The line that the history keeps of an event at `now_ms`.
pub open spec fn event_line(now_ms: u64, event: Seq<char>) -> Seq<char> {
    decimal_text(now_ms as nat) + " "@ + event
}

/// The history after `line` was added: the newest 60 lines.
pub open spec fn history_after(lines: Seq<Seq<char>>, line: Seq<char>) -> Seq<Seq<char>> {
    let longer = lines.push(line);
    if longer.len() > TOGGLE_EVENT_HISTORY_LIMIT {
        longer.subrange(longer.len() - TOGGLE_EVENT_HISTORY_LIMIT, longer.len() as int)
    } else {
        longer
    }
}

/// The listener's history of events: the newest 60 lines, oldest first.
pub struct ToggleEventLog {
    lines: VecDeque<String>,
}

impl ToggleEventLog {
    /// The lines, oldest first.
    pub closed spec fn lines(&self) -> Seq<Seq<char>> {
        self.lines@.map_values(|line: String| line@)
    }

    /// The history never holds more than 60 lines.
    pub closed spec fn wf(&self) -> bool {
        self.lines@.len() <= TOGGLE_EVENT_HISTORY_LIMIT
    }

    /// An empty history.
    pub fn new() -> (log: Self)
        ensures
            log.wf(),
            log.lines() == Seq::<Seq<char>>::empty(),
    {
        let log = ToggleEventLog { lines: VecDeque::new() };
        assert(log.lines() =~= Seq::<Seq<char>>::empty());
        log
    }

    /// Adds the line of `event` at `now_ms`. The oldest line leaves a full
    /// history.
    pub fn push_toggle_event(&mut self, event: &str, now_ms: u64)
        requires
            old(self).wf(),
        ensures
            final(self).wf(),
            final(self).lines() == history_after(old(self).lines(), event_line(now_ms, event@)),
    {
        let line = decimal(now_ms).concat(" ").concat(event);
        let ghost before = self.lines@;
        let ghost added = line@;
        self.lines.push_back(line);
        if self.lines.len() > TOGGLE_EVENT_HISTORY_LIMIT {
            let _ = self.lines.pop_front();
        }
        proof {
            let f = |line: String| line@;
            assert(self.lines@.map_values(f) =~= history_after(before.map_values(f), added));
        }
    }

    /// The number of lines.
    pub fn len(&self) -> (n: usize)
        requires
            self.wf(),
        ensures
            n == self.lines().len(),
    {
        self.lines.len()
    }
}

/// The lines of the history, oldest first.
pub fn toggle_recent_events(log: &ToggleEventLog) -> (lines: Vec<String>)
    requires
        log.wf(),
    ensures
        lines@.map_values(|line: String| line@) == log.lines(),
{
    let n = log.lines.len();
    let mut lines: Vec<String> = Vec::new();
    let mut i: usize = 0;
    while i < n
        invariant
            i <= n,
            n == log.lines@.len(),
            lines@.len() == i,
            forall|j: int| 0 <= j < i ==> (#[trigger] lines@[j])@ == log.lines@[j]@,
        decreases n - i,
    {
        lines.push(log.lines[i].clone());
        i = i + 1;
    }
    assert(lines@.map_values(|line: String| line@) =~= log.lines());
    lines
}

} // verus!
