//! The listener's toggle: one press starts a recording, the next one stops
//! it.
//!
//! The controller is a machine of four states. Presses of the shortcut move
//! it, and so do the answers to the start and stop calls that it has issued.
//! The calls themselves run outside this library: each step returns what is
//! to be done next, and the result comes back as an event with the id of
//! the toggle session that asked for it. A result for another toggle
//! session than the current one is stale: it never moves the machine.

use std::collections::HashSet;
use vstd::prelude::*;
use vstd::std_specs::hash::*;
use vstd::string::StringExecFns;
use crate::engine::{is_dikt_engine, names_dikt};
use crate::health::{
    bumped, health_after_error, history_after, event_line, may_notify, HealthModel,
    ToggleEventLog, ToggleRuntimeHealth,
};
use crate::keys::{
    held_flags, is_modifier_key, key_label, keyval_code, modifier_flag, modifier_prefix,
    modifiers_from_held_keys, EvdevKeybinding, ShortcutConfig,
};
use crate::messages::{
    keyboard_error_body, keyboard_error_body_text, keyboards_ready, keyboards_ready_text,
    keyboards_unreadable, keyboards_unreadable_text, listening_on, listening_on_text,
    unresolved_keybinding, unresolved_keybinding_text, unsupported_shortcut,
    unsupported_shortcut_text,
    note_already_on_source, note_already_on_source_text, note_debounced, note_debounced_text,
    note_engine_unreadable, note_engine_unreadable_text, note_focus_confirmed,
    note_focus_confirmed_text, note_focus_unavailable, note_focus_unavailable_text,
    note_ignored_while_pending, note_ignored_while_pending_text, note_ignored_while_stopping,
    note_ignored_while_stopping_text, note_pressed, note_pressed_text, note_pressed_while_active,
    note_pressed_while_active_text, note_stale_start_cancelled, note_stale_start_cancelled_text,
    note_stale_start_ignored, note_stale_start_ignored_text, note_stale_stop_ignored,
    note_stale_stop_ignored_text, note_start_failed, note_start_failed_text, note_started,
    note_started_text, note_stop_acknowledged, note_stop_acknowledged_text, note_stop_complete,
    note_stop_complete_text, note_stop_failed, note_stop_failed_text, note_stop_failure_handled,
    note_stop_failure_handled_text, note_stop_finalizing, note_stop_finalizing_text,
    note_stop_requested, note_stop_requested_text, note_switch_confirmed,
    note_switch_confirmed_text, note_switch_failed, note_switch_failed_text,
    note_switch_requested, note_switch_requested_text, start_failed_body, start_failed_body_text,
};
use crate::strings::{
    contains_text, find_in, first_occurrence_from, str_contains, to_chars, trim, trimmed,
};

verus! {

/// How long after the press the start call is made, in milliseconds.
pub const START_RECORDING_ARM_DELAY_MS: u64 = 120;

/// How long the stop call may take, in milliseconds.
pub const STOP_RECORDING_TIMEOUT_MS: u64 = 20000;

/// How long the switch of the input source may take, in milliseconds.
pub const ENGINE_SWITCH_VERIFY_TIMEOUT_MS: u64 = 350;

/// How long the target may take to report the focus, in milliseconds.
pub const FOCUSED_ENGINE_VERIFY_TIMEOUT_MS: u64 = 700;

/// The time between two questions for the focused target, in milliseconds.
pub const FOCUSED_ENGINE_VERIFY_POLL_MS: u64 = 20;

/// Presses of the shortcut that follow an accepted one within this time are
/// dropped, in milliseconds.
pub const TOGGLE_PRESS_DEBOUNCE_MS: u64 = 90;

/// The time between two looks at the settings, in milliseconds.
pub const SETTINGS_POLL_INTERVAL_MS: u64 = 350;

/// The state of the toggle.
#[derive(Debug)]
pub enum ToggleState {
    /// Nothing is going on.
    Idle,
    /// A start call is in flight.
    Pending { toggle_session_id: u64 },
    /// The daemon records.
    Recording { toggle_session_id: u64, daemon_session_id: u64, claim_token: String },
    /// A stop call is in flight.
    Stopping { toggle_session_id: u64, daemon_session_id: u64 },
}

/// The state of the toggle, as plain values.
pub enum ToggleStateModel {
    Idle,
    Pending { toggle_session_id: u64 },
    Recording { toggle_session_id: u64, daemon_session_id: u64, claim_token: Seq<char> },
    Stopping { toggle_session_id: u64, daemon_session_id: u64 },
}

impl View for ToggleState {
    type V = ToggleStateModel;

    open spec fn view(&self) -> ToggleStateModel {
        match self {
            ToggleState::Idle => ToggleStateModel::Idle,
            ToggleState::Pending { toggle_session_id } => ToggleStateModel::Pending {
                toggle_session_id: *toggle_session_id,
            },
            ToggleState::Recording {
                toggle_session_id,
                daemon_session_id,
                claim_token,
            } => ToggleStateModel::Recording {
                toggle_session_id: *toggle_session_id,
                daemon_session_id: *daemon_session_id,
                claim_token: claim_token@,
            },
            ToggleState::Stopping {
                toggle_session_id,
                daemon_session_id,
            } => ToggleStateModel::Stopping {
                toggle_session_id: *toggle_session_id,
                daemon_session_id: *daemon_session_id,
            },
        }
    }
}

/// How a stop call ended, once its follow-ups are through.
#[derive(Debug)]
pub enum StopRecordingOutcome {
    /// The daemon confirmed the stop.
    Acknowledged,
    /// The call failed, but the daemon no longer records: it finishes on its
    /// own.
    Finalizing { reason: String, timed_out: bool },
    /// The call failed and the daemon still recorded; a cancel was tried.
    Failed(String),
}

/// Why a stop call brought no answer.
#[derive(Debug)]
pub enum StopRecordingCallError {
    TimedOut,
    Disconnected,
    Failed(String),
}

/// The result of a call that the controller has issued.
#[derive(Debug)]
#[allow(inconsistent_fields)]
pub enum InternalEvent {
    StartRecording { toggle_session_id: u64, result: Result<(u64, String), String> },
    StopRecording { toggle_session_id: u64, result: StopRecordingOutcome },
}

/// Why a daemon session is cancelled.
#[derive(Clone, Copy, Debug, PartialEq, Eq, Structural)]
pub enum CancelReason {
    /// Its start succeeded after its toggle session had been given up.
    StaleStart,
    /// The listener shuts down while it records.
    Cleanup,
    /// The listener shuts down while its stop is in flight.
    CleanupAfterStop,
}

/// What the listener is to do after a step of the controller.
#[derive(Debug)]
pub enum ToggleEffect {
    /// Call the daemon to start a session for the target.
    StartRecording { toggle_session_id: u64, target_engine_id: u64 },
    /// Call the daemon to cancel the session.
    CancelRecording { session_id: u64, reason: CancelReason },
    /// Show a failure notification.
    Notify { summary: String, body: String },
}

/// What the listener is to do, as plain values.
pub enum ToggleEffectModel {
    StartRecording { toggle_session_id: u64, target_engine_id: u64 },
    CancelRecording { session_id: u64, reason: CancelReason },
    Notify { summary: Seq<char>, body: Seq<char> },
}

impl View for ToggleEffect {
    type V = ToggleEffectModel;

    open spec fn view(&self) -> ToggleEffectModel {
        match self {
            ToggleEffect::StartRecording {
                toggle_session_id,
                target_engine_id,
            } => ToggleEffectModel::StartRecording {
                toggle_session_id: *toggle_session_id,
                target_engine_id: *target_engine_id,
            },
            ToggleEffect::CancelRecording { session_id, reason } => ToggleEffectModel::CancelRecording {
                session_id: *session_id,
                reason: *reason,
            },
            ToggleEffect::Notify { summary, body } => ToggleEffectModel::Notify {
                summary: summary@,
                body: body@,
            },
        }
    }
}

/// The effect of a step, as plain values.
pub open spec fn effect_model(effect: Option<ToggleEffect>) -> Option<ToggleEffectModel> {
    match effect {
        Some(e) => Some(e@),
        None => None,
    }
}

/// The code that a refused start carries in its message, between
/// `Failed to start recording (` and `):`; `start_recording_failed` if the
/// message has no such part.
pub open spec fn start_failure_code(err: Seq<char>) -> Seq<char> {
    let needle = "Failed to start recording ("@;
    let start = first_occurrence_from(err, needle, 0);
    let code_start = start + needle.len();
    let end = first_occurrence_from(err, "):"@, code_start);
    if start <= err.len() && end <= err.len() {
        trimmed(err.subrange(code_start, end))
    } else {
        "start_recording_failed"@
    }
}

/// Reads the code of a refused start out of its message.
pub fn extract_start_failure_code(err: &str) -> (code: String)
    ensures
        code@ == start_failure_code(err@),
{
    let chars = to_chars(err);
    let needle = to_chars("Failed to start recording (");
    let close = to_chars("):");
    let n = chars.len();
    match find_in(&chars, &needle, 0) {
        Some(start) => {
            proof {
                crate::strings::lemma_first_occurrence_from(chars@, needle@, 0);
                assert(crate::strings::occurs_at(chars@, needle@, start as int));
                assert(start + needle@.len() <= n);
            }
            let code_start = start + needle.len();
            match find_in(&chars, &close, code_start) {
                Some(end) => {
                    proof {
                        crate::strings::lemma_first_occurrence_from(
                            chars@,
                            close@,
                            code_start as int,
                        );
                    }
                    String::from_str(trim(err.substring_char(code_start, end)))
                },
                None => String::from_str("start_recording_failed"),
            }
        },
        None => String::from_str("start_recording_failed"),
    }
}

/// What the controller holds, as plain values.
pub struct ControllerModel {
    /// The state of the toggle.
    pub state: ToggleStateModel,
    /// The health record.
    pub health: HealthModel,
    /// The history of events, oldest first.
    pub events: Seq<Seq<char>>,
    /// The time of the last press of the shortcut that was not dropped.
    pub last_shortcut_press_ms: u64,
    /// The id that the next toggle session gets.
    pub next_toggle_session_id: u64,
    /// The modifier keys that are held.
    pub held: Set<u16>,
    /// Whether the listener was asked to bind its shortcut anew.
    pub rebind_requested: bool,
}

/// The history after `text` was noted at `now_ms`.
pub open spec fn noted(model: ControllerModel, now_ms: u64, text: Seq<char>) -> ControllerModel {
    ControllerModel { events: history_after(model.events, event_line(now_ms, text)), ..model }
}

/// The controller with the toggle in `state` and the state's name in the
/// health record.
pub open spec fn in_state(model: ControllerModel, state: ToggleStateModel, name: Seq<char>) -> ControllerModel {
    ControllerModel {
        state,
        health: HealthModel { current_state: name, ..model.health },
        ..model
    }
}

/// The controller after a failure notification was asked for: its time is
/// recorded if it is shown.
pub open spec fn after_notification(model: ControllerModel, restricted: bool, now_ms: u64) -> ControllerModel {
    if may_notify(model.health, restricted, now_ms) {
        ControllerModel {
            health: HealthModel { last_notification_ms: now_ms, ..model.health },
            ..model
        }
    } else {
        model
    }
}

/// The notification that is shown, if one may be.
pub open spec fn notification(
    model: ControllerModel,
    restricted: bool,
    now_ms: u64,
    summary: Seq<char>,
    body: Seq<char>,
) -> Option<ToggleEffectModel> {
    if may_notify(model.health, restricted, now_ms) {
        Some(ToggleEffectModel::Notify { summary, body })
    } else {
        None
    }
}

/// What a key press means to the listener.
#[derive(Clone, Copy, Debug, PartialEq, Eq, Structural)]
pub enum KeyPress {
    /// A modifier went down.
    Modifier,
    /// A key that is not the shortcut's, or the shortcut's with other
    /// modifiers held.
    Unrelated,
    /// The shortcut, too soon after its last press: dropped.
    Debounced,
    /// The shortcut.
    Shortcut,
}

/// What a key press means, given the shortcut and the time.
pub open spec fn key_press_kind(
    model: ControllerModel,
    code: u16,
    keybinding: EvdevKeybinding,
    now_ms: u64,
) -> KeyPress {
    if modifier_flag(code) != 0 {
        KeyPress::Modifier
    } else if code != keybinding.key_code || held_flags(model.held) != keybinding.modifiers {
        KeyPress::Unrelated
    } else if now_ms - model.last_shortcut_press_ms < TOGGLE_PRESS_DEBOUNCE_MS {
        KeyPress::Debounced
    } else {
        KeyPress::Shortcut
    }
}

/// The controller after a key press.
pub open spec fn after_key_press(
    model: ControllerModel,
    code: u16,
    keybinding: EvdevKeybinding,
    now_ms: u64,
) -> ControllerModel {
    match key_press_kind(model, code, keybinding, now_ms) {
        KeyPress::Modifier => ControllerModel { held: model.held.insert(code), ..model },
        KeyPress::Unrelated => model,
        KeyPress::Debounced => noted(model, now_ms, note_debounced_text()),
        KeyPress::Shortcut => ControllerModel { last_shortcut_press_ms: now_ms, ..model },
    }
}

/// What a press of the shortcut leads to.
#[derive(Clone, Copy, Debug, PartialEq, Eq, Structural)]
pub enum PressAction {
    /// The toggle is idle: a start is to be attempted.
    BeginStart,
    /// A start or a stop is in flight: the press is ignored.
    Ignored,
    /// The recording is to be stopped.
    Stop { toggle_session_id: u64, daemon_session_id: u64 },
}

/// What a press of the shortcut leads to in `state`.
pub open spec fn press_action(state: ToggleStateModel) -> PressAction {
    match state {
        ToggleStateModel::Idle => PressAction::BeginStart,
        ToggleStateModel::Pending { .. } => PressAction::Ignored,
        ToggleStateModel::Recording {
            toggle_session_id,
            daemon_session_id,
            ..
        } => PressAction::Stop { toggle_session_id, daemon_session_id },
        ToggleStateModel::Stopping { .. } => PressAction::Ignored,
    }
}

/// The controller after a press of the shortcut.
pub open spec fn after_press(model: ControllerModel, now_ms: u64) -> ControllerModel {
    match model.state {
        ToggleStateModel::Idle => model,
        ToggleStateModel::Pending { toggle_session_id } => noted(
            model,
            now_ms,
            note_ignored_while_pending_text(toggle_session_id),
        ),
        ToggleStateModel::Recording { toggle_session_id, daemon_session_id, .. } => in_state(
            noted(model, now_ms, note_stop_requested_text(toggle_session_id, daemon_session_id)),
            ToggleStateModel::Stopping { toggle_session_id, daemon_session_id },
            "stopping"@,
        ),
        ToggleStateModel::Stopping { toggle_session_id, .. } => noted(
            model,
            now_ms,
            note_ignored_while_stopping_text(toggle_session_id),
        ),
    }
}

/// The id after `id`; it wraps at the end of its type.
pub open spec fn id_after(id: u64) -> u64 {
    if id == u64::MAX {
        0
    } else {
        (id + 1) as u64
    }
}

/// What follows the read of the current input source.
#[derive(Clone, Copy, Debug, PartialEq, Eq, Structural)]
pub enum StartStep {
    /// The dictation source is not active: it is to be switched to.
    SwitchEngine { toggle_session_id: u64 },
    /// The dictation source is active: the target's focus is to be awaited.
    AwaitFocus { toggle_session_id: u64 },
}

/// Whether the read of the current input source found the dictation source.
pub open spec fn on_dikt(current_engine: Result<String, String>) -> bool {
    match current_engine {
        Ok(engine) => names_dikt(engine@),
        Err(_) => false,
    }
}

/// The controller after the current input source was read at the start of
/// a toggle session.
pub open spec fn after_start_begun(
    model: ControllerModel,
    current_engine: Result<String, String>,
    now_ms: u64,
) -> ControllerModel {
    let id = model.next_toggle_session_id;
    let read = match current_engine {
        Ok(_) => model,
        Err(e) => noted(model, now_ms, note_engine_unreadable_text(e@)),
    };
    let pressed = noted(
        ControllerModel { next_toggle_session_id: id_after(id), ..read },
        now_ms,
        note_pressed_text(id),
    );
    if on_dikt(current_engine) {
        noted(
            noted(
                ControllerModel {
                    health: HealthModel {
                        last_switch_confirm_latency_ms: 0,
                        last_switch_failure_message: Seq::empty(),
                        press_while_dikt_count: bumped(pressed.health.press_while_dikt_count),
                        ..pressed.health
                    },
                    ..pressed
                },
                now_ms,
                note_already_on_source_text(id),
            ),
            now_ms,
            note_pressed_while_active_text(id),
        )
    } else {
        noted(
            ControllerModel {
                health: HealthModel { last_switch_attempt_ms: now_ms, ..pressed.health },
                ..pressed
            },
            now_ms,
            note_switch_requested_text(
                id,
                match current_engine {
                    Ok(engine) => engine@,
                    Err(_) => "<unknown>"@,
                },
            ),
        )
    }
}

/// The controller after the switch of the input source ended.
pub open spec fn after_switch(
    model: ControllerModel,
    toggle_session_id: u64,
    result: Result<String, String>,
    latency_ms: u64,
    restricted: bool,
    now_ms: u64,
) -> ControllerModel {
    match result {
        Ok(engine) => noted(
            ControllerModel {
                health: HealthModel {
                    last_switch_confirm_latency_ms: latency_ms,
                    last_switch_failure_message: Seq::empty(),
                    ..model.health
                },
                ..model
            },
            now_ms,
            note_switch_confirmed_text(toggle_session_id, engine@, latency_ms),
        ),
        Err(e) => noted(
            after_notification(
                ControllerModel {
                    health: health_after_error(
                        HealthModel { last_switch_failure_message: e@, ..model.health },
                        "ibus_switch_to_dikt_failed"@,
                        e@,
                    ),
                    ..model
                },
                restricted,
                now_ms,
            ),
            now_ms,
            note_switch_failed_text(toggle_session_id, e@),
        ),
    }
}

/// The controller after the wait for the target's focus ended.
pub open spec fn after_focus_wait(
    model: ControllerModel,
    toggle_session_id: u64,
    result: Result<(u64, u64), String>,
    restricted: bool,
    now_ms: u64,
) -> ControllerModel {
    match result {
        Ok((engine_id, last_change_ms)) => {
            let pending = in_state(
                noted(
                    model,
                    now_ms,
                    note_focus_confirmed_text(toggle_session_id, engine_id, last_change_ms),
                ),
                ToggleStateModel::Pending { toggle_session_id },
                "pending"@,
            );
            ControllerModel {
                health: HealthModel {
                    pending_commit_session_id: 0,
                    pending_commit_mark_ms: 0,
                    ..pending.health
                },
                ..pending
            }
        },
        Err(e) => noted(
            after_notification(
                ControllerModel {
                    health: health_after_error(
                        HealthModel {
                            last_start_failure_code: "focused_engine_unavailable"@,
                            last_start_failure_message: e@,
                            last_start_failure_ms: now_ms,
                            ..model.health
                        },
                        "focused_engine_unavailable"@,
                        e@,
                    ),
                    ..model
                },
                restricted,
                now_ms,
            ),
            now_ms,
            note_focus_unavailable_text(toggle_session_id, e@),
        ),
    }
}

/// Whether the toggle waits for the start of `toggle_session_id`.
pub open spec fn awaits_start(state: ToggleStateModel, toggle_session_id: u64) -> bool {
    state == (ToggleStateModel::Pending { toggle_session_id })
}

/// The controller after the result of a start call came in.
pub open spec fn after_start_result(
    model: ControllerModel,
    toggle_session_id: u64,
    result: Result<(u64, String), String>,
    restricted: bool,
    now_ms: u64,
) -> ControllerModel {
    if awaits_start(model.state, toggle_session_id) {
        match result {
            Ok((daemon_session_id, claim_token)) => noted(
                in_state(
                    ControllerModel {
                        health: HealthModel {
                            last_start_failure_code: Seq::empty(),
                            last_start_failure_message: Seq::empty(),
                            last_start_failure_ms: 0,
                            last_stop_failure_message: Seq::empty(),
                            last_stop_failure_ms: 0,
                            ..model.health
                        },
                        ..model
                    },
                    ToggleStateModel::Recording {
                        toggle_session_id,
                        daemon_session_id,
                        claim_token: claim_token@,
                    },
                    "recording"@,
                ),
                now_ms,
                note_started_text(toggle_session_id, daemon_session_id),
            ),
            Err(err) => {
                let failed = noted(
                    after_notification(
                        ControllerModel {
                            health: health_after_error(
                                HealthModel {
                                    last_start_failure_code: start_failure_code(err@),
                                    last_start_failure_message: err@,
                                    last_start_failure_ms: now_ms,
                                    ..model.health
                                },
                                "start_recording_failed"@,
                                err@,
                            ),
                            ..model
                        },
                        restricted,
                        now_ms,
                    ),
                    now_ms,
                    note_start_failed_text(toggle_session_id, err@),
                );
                let idle = in_state(failed, ToggleStateModel::Idle, "idle"@);
                ControllerModel {
                    health: HealthModel {
                        pending_commit_session_id: 0,
                        pending_commit_mark_ms: 0,
                        ..idle.health
                    },
                    ..idle
                }
            },
        }
    } else {
        match result {
            Ok(_) => noted(model, now_ms, note_stale_start_cancelled_text(toggle_session_id)),
            Err(_) => noted(model, now_ms, note_stale_start_ignored_text(toggle_session_id)),
        }
    }
}

/// What the listener is to do after the result of a start call came in.
pub open spec fn start_result_effect(
    model: ControllerModel,
    toggle_session_id: u64,
    result: Result<(u64, String), String>,
    restricted: bool,
    now_ms: u64,
) -> Option<ToggleEffectModel> {
    if awaits_start(model.state, toggle_session_id) {
        match result {
            Ok(_) => None,
            Err(err) => notification(
                ControllerModel {
                    health: health_after_error(
                        HealthModel {
                            last_start_failure_code: start_failure_code(err@),
                            last_start_failure_message: err@,
                            last_start_failure_ms: now_ms,
                            ..model.health
                        },
                        "start_recording_failed"@,
                        err@,
                    ),
                    ..model
                },
                restricted,
                now_ms,
                "Cannot start recording"@,
                start_failed_body_text(start_failure_code(err@)),
            ),
        }
    } else {
        match result {
            Ok((daemon_session_id, _)) => Some(
                ToggleEffectModel::CancelRecording {
                    session_id: daemon_session_id,
                    reason: CancelReason::StaleStart,
                },
            ),
            Err(_) => None,
        }
    }
}

/// The daemon session whose stop the toggle waits for as `toggle_session_id`,
/// if it waits for one.
pub open spec fn awaited_stop(state: ToggleStateModel, toggle_session_id: u64) -> Option<u64> {
    match state {
        ToggleStateModel::Stopping { toggle_session_id: active, daemon_session_id } => {
            if active == toggle_session_id {
                Some(daemon_session_id)
            } else {
                None
            }
        },
        _ => None,
    }
}

/// The controller after the result of a stop call came in.
pub open spec fn after_stop_result(
    model: ControllerModel,
    toggle_session_id: u64,
    result: StopRecordingOutcome,
    now_ms: u64,
) -> ControllerModel {
    match awaited_stop(model.state, toggle_session_id) {
        Some(daemon_session_id) => match result {
            StopRecordingOutcome::Acknowledged => in_state(
                noted(
                    noted(
                        ControllerModel {
                            health: HealthModel {
                                last_stop_failure_message: Seq::empty(),
                                last_stop_failure_ms: 0,
                                pending_commit_session_id: daemon_session_id,
                                pending_commit_mark_ms: now_ms,
                                ..model.health
                            },
                            ..model
                        },
                        now_ms,
                        note_stop_acknowledged_text(toggle_session_id, daemon_session_id),
                    ),
                    now_ms,
                    note_stop_complete_text(toggle_session_id, daemon_session_id),
                ),
                ToggleStateModel::Idle,
                "idle"@,
            ),
            StopRecordingOutcome::Finalizing { reason, timed_out } => in_state(
                noted(
                    ControllerModel {
                        health: HealthModel {
                            stop_timeout_fallback_count: if timed_out {
                                bumped(model.health.stop_timeout_fallback_count)
                            } else {
                                model.health.stop_timeout_fallback_count
                            },
                            last_stop_failure_message: Seq::empty(),
                            last_stop_failure_ms: 0,
                            pending_commit_session_id: daemon_session_id,
                            pending_commit_mark_ms: now_ms,
                            ..model.health
                        },
                        ..model
                    },
                    now_ms,
                    note_stop_finalizing_text(toggle_session_id, daemon_session_id, reason@),
                ),
                ToggleStateModel::Idle,
                "idle"@,
            ),
            StopRecordingOutcome::Failed(err) => noted(
                in_state(
                    noted(
                        ControllerModel {
                            health: HealthModel {
                                last_stop_failure_message: err@,
                                last_stop_failure_ms: now_ms,
                                pending_commit_session_id: 0,
                                pending_commit_mark_ms: 0,
                                ..health_after_error(
                                    model.health,
                                    "stop_recording_failed"@,
                                    err@,
                                )
                            },
                            ..model
                        },
                        now_ms,
                        note_stop_failed_text(toggle_session_id, daemon_session_id, err@),
                    ),
                    ToggleStateModel::Idle,
                    "idle"@,
                ),
                now_ms,
                note_stop_failure_handled_text(toggle_session_id),
            ),
        },
        None => noted(model, now_ms, note_stale_stop_ignored_text(toggle_session_id)),
    }
}

/// The daemon session that is cancelled when the listener shuts down in
/// `state`, with the reason.
pub open spec fn cleanup_effect(state: ToggleStateModel) -> Option<ToggleEffectModel> {
    match state {
        ToggleStateModel::Recording { daemon_session_id, .. } => Some(
            ToggleEffectModel::CancelRecording {
                session_id: daemon_session_id,
                reason: CancelReason::Cleanup,
            },
        ),
        ToggleStateModel::Stopping { daemon_session_id, .. } => Some(
            ToggleEffectModel::CancelRecording {
                session_id: daemon_session_id,
                reason: CancelReason::CleanupAfterStop,
            },
        ),
        _ => None,
    }
}

/// The listener's controller: the toggle, the health record, the history
/// of events, and what it knows of the keyboard.
pub struct ToggleController {
    /// The state of the toggle.
    pub state: ToggleState,
    /// The health record.
    pub health: ToggleRuntimeHealth,
    /// The history of events.
    pub events: ToggleEventLog,
    /// The time of the last press of the shortcut that was not dropped.
    pub last_shortcut_press_ms: u64,
    /// The id that the next toggle session gets.
    pub next_toggle_session_id: u64,
    /// The modifier keys that are held.
    pub held_modifiers: HashSet<u16>,
    /// Whether the listener was asked to bind its shortcut anew.
    pub rebind_requested: bool,
}

impl View for ToggleController {
    type V = ControllerModel;

    open spec fn view(&self) -> ControllerModel {
        ControllerModel {
            state: self.state@,
            health: self.health@,
            events: self.events.lines(),
            last_shortcut_press_ms: self.last_shortcut_press_ms,
            next_toggle_session_id: self.next_toggle_session_id,
            held: self.held_modifiers@,
            rebind_requested: self.rebind_requested,
        }
    }
}

impl ToggleController {
    /// Whether the history is within its limit.
    pub open spec fn wf(&self) -> bool {
        self.events.wf()
    }

    /// A controller with an idle toggle, before the listener has started.
    /// Toggle session ids start at 1.
    pub fn new() -> (controller: Self)
        ensures
            controller.wf(),
            controller@ == (ControllerModel {
                state: ToggleStateModel::Idle,
                health: crate::health::initial_health(),
                events: Seq::empty(),
                last_shortcut_press_ms: 0,
                next_toggle_session_id: 1,
                held: Set::empty(),
                rebind_requested: false,
            }),
    {
        ToggleController {
            state: ToggleState::Idle,
            health: ToggleRuntimeHealth::default(),
            events: ToggleEventLog::new(),
            last_shortcut_press_ms: 0,
            next_toggle_session_id: 1,
            held_modifiers: HashSet::new(),
            rebind_requested: false,
        }
    }

    fn note(&mut self, text: String, now_ms: u64)
        requires
            old(self).wf(),
        ensures
            final(self).wf(),
            final(self)@ == noted(old(self)@, now_ms, text@),
    {
        self.events.push_toggle_event(text.as_str(), now_ms);
    }

    fn enter(&mut self, state: ToggleState, name: &str)
        ensures
            final(self)@ == in_state(old(self)@, state@, name@),
            old(self).wf() ==> final(self).wf(),
    {
        self.state = state;
        self.health.mark_toggle_state(name);
    }

    fn notify(&mut self, restricted: bool, now_ms: u64, summary: &str, body: String) -> (effect:
        Option<ToggleEffect>)
        ensures
            final(self)@ == after_notification(old(self)@, restricted, now_ms),
            effect_model(effect) == notification(old(self)@, restricted, now_ms, summary@, body@),
            old(self).wf() ==> final(self).wf(),
    {
        if self.health.allow_notification(restricted, now_ms) {
            Some(ToggleEffect::Notify { summary: String::from_str(summary), body })
        } else {
            None
        }
    }

    /// Issues the id of the next toggle session. Ids grow by one and wrap
    /// at the end of their type.
    pub fn next_toggle_session_id(&mut self) -> (id: u64)
        ensures
            id == old(self)@.next_toggle_session_id,
            final(self)@ == (ControllerModel {
                next_toggle_session_id: id_after(id),
                ..old(self)@
            }),
            old(self).wf() ==> final(self).wf(),
    {
        let id = self.next_toggle_session_id;
        self.next_toggle_session_id = id.wrapping_add(1);
        id
    }

    /// Asks the listener to bind its shortcut anew.
    pub fn request_shortcut_listener_rebind(&mut self)
        ensures
            final(self)@ == (ControllerModel { rebind_requested: true, ..old(self)@ }),
            old(self).wf() ==> final(self).wf(),
    {
        self.rebind_requested = true;
    }

    /// Whether a new binding was asked for; the request is taken.
    pub fn take_rebind_request(&mut self) -> (requested: bool)
        ensures
            requested == old(self)@.rebind_requested,
            final(self)@ == (ControllerModel { rebind_requested: false, ..old(self)@ }),
            old(self).wf() ==> final(self).wf(),
    {
        let requested = self.rebind_requested;
        self.rebind_requested = false;
        requested
    }

    /// Takes the release of the key with `code`: a modifier is no longer
    /// held.
    pub fn key_released(&mut self, code: u16)
        ensures
            final(self)@ == (ControllerModel {
                held: if modifier_flag(code) != 0 {
                    old(self)@.held.remove(code)
                } else {
                    old(self)@.held
                },
                ..old(self)@
            }),
            old(self).wf() ==> final(self).wf(),
    {
        broadcast use group_hash_axioms;

        if is_modifier_key(code) {
            let _ = self.held_modifiers.remove(&code);
        }
    }

    /// Takes the press of the key with `code` at `now_ms` and says what it
    /// means.
    ///
    /// A modifier is held from now on. The shortcut's key, with exactly the
    /// shortcut's modifiers held, is the shortcut: it is dropped if it
    /// follows the last accepted press by less than the debounce time, and
    /// accepted otherwise.
    pub fn key_pressed(&mut self, code: u16, keybinding: &EvdevKeybinding, now_ms: u64) -> (kind:
        KeyPress)
        requires
            old(self).wf(),
        ensures
            final(self).wf(),
            kind == key_press_kind(old(self)@, code, *keybinding, now_ms),
            final(self)@ == after_key_press(old(self)@, code, *keybinding, now_ms),
    {
        broadcast use group_hash_axioms;

        if is_modifier_key(code) {
            let _ = self.held_modifiers.insert(code);
            return KeyPress::Modifier;
        }
        if code != keybinding.key_code {
            return KeyPress::Unrelated;
        }
        let current_mods = modifiers_from_held_keys(&self.held_modifiers);
        if current_mods != keybinding.modifiers {
            return KeyPress::Unrelated;
        }
        if now_ms.saturating_sub(self.last_shortcut_press_ms) < TOGGLE_PRESS_DEBOUNCE_MS {
            self.note(note_debounced(), now_ms);
            return KeyPress::Debounced;
        }
        self.last_shortcut_press_ms = now_ms;
        KeyPress::Shortcut
    }

    /// Takes an accepted press of the shortcut at `now_ms`.
    ///
    /// An idle toggle is to attempt a start. A toggle that records asks for
    /// the stop and waits for it. A press while a start or a stop is in
    /// flight is ignored.
    pub fn on_global_pressed(&mut self, now_ms: u64) -> (action: PressAction)
        requires
            old(self).wf(),
        ensures
            final(self).wf(),
            action == press_action(old(self)@.state),
            final(self)@ == after_press(old(self)@, now_ms),
    {
        let action = match &self.state {
            ToggleState::Idle => PressAction::BeginStart,
            ToggleState::Pending { .. } => PressAction::Ignored,
            ToggleState::Recording {
                toggle_session_id,
                daemon_session_id,
                ..
            } => PressAction::Stop {
                toggle_session_id: *toggle_session_id,
                daemon_session_id: *daemon_session_id,
            },
            ToggleState::Stopping { .. } => PressAction::Ignored,
        };
        let in_flight: u64 = match &self.state {
            ToggleState::Pending { toggle_session_id } => *toggle_session_id,
            ToggleState::Stopping { toggle_session_id, .. } => *toggle_session_id,
            _ => 0,
        };
        let starting = match &self.state {
            ToggleState::Pending { .. } => true,
            _ => false,
        };
        match action {
            PressAction::BeginStart => {},
            PressAction::Ignored => {
                if starting {
                    self.note(note_ignored_while_pending(in_flight), now_ms);
                } else {
                    self.note(note_ignored_while_stopping(in_flight), now_ms);
                }
            },
            PressAction::Stop { toggle_session_id, daemon_session_id } => {
                self.note(note_stop_requested(toggle_session_id, daemon_session_id), now_ms);
                self.enter(
                    ToggleState::Stopping { toggle_session_id, daemon_session_id },
                    "stopping",
                );
            },
        }
        action
    }

    /// Begins a toggle session at `now_ms`, with what the read of the
    /// current input source brought.
    ///
    /// The session gets the next id. Where the dictation source is active
    /// already, the press is counted and the target's focus is awaited next;
    /// else the switch to the dictation source is attempted next. A failed
    /// read is noted and taken as another source.
    pub fn begin_toggle_start(&mut self, current_engine: &Result<String, String>, now_ms: u64) -> (step:
        StartStep)
        requires
            old(self).wf(),
        ensures
            final(self).wf(),
            step == if on_dikt(*current_engine) {
                StartStep::AwaitFocus { toggle_session_id: old(self)@.next_toggle_session_id }
            } else {
                StartStep::SwitchEngine { toggle_session_id: old(self)@.next_toggle_session_id }
            },
            final(self)@ == after_start_begun(old(self)@, *current_engine, now_ms),
    {
        match current_engine {
            Ok(_) => {},
            Err(e) => {
                self.note(note_engine_unreadable(e.as_str()), now_ms);
            },
        }
        let toggle_session_id = self.next_toggle_session_id();
        self.note(note_pressed(toggle_session_id), now_ms);
        let active = match current_engine {
            Ok(engine) => is_dikt_engine(engine.as_str()),
            Err(_) => false,
        };
        if active {
            self.health.mark_switch_confirm(0);
            self.note(note_already_on_source(toggle_session_id), now_ms);
            self.health.bump_press_while_dikt();
            self.note(note_pressed_while_active(toggle_session_id), now_ms);
            StartStep::AwaitFocus { toggle_session_id }
        } else {
            self.health.mark_switch_attempt(now_ms);
            let text = match current_engine {
                Ok(engine) => note_switch_requested(toggle_session_id, engine.as_str()),
                Err(_) => note_switch_requested(toggle_session_id, "<unknown>"),
            };
            self.note(text, now_ms);
            StartStep::SwitchEngine { toggle_session_id }
        }
    }

    /// Takes the end of the switch to the dictation source: the engine
    /// that was confirmed after `latency_ms`, or the error.
    ///
    /// A confirmed switch lets the start go on. A failed one ends the toggle
    /// session: the failure is recorded and a notification is due, unless
    /// one was shown a moment ago.
    pub fn engine_switch_finished(
        &mut self,
        toggle_session_id: u64,
        result: &Result<String, String>,
        latency_ms: u64,
        restricted: bool,
        now_ms: u64,
    ) -> (verdict: Result<(), Option<ToggleEffect>>)
        requires
            old(self).wf(),
        ensures
            final(self).wf(),
            final(self)@ == after_switch(
                old(self)@,
                toggle_session_id,
                *result,
                latency_ms,
                restricted,
                now_ms,
            ),
            match verdict {
                Ok(()) => *result is Ok,
                Err(effect) => *result is Err && effect_model(effect) == notification(
                    (ControllerModel {
                        health: health_after_error(
                            (HealthModel {
                                last_switch_failure_message: result->Err_0@,
                                ..old(self)@.health
                            }),
                            "ibus_switch_to_dikt_failed"@,
                            result->Err_0@,
                        ),
                        ..old(self)@
                    }),
                    restricted,
                    now_ms,
                    "Cannot start recording"@,
                    "Failed to switch input source to Dikt (not confirmed active)."@,
                ),
            },
    {
        match result {
            Ok(engine) => {
                self.health.mark_switch_confirm(latency_ms);
                self.note(
                    note_switch_confirmed(toggle_session_id, engine.as_str(), latency_ms),
                    now_ms,
                );
                Ok(())
            },
            Err(e) => {
                self.health.mark_switch_failure(e.as_str());
                self.health.mark_health_error("ibus_switch_to_dikt_failed", e.as_str());
                let effect = self.notify(
                    restricted,
                    now_ms,
                    "Cannot start recording",
                    String::from_str("Failed to switch input source to Dikt (not confirmed active)."),
                );
                self.note(note_switch_failed(toggle_session_id, e.as_str()), now_ms);
                Err(effect)
            },
        }
    }

    /// Takes the end of the wait for the target's focus: the focused target
    /// and the time of its last change, or the error.
    ///
    /// With a focused target the start call is due and the toggle waits for
    /// its result. Without one the toggle session ends: the failure is
    /// recorded and a notification is due, unless one was shown a moment
    /// ago.
    pub fn focus_wait_finished(
        &mut self,
        toggle_session_id: u64,
        result: &Result<(u64, u64), String>,
        restricted: bool,
        now_ms: u64,
    ) -> (effect: Option<ToggleEffect>)
        requires
            old(self).wf(),
        ensures
            final(self).wf(),
            final(self)@ == after_focus_wait(
                old(self)@,
                toggle_session_id,
                *result,
                restricted,
                now_ms,
            ),
            effect_model(effect) == match *result {
                Ok((engine_id, _)) => Some(
                    ToggleEffectModel::StartRecording {
                        toggle_session_id,
                        target_engine_id: engine_id,
                    },
                ),
                Err(e) => notification(
                    (ControllerModel {
                        health: health_after_error(
                            (HealthModel {
                                last_start_failure_code: "focused_engine_unavailable"@,
                                last_start_failure_message: e@,
                                last_start_failure_ms: now_ms,
                                ..old(self)@.health
                            }),
                            "focused_engine_unavailable"@,
                            e@,
                        ),
                        ..old(self)@
                    }),
                    restricted,
                    now_ms,
                    "Cannot start recording"@,
                    "Dikt input source is not focused in the target text field."@,
                ),
            },
    {
        match result {
            Ok((engine_id, last_change_ms)) => {
                self.note(
                    note_focus_confirmed(toggle_session_id, *engine_id, *last_change_ms),
                    now_ms,
                );
                self.enter(ToggleState::Pending { toggle_session_id }, "pending");
                self.health.clear_pending_commit();
                Some(
                    ToggleEffect::StartRecording { toggle_session_id, target_engine_id: *engine_id },
                )
            },
            Err(e) => {
                self.health.mark_start_failure("focused_engine_unavailable", e.as_str(), now_ms);
                self.health.mark_health_error("focused_engine_unavailable", e.as_str());
                let effect = self.notify(
                    restricted,
                    now_ms,
                    "Cannot start recording",
                    String::from_str("Dikt input source is not focused in the target text field."),
                );
                self.note(note_focus_unavailable(toggle_session_id, e.as_str()), now_ms);
                effect
            },
        }
    }

    /// Takes the result of a start call at `now_ms`.
    ///
    /// For the toggle session that the toggle waits for, a success makes the
    /// toggle record, with the daemon's session id and claim token; a
    /// failure makes it idle, is recorded, and a notification is due unless
    /// one was shown a moment ago. For any other toggle session the result
    /// is stale: the toggle stays as it is, and a daemon session that was
    /// started all the same is to be cancelled.
    pub fn on_start_recording_result(
        &mut self,
        toggle_session_id: u64,
        result: Result<(u64, String), String>,
        restricted: bool,
        now_ms: u64,
    ) -> (effect: Option<ToggleEffect>)
        requires
            old(self).wf(),
        ensures
            final(self).wf(),
            final(self)@ == after_start_result(
                old(self)@,
                toggle_session_id,
                result,
                restricted,
                now_ms,
            ),
            effect_model(effect) == start_result_effect(
                old(self)@,
                toggle_session_id,
                result,
                restricted,
                now_ms,
            ),
    {
        let awaited = match &self.state {
            ToggleState::Pending { toggle_session_id: active } => *active == toggle_session_id,
            _ => false,
        };
        if awaited {
            match result {
                Ok((daemon_session_id, claim_token)) => {
                    self.health.clear_start_failure();
                    self.health.clear_stop_failure();
                    self.enter(
                        ToggleState::Recording { toggle_session_id, daemon_session_id, claim_token },
                        "recording",
                    );
                    self.note(note_started(toggle_session_id, daemon_session_id), now_ms);
                    None
                },
                Err(err) => {
                    let failure_code = extract_start_failure_code(err.as_str());
                    self.health.mark_start_failure(failure_code.as_str(), err.as_str(), now_ms);
                    self.health.mark_health_error("start_recording_failed", err.as_str());
                    let effect = self.notify(
                        restricted,
                        now_ms,
                        "Cannot start recording",
                        start_failed_body(failure_code.as_str()),
                    );
                    self.note(note_start_failed(toggle_session_id, err.as_str()), now_ms);
                    self.enter(ToggleState::Idle, "idle");
                    self.health.clear_pending_commit();
                    effect
                },
            }
        } else {
            match result {
                Ok((daemon_session_id, _)) => {
                    self.note(note_stale_start_cancelled(toggle_session_id), now_ms);
                    Some(
                        ToggleEffect::CancelRecording {
                            session_id: daemon_session_id,
                            reason: CancelReason::StaleStart,
                        },
                    )
                },
                Err(_) => {
                    self.note(note_stale_start_ignored(toggle_session_id), now_ms);
                    None
                },
            }
        }
    }

    /// Takes the result of a stop call at `now_ms`.
    ///
    /// For the toggle session whose stop the toggle waits for, the toggle
    /// becomes idle. After an acknowledged stop, and after one that the
    /// daemon finishes on its own, the session's commit is expected; a
    /// failed stop is recorded. For any other toggle session the result is
    /// stale and only noted.
    pub fn on_stop_recording_result(
        &mut self,
        toggle_session_id: u64,
        result: StopRecordingOutcome,
        now_ms: u64,
    )
        requires
            old(self).wf(),
        ensures
            final(self).wf(),
            final(self)@ == after_stop_result(old(self)@, toggle_session_id, result, now_ms),
    {
        let awaited: Option<u64> = match &self.state {
            ToggleState::Stopping { toggle_session_id: active, daemon_session_id } => {
                if *active == toggle_session_id {
                    Some(*daemon_session_id)
                } else {
                    None
                }
            },
            _ => None,
        };
        match awaited {
            Some(daemon_session_id) => match result {
                StopRecordingOutcome::Acknowledged => {
                    self.health.clear_stop_failure();
                    self.health.mark_pending_commit(daemon_session_id, now_ms);
                    self.note(
                        note_stop_acknowledged(toggle_session_id, daemon_session_id),
                        now_ms,
                    );
                    self.note(note_stop_complete(toggle_session_id, daemon_session_id), now_ms);
                    self.enter(ToggleState::Idle, "idle");
                },
                StopRecordingOutcome::Finalizing { reason, timed_out } => {
                    if timed_out {
                        self.health.bump_stop_timeout_fallback();
                    }
                    self.health.clear_stop_failure();
                    self.health.mark_pending_commit(daemon_session_id, now_ms);
                    self.note(
                        note_stop_finalizing(toggle_session_id, daemon_session_id, reason.as_str()),
                        now_ms,
                    );
                    self.enter(ToggleState::Idle, "idle");
                },
                StopRecordingOutcome::Failed(err) => {
                    self.health.mark_health_error("stop_recording_failed", err.as_str());
                    self.health.mark_stop_failure(err.as_str(), now_ms);
                    self.note(
                        note_stop_failed(toggle_session_id, daemon_session_id, err.as_str()),
                        now_ms,
                    );
                    self.health.clear_pending_commit();
                    self.enter(ToggleState::Idle, "idle");
                    self.note(note_stop_failure_handled(toggle_session_id), now_ms);
                },
            },
            None => {
                self.note(note_stale_stop_ignored(toggle_session_id), now_ms);
            },
        }
    }

    /// Takes the result of a call that the controller has issued.
    pub fn handle_internal_event(&mut self, internal: InternalEvent, restricted: bool, now_ms: u64) -> (effect:
        Option<ToggleEffect>)
        requires
            old(self).wf(),
        ensures
            final(self).wf(),
            match internal {
                InternalEvent::StartRecording { toggle_session_id, result } => {
                    &&& final(self)@ == after_start_result(
                        old(self)@,
                        toggle_session_id,
                        result,
                        restricted,
                        now_ms,
                    )
                    &&& effect_model(effect) == start_result_effect(
                        old(self)@,
                        toggle_session_id,
                        result,
                        restricted,
                        now_ms,
                    )
                },
                InternalEvent::StopRecording { toggle_session_id, result } => {
                    &&& final(self)@ == after_stop_result(
                        old(self)@,
                        toggle_session_id,
                        result,
                        now_ms,
                    )
                    &&& effect is None
                },
            },
    {
        match internal {
            InternalEvent::StartRecording { toggle_session_id, result } => {
                self.on_start_recording_result(toggle_session_id, result, restricted, now_ms)
            },
            InternalEvent::StopRecording { toggle_session_id, result } => {
                self.on_stop_recording_result(toggle_session_id, result, now_ms);
                None
            },
        }
    }

    /// Resets the toggle when the listener shuts down or binds anew. A
    /// daemon session that records, or whose stop is in flight, is to be
    /// cancelled.
    pub fn cleanup_state(&mut self) -> (effect: Option<ToggleEffect>)
        ensures
            final(self)@ == in_state(old(self)@, ToggleStateModel::Idle, "idle"@),
            effect_model(effect) == cleanup_effect(old(self)@.state),
            old(self).wf() ==> final(self).wf(),
    {
        let effect = match &self.state {
            ToggleState::Recording { daemon_session_id, .. } => Some(
                ToggleEffect::CancelRecording {
                    session_id: *daemon_session_id,
                    reason: CancelReason::Cleanup,
                },
            ),
            ToggleState::Stopping { daemon_session_id, .. } => Some(
                ToggleEffect::CancelRecording {
                    session_id: *daemon_session_id,
                    reason: CancelReason::CleanupAfterStop,
                },
            ),
            _ => None,
        };
        self.enter(ToggleState::Idle, "idle");
        effect
    }
}

/// The code of a failed keyboard session: a fault of permission if the
/// message speaks of one.
pub open spec fn session_error_code(message: Seq<char>) -> Seq<char> {
    if contains_text(message, "Permission denied"@) || contains_text(message, "permission"@) {
        "evdev_permission_denied"@
    } else {
        "evdev_session_error"@
    }
}

/// The longest that the listener sleeps at a time while it waits to try
/// again, in milliseconds.
pub const RETRY_SLEEP_STEP_MS: u64 = 200;

impl ToggleController {
    /// Records at `now_ms` that the listener is starting.
    pub fn listener_starting(&mut self, now_ms: u64)
        requires
            old(self).wf(),
        ensures
            final(self).wf(),
            final(self)@ == noted(
                (ControllerModel {
                    health: HealthModel {
                        current_state: "initializing"@,
                        ..health_after_error(
                            old(self)@.health,
                            "initializing"@,
                            "Starting global dictation shortcut listener"@,
                        )
                    },
                    ..old(self)@
                }),
                now_ms,
                "listener: initializing"@,
            ),
    {
        self.health.mark_health_error("initializing", "Starting global dictation shortcut listener");
        self.health.mark_toggle_state("initializing");
        self.note(String::from_str("listener: initializing"), now_ms);
    }

    /// Records that the shortcut with `keyval` is not supported. A
    /// notification is due, unless one was shown a moment ago.
    pub fn shortcut_unsupported(&mut self, keyval: u32, restricted: bool, now_ms: u64) -> (effect:
        Option<ToggleEffect>)
        ensures
            final(self)@ == after_notification(
                (ControllerModel {
                    health: health_after_error(
                        old(self)@.health,
                        "invalid_shortcut"@,
                        unsupported_shortcut_text(keyval),
                    ),
                    ..old(self)@
                }),
                restricted,
                now_ms,
            ),
            effect_model(effect) == notification(
                (ControllerModel {
                    health: health_after_error(
                        old(self)@.health,
                        "invalid_shortcut"@,
                        unsupported_shortcut_text(keyval),
                    ),
                    ..old(self)@
                }),
                restricted,
                now_ms,
                "Invalid dictation shortcut"@,
                "Set a supported shortcut in Dikt preferences."@,
            ),
            old(self).wf() ==> final(self).wf(),
    {
        self.health.mark_health_error("invalid_shortcut", unsupported_shortcut(keyval).as_str());
        self.notify(
            restricted,
            now_ms,
            "Invalid dictation shortcut",
            String::from_str("Set a supported shortcut in Dikt preferences."),
        )
    }

    /// Records at `now_ms` that a keyboard session began on `keyboards`
    /// keyboards for the shortcut with `description`. The toggle is idle,
    /// no modifier is held and no press is remembered.
    pub fn session_started(&mut self, keyboards: u64, description: &str, now_ms: u64)
        ensures
            final(self)@ == (ControllerModel {
                state: ToggleStateModel::Idle,
                held: Set::empty(),
                last_shortcut_press_ms: 0,
                health: HealthModel {
                    shortcut_description: description@,
                    healthy: true,
                    component: "global_shortcuts"@,
                    code: "ok"@,
                    message: listening_on_text(keyboards, description@),
                    last_success_ms: now_ms,
                    listener_session_ok: true,
                    shortcut_bound: true,
                    current_state: "idle"@,
                    ..old(self)@.health
                },
                ..old(self)@
            }),
            old(self).wf() ==> final(self).wf(),
    {
        self.health.mark_shortcut_description(description);
        self.health.mark_health_success(listening_on(keyboards, description).as_str(), now_ms);
        self.health.mark_toggle_state("idle");
        self.state = ToggleState::Idle;
        self.held_modifiers = HashSet::new();
        self.last_shortcut_press_ms = 0;
    }

    /// Records that a keyboard session failed with `message`. A
    /// notification is due, unless one was shown a moment ago.
    pub fn session_failed(&mut self, message: &str, restricted: bool, now_ms: u64) -> (effect:
        Option<ToggleEffect>)
        ensures
            final(self)@ == after_notification(
                (ControllerModel {
                    health: health_after_error(
                        old(self)@.health,
                        session_error_code(message@),
                        message@,
                    ),
                    ..old(self)@
                }),
                restricted,
                now_ms,
            ),
            effect_model(effect) == notification(
                (ControllerModel {
                    health: health_after_error(
                        old(self)@.health,
                        session_error_code(message@),
                        message@,
                    ),
                    ..old(self)@
                }),
                restricted,
                now_ms,
                "Global dictation shortcut is unavailable"@,
                keyboard_error_body_text(message@),
            ),
            old(self).wf() ==> final(self).wf(),
    {
        let code = if str_contains(message, "Permission denied") || str_contains(
            message,
            "permission",
        ) {
            "evdev_permission_denied"
        } else {
            "evdev_session_error"
        };
        self.health.mark_health_error(code, message);
        self.notify(
            restricted,
            now_ms,
            "Global dictation shortcut is unavailable",
            keyboard_error_body(message),
        )
    }

    /// Decides for how long the listener sleeps next while it waits
    /// `remaining_ms` more before it tries again: 200 milliseconds at most
    /// at a time, and not at all once a new binding was asked for, which
    /// ends the wait and takes the request.
    pub fn retry_sleep_step(&mut self, remaining_ms: u64) -> (step_ms: u64)
        ensures
            step_ms == if remaining_ms == 0 || old(self)@.rebind_requested {
                0
            } else if remaining_ms < RETRY_SLEEP_STEP_MS {
                remaining_ms
            } else {
                RETRY_SLEEP_STEP_MS
            },
            final(self)@ == if remaining_ms == 0 {
                old(self)@
            } else {
                ControllerModel { rebind_requested: false, ..old(self)@ }
            },
            old(self).wf() ==> final(self).wf(),
    {
        if remaining_ms == 0 {
            return 0;
        }
        if self.take_rebind_request() {
            return 0;
        }
        if remaining_ms < RETRY_SLEEP_STEP_MS {
            remaining_ms
        } else {
            RETRY_SLEEP_STEP_MS
        }
    }
}

/// Asks the listener to bind its shortcut anew.
pub fn request_shortcut_listener_rebind(controller: &mut ToggleController)
    ensures
        final(controller)@ == (ControllerModel { rebind_requested: true, ..old(controller)@ }),
        old(controller).wf() ==> final(controller).wf(),
{
    controller.request_shortcut_listener_rebind();
}

/// Checks that the shortcut can be listened for, given how many keyboards
/// could be opened or why none could, and asks the listener to bind anew if
/// it can.
///
/// The answer is a line for the user. It is an error if the shortcut's key
/// is not supported, if no keyboard was found, or if the keyboards could not
/// be read; then no new binding is asked for.
pub fn authorize_shortcut_interactively_from_ui(
    controller: &mut ToggleController,
    config: &ShortcutConfig,
    keyboards: &Result<usize, String>,
) -> (answer: Result<String, String>)
    ensures
        match answer {
            Ok(line) => {
                &&& keyval_code(config.keyval) is Some
                &&& *keyboards matches Ok(n)
                &&& n > 0
                &&& line@ == keyboards_ready_text(
                    n as u64,
                    modifier_prefix(config.modifiers) + key_label(config.keyval),
                )
                &&& final(controller)@ == (ControllerModel {
                    rebind_requested: true,
                    ..old(controller)@
                })
            },
            Err(message) => {
                &&& final(controller)@ == old(controller)@
                &&& if keyval_code(config.keyval) is None {
                    message@ == unresolved_keybinding_text(config.keyval, config.modifiers)
                } else {
                    match *keyboards {
                        Ok(n) => n == 0 && message@
                            == "No keyboard devices found in /dev/input/. Is the input group set up?"@,
                        Err(e) => message@ == keyboards_unreadable_text(e@),
                    }
                }
            },
        },
        old(controller).wf() ==> final(controller).wf(),
{
    if config.resolve().is_none() {
        return Err(unresolved_keybinding(config.keyval, config.modifiers));
    }
    let description = config.human_description();
    match keyboards {
        Ok(n) => {
            if *n > 0 {
                controller.request_shortcut_listener_rebind();
                Ok(keyboards_ready(*n as u64, description.as_str()))
            } else {
                Err(
                    String::from_str(
                        "No keyboard devices found in /dev/input/. Is the input group set up?",
                    ),
                )
            }
        },
        Err(e) => Err(keyboards_unreadable(e.as_str())),
    }
}

/// A press of the shortcut that follows an accepted one by less than the
/// debounce time is dropped: it neither starts nor stops anything, and the
/// toggle stays as it is.
pub proof fn second_press_is_dropped(
    model: ControllerModel,
    code: u16,
    keybinding: EvdevKeybinding,
    first_ms: u64,
    second_ms: u64,
)
    requires
        key_press_kind(model, code, keybinding, first_ms) == KeyPress::Shortcut,
        second_ms - first_ms < TOGGLE_PRESS_DEBOUNCE_MS,
    ensures
        key_press_kind(
            after_key_press(model, code, keybinding, first_ms),
            code,
            keybinding,
            second_ms,
        ) == KeyPress::Debounced,
        after_key_press(
            after_key_press(model, code, keybinding, first_ms),
            code,
            keybinding,
            second_ms,
        ).state == model.state,
{
}

/// While a start is in flight, a press of the shortcut is ignored: no second
/// start is issued.
pub proof fn press_while_pending_is_ignored(model: ControllerModel, now_ms: u64)
    requires
        model.state is Pending,
    ensures
        press_action(model.state) == PressAction::Ignored,
        after_press(model, now_ms).state == model.state,
{
}

/// A successful start that arrives for another toggle session than the one
/// that the toggle waits for leads to the cancel of the daemon session that
/// was started, and leaves the toggle as it is.
pub proof fn stale_start_is_cancelled(
    model: ControllerModel,
    toggle_session_id: u64,
    daemon_session_id: u64,
    claim_token: String,
    restricted: bool,
    now_ms: u64,
)
    requires
        !awaits_start(model.state, toggle_session_id),
    ensures
        start_result_effect(
            model,
            toggle_session_id,
            Ok((daemon_session_id, claim_token)),
            restricted,
            now_ms,
        ) == Some(
            ToggleEffectModel::CancelRecording {
                session_id: daemon_session_id,
                reason: CancelReason::StaleStart,
            },
        ),
        after_start_result(
            model,
            toggle_session_id,
            Ok((daemon_session_id, claim_token)),
            restricted,
            now_ms,
        ).state == model.state,
{
}

/// A stop result that arrives for another toggle session than the one whose
/// stop the toggle waits for leaves the toggle as it is.
pub proof fn stale_stop_is_discarded(
    model: ControllerModel,
    toggle_session_id: u64,
    result: StopRecordingOutcome,
    now_ms: u64,
)
    requires
        awaited_stop(model.state, toggle_session_id) is None,
    ensures
        after_stop_result(model, toggle_session_id, result, now_ms).state == model.state,
        after_stop_result(model, toggle_session_id, result, now_ms).health == model.health,
{
}

} // verus!
