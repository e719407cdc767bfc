use dikt::focus_wait::{FocusPoll, FocusWait};
use dikt::health::{toggle_diagnostics_tuple, toggle_recent_events, ToggleEventLog, ToggleRuntimeHealth};
use dikt::keys::{EvdevKeybinding, ShortcutConfig, EV_KEY_LEFTCTRL, EV_KEY_LEFTSHIFT, MOD_CTRL};
use dikt::stopping::{
    cancel_call_result, stop_call_follow_up, stop_outcome_after_cancel,
    stop_outcome_after_state_query, StopFollowUp,
};
use dikt::toggle::{
    authorize_shortcut_interactively_from_ui, extract_start_failure_code,
    request_shortcut_listener_rebind, CancelReason, InternalEvent, KeyPress, PressAction,
    StartStep, StopRecordingCallError, StopRecordingOutcome, ToggleController, ToggleEffect,
    ToggleState,
};

const KEY_SPACE: u16 = 57;

fn binding() -> EvdevKeybinding {
    EvdevKeybinding { key_code: KEY_SPACE, modifiers: MOD_CTRL }
}

fn pending_controller() -> (ToggleController, u64) {
    let mut controller = ToggleController::new();
    assert_eq!(controller.on_global_pressed(1_000), PressAction::BeginStart);
    let step = controller.begin_toggle_start(&Ok("dikt".to_string()), 1_000);
    let id = match step {
        StartStep::AwaitFocus { toggle_session_id } => toggle_session_id,
        _ => panic!("the dictation source is active"),
    };
    match controller.focus_wait_finished(id, &Ok((11, 900)), false, 1_010) {
        Some(ToggleEffect::StartRecording { toggle_session_id, target_engine_id }) => {
            assert_eq!(toggle_session_id, id);
            assert_eq!(target_engine_id, 11);
        }
        _ => panic!("the start call is due"),
    }
    (controller, id)
}

fn recording_controller() -> (ToggleController, u64) {
    let (mut controller, id) = pending_controller();
    let effect =
        controller.on_start_recording_result(id, Ok((41, "claim".to_string())), false, 1_200);
    assert!(effect.is_none());
    (controller, id)
}

fn stopping_controller() -> (ToggleController, u64) {
    let (mut controller, id) = recording_controller();
    assert_eq!(
        controller.on_global_pressed(5_000),
        PressAction::Stop { toggle_session_id: id, daemon_session_id: 41 }
    );
    (controller, id)
}

fn is_idle(controller: &ToggleController) -> bool {
    matches!(controller.state, ToggleState::Idle)
}

fn last_event(controller: &ToggleController) -> String {
    toggle_recent_events(&controller.events).pop().unwrap()
}

#[test]
fn two_presses_within_the_debounce_window_start_once() {
    let mut controller = ToggleController::new();
    let kb = binding();
    assert_eq!(controller.key_pressed(EV_KEY_LEFTCTRL, &kb, 10_000), KeyPress::Modifier);
    assert_eq!(controller.key_pressed(KEY_SPACE, &kb, 10_000), KeyPress::Shortcut);
    assert_eq!(controller.on_global_pressed(10_000), PressAction::BeginStart);
    assert_eq!(controller.key_pressed(KEY_SPACE, &kb, 10_089), KeyPress::Debounced);
    assert_eq!(last_event(&controller), "10089 toggle:shortcut press ignored by debounce (90 ms)");
    assert_eq!(controller.last_shortcut_press_ms, 10_000);
    assert_eq!(controller.key_pressed(KEY_SPACE, &kb, 10_090), KeyPress::Shortcut);
    assert_eq!(controller.last_shortcut_press_ms, 10_090);
}

#[test]
fn shortcut_needs_exactly_its_modifiers() {
    let mut controller = ToggleController::new();
    let kb = binding();
    assert_eq!(controller.key_pressed(KEY_SPACE, &kb, 1_000), KeyPress::Unrelated);
    assert_eq!(controller.key_pressed(EV_KEY_LEFTCTRL, &kb, 1_000), KeyPress::Modifier);
    assert_eq!(controller.key_pressed(30, &kb, 1_000), KeyPress::Unrelated);
    assert_eq!(controller.key_pressed(EV_KEY_LEFTSHIFT, &kb, 1_000), KeyPress::Modifier);
    assert_eq!(controller.key_pressed(KEY_SPACE, &kb, 1_000), KeyPress::Unrelated);
    controller.key_released(EV_KEY_LEFTSHIFT);
    controller.key_released(30);
    assert_eq!(controller.key_pressed(KEY_SPACE, &kb, 1_000), KeyPress::Shortcut);
    controller.key_released(EV_KEY_LEFTCTRL);
    assert_eq!(controller.key_pressed(KEY_SPACE, &kb, 2_000), KeyPress::Unrelated);
    assert!(controller.held_modifiers.is_empty());
}

#[test]
fn press_while_start_or_stop_is_in_flight_is_ignored() {
    let (mut controller, id) = pending_controller();
    assert_eq!(controller.on_global_pressed(1_100), PressAction::Ignored);
    assert!(matches!(controller.state, ToggleState::Pending { toggle_session_id } if toggle_session_id == id));
    assert_eq!(
        last_event(&controller),
        format!("1100 toggle:{} toggle ignored while start transition is pending", id)
    );
    let (mut controller, id) = stopping_controller();
    assert_eq!(controller.on_global_pressed(5_500), PressAction::Ignored);
    assert!(matches!(controller.state, ToggleState::Stopping { .. }));
    assert_eq!(
        last_event(&controller),
        format!("5500 toggle:{} toggle ignored while stop transition is pending", id)
    );
}

#[test]
fn start_success_makes_the_toggle_record() {
    let (controller, id) = recording_controller();
    match &controller.state {
        ToggleState::Recording { toggle_session_id, daemon_session_id, claim_token } => {
            assert_eq!(*toggle_session_id, id);
            assert_eq!(*daemon_session_id, 41);
            assert_eq!(claim_token, "claim");
        }
        _ => panic!("the toggle records"),
    }
    assert_eq!(controller.health.current_state, "recording");
    assert_eq!(last_event(&controller), format!("1200 toggle:{} started daemon session 41", id));
}

#[test]
fn start_failure_returns_to_idle_and_notifies_once() {
    let (mut controller, id) = pending_controller();
    let err = "org.freedesktop.DBus.Error.Failed: Failed to start recording ( busy ): Recording already active";
    let effect = controller.on_start_recording_result(id, Err(err.to_string()), false, 20_000);
    match effect {
        Some(ToggleEffect::Notify { summary, body }) => {
            assert_eq!(summary, "Cannot start recording");
            assert_eq!(body, "Toggle dictation start failed (busy)");
        }
        _ => panic!("a notification is due"),
    }
    assert!(is_idle(&controller));
    assert_eq!(controller.health.current_state, "idle");
    assert_eq!(controller.health.last_start_failure_code, "busy");
    assert_eq!(controller.health.last_start_failure_message, err);
    assert_eq!(controller.health.last_start_failure_ms, 20_000);
    assert_eq!(controller.health.code, "start_recording_failed");
    assert!(!controller.health.healthy);
    assert_eq!(controller.health.last_notification_ms, 20_000);
    assert_eq!(last_event(&controller), format!("20000 toggle:{} start failed: {}", id, err));

    // Within the cooldown no second notification is shown.
    assert_eq!(controller.on_global_pressed(21_000), PressAction::BeginStart);
    let step = controller.begin_toggle_start(&Ok("dikt".to_string()), 21_000);
    let next = match step {
        StartStep::AwaitFocus { toggle_session_id } => toggle_session_id,
        _ => panic!("the dictation source is active"),
    };
    assert_eq!(next, id + 1);
    let effect = controller.focus_wait_finished(next, &Err("no focus".to_string()), false, 27_999);
    assert!(effect.is_none());
    assert_eq!(controller.health.last_notification_ms, 20_000);
    let effect = controller.focus_wait_finished(next, &Err("no focus".to_string()), false, 28_000);
    assert!(matches!(effect, Some(ToggleEffect::Notify { .. })));
    assert_eq!(controller.health.last_notification_ms, 28_000);
    // A restricted session never notifies.
    let effect = controller.focus_wait_finished(next, &Err("no focus".to_string()), true, 99_000);
    assert!(effect.is_none());
}

#[test]
fn stale_start_success_is_cancelled_and_changes_nothing() {
    // While idle.
    let mut controller = ToggleController::new();
    let effect = controller.on_start_recording_result(3, Ok((77, "t".to_string())), false, 100);
    match effect {
        Some(ToggleEffect::CancelRecording { session_id, reason }) => {
            assert_eq!(session_id, 77);
            assert_eq!(reason, CancelReason::StaleStart);
        }
        _ => panic!("the orphaned session is to be cancelled"),
    }
    assert!(is_idle(&controller));
    assert_eq!(last_event(&controller), "100 toggle:3 stale start success cancelled");

    // While another toggle session is pending.
    let (mut controller, id) = pending_controller();
    let effect =
        controller.on_start_recording_result(id + 5, Ok((78, "t".to_string())), false, 1_100);
    assert!(matches!(
        effect,
        Some(ToggleEffect::CancelRecording { session_id: 78, reason: CancelReason::StaleStart })
    ));
    assert!(matches!(controller.state, ToggleState::Pending { toggle_session_id } if toggle_session_id == id));

    // While recording: the running session is kept.
    let (mut controller, id) = recording_controller();
    let effect = controller.handle_internal_event(
        InternalEvent::StartRecording { toggle_session_id: id, result: Ok((79, "t".to_string())) },
        false,
        1_300,
    );
    assert!(matches!(
        effect,
        Some(ToggleEffect::CancelRecording { session_id: 79, reason: CancelReason::StaleStart })
    ));
    assert!(matches!(
        controller.state,
        ToggleState::Recording { daemon_session_id: 41, .. }
    ));

    // A stale failure is only noted.
    let effect = controller.on_start_recording_result(id, Err("late".to_string()), false, 1_400);
    assert!(effect.is_none());
    assert_eq!(last_event(&controller), format!("1400 toggle:{} stale start failure ignored", id));
    assert!(controller.health.last_start_failure_message.is_empty());
}

#[test]
fn acknowledged_stop_expects_the_commit() {
    let (mut controller, id) = stopping_controller();
    assert_eq!(controller.health.current_state, "stopping");
    controller.on_stop_recording_result(id, StopRecordingOutcome::Acknowledged, 6_000);
    assert!(is_idle(&controller));
    assert_eq!(controller.health.pending_commit_session_id, 41);
    assert_eq!(controller.health.pending_commit_mark_ms, 6_000);
    assert_eq!(controller.health.pending_commit_age_ms(6_250), 250);
    let events = toggle_recent_events(&controller.events);
    assert_eq!(
        events[events.len() - 2],
        format!("6000 toggle:{} stop acknowledged for daemon session 41", id)
    );
    assert_eq!(
        events[events.len() - 1],
        format!(
            "6000 toggle:{} stop-complete for session 41; commit is delivered by engine-side pending commit listener",
            id
        )
    );
}

#[test]
fn stop_timeout_with_active_recording_cancels_and_returns_to_idle() {
    let (mut controller, id) = stopping_controller();
    let reply: Result<bool, StopRecordingCallError> = Err(StopRecordingCallError::TimedOut);
    assert_eq!(stop_call_follow_up(&reply), StopFollowUp::QueryState);
    let error = StopRecordingCallError::TimedOut;
    assert!(stop_outcome_after_state_query(&error, &Ok((true, true))).is_none());
    assert!(stop_outcome_after_state_query(&error, &Err("bus down".to_string())).is_none());
    let outcome = stop_outcome_after_cancel(&reply, 41, &Ok(()));
    match &outcome {
        StopRecordingOutcome::Failed(message) => assert_eq!(
            message,
            "StopRecordingSession call timed out after 20000 ms; fallback CancelRecordingSession(41) succeeded"
        ),
        _ => panic!("the stop failed"),
    }
    let effect = controller.handle_internal_event(
        InternalEvent::StopRecording { toggle_session_id: id, result: outcome },
        false,
        26_000,
    );
    assert!(effect.is_none());
    assert!(is_idle(&controller));
    assert_eq!(controller.health.code, "stop_recording_failed");
    assert_eq!(controller.health.last_stop_failure_ms, 26_000);
    assert_eq!(controller.health.pending_commit_session_id, 0);
    assert_eq!(controller.health.stop_timeout_fallback_count, 0);
    assert_eq!(
        last_event(&controller),
        format!("26000 toggle:{} stop result handled (failure path)", id)
    );
}

#[test]
fn stop_timeout_with_stopped_daemon_is_a_soft_success() {
    let (mut controller, id) = stopping_controller();
    let error = StopRecordingCallError::TimedOut;
    let outcome = stop_outcome_after_state_query(&error, &Ok((false, true))).unwrap();
    match &outcome {
        StopRecordingOutcome::Finalizing { reason, timed_out } => {
            assert!(*timed_out);
            assert_eq!(
                reason,
                "Stop call timed out after 20000 ms, daemon reports recording stopped; waiting for final commit"
            );
        }
        _ => panic!("the daemon finishes on its own"),
    }
    controller.on_stop_recording_result(id, outcome, 26_000);
    assert!(is_idle(&controller));
    assert_eq!(controller.health.stop_timeout_fallback_count, 1);
    assert_eq!(controller.health.pending_commit_session_id, 41);

    let outcome = stop_outcome_after_state_query(
        &StopRecordingCallError::Disconnected,
        &Ok((false, false)),
    )
    .unwrap();
    assert!(matches!(
        &outcome,
        StopRecordingOutcome::Finalizing { reason, timed_out: false }
            if reason == "Stop call worker disconnected, daemon reports recording stopped; waiting for final commit"
    ));
    let outcome = stop_outcome_after_state_query(
        &StopRecordingCallError::Failed("boom".to_string()),
        &Ok((false, false)),
    )
    .unwrap();
    assert!(matches!(
        &outcome,
        StopRecordingOutcome::Finalizing { reason, timed_out: false }
            if reason == "Stop call returned error ('boom'), daemon reports recording stopped; waiting for final commit"
    ));
}

#[test]
fn stop_follow_ups_and_their_messages() {
    assert_eq!(stop_call_follow_up(&Ok(true)), StopFollowUp::Done);
    assert_eq!(stop_call_follow_up(&Ok(false)), StopFollowUp::Cancel);
    assert_eq!(
        stop_call_follow_up(&Err(StopRecordingCallError::Disconnected)),
        StopFollowUp::QueryState
    );
    assert_eq!(
        stop_call_follow_up(&Err(StopRecordingCallError::Failed("x".to_string()))),
        StopFollowUp::QueryState
    );
    let message = |reply: Result<bool, StopRecordingCallError>, cancel: Result<(), String>| {
        match stop_outcome_after_cancel(&reply, 9, &cancel) {
            StopRecordingOutcome::Failed(message) => message,
            _ => panic!("a cancelled stop has failed"),
        }
    };
    assert_eq!(
        message(Ok(false), Ok(())),
        "StopRecordingSession returned false; fallback CancelRecordingSession succeeded"
    );
    assert_eq!(
        message(Ok(false), Err("nope".to_string())),
        "StopRecordingSession returned false; fallback CancelRecordingSession failed: nope"
    );
    assert_eq!(
        message(Err(StopRecordingCallError::Disconnected), Err("nope".to_string())),
        "StopRecordingSession call worker disconnected before returning; fallback CancelRecordingSession(9) failed: nope"
    );
    assert_eq!(
        message(Err(StopRecordingCallError::Failed("bad".to_string())), Ok(())),
        "bad; fallback CancelRecordingSession(9) succeeded"
    );
    assert_eq!(cancel_call_result(9, true), Ok(()));
    assert_eq!(
        cancel_call_result(9, false),
        Err("CancelRecordingSession returned false for session 9".to_string())
    );
}

#[test]
fn stale_stop_result_is_discarded() {
    let (mut controller, id) = recording_controller();
    controller.on_stop_recording_result(id, StopRecordingOutcome::Acknowledged, 2_000);
    assert!(matches!(controller.state, ToggleState::Recording { .. }));
    assert_eq!(controller.health.pending_commit_session_id, 0);
    assert_eq!(last_event(&controller), format!("2000 toggle:{} stale stop result ignored", id));
    let (mut controller, id) = stopping_controller();
    controller.on_stop_recording_result(id + 1, StopRecordingOutcome::Failed("x".to_string()), 6_000);
    assert!(matches!(controller.state, ToggleState::Stopping { .. }));
    assert!(controller.health.last_stop_failure_message.is_empty());
}

#[test]
fn cleanup_cancels_what_is_in_flight() {
    let mut controller = ToggleController::new();
    assert!(controller.cleanup_state().is_none());
    let (mut controller, _) = pending_controller();
    assert!(controller.cleanup_state().is_none());
    assert!(is_idle(&controller));
    let (mut controller, _) = recording_controller();
    assert!(matches!(
        controller.cleanup_state(),
        Some(ToggleEffect::CancelRecording { session_id: 41, reason: CancelReason::Cleanup })
    ));
    assert!(is_idle(&controller));
    assert_eq!(controller.health.current_state, "idle");
    let (mut controller, _) = stopping_controller();
    assert!(matches!(
        controller.cleanup_state(),
        Some(ToggleEffect::CancelRecording {
            session_id: 41,
            reason: CancelReason::CleanupAfterStop
        })
    ));
    assert!(is_idle(&controller));
}

#[test]
fn start_with_another_source_active_switches_first() {
    let mut controller = ToggleController::new();
    let step = controller.begin_toggle_start(&Ok("xkb:us::eng".to_string()), 1_000);
    assert_eq!(step, StartStep::SwitchEngine { toggle_session_id: 1 });
    assert_eq!(controller.health.last_switch_attempt_ms, 1_000);
    assert_eq!(controller.health.press_while_dikt_count, 0);
    assert_eq!(last_event(&controller), "1000 toggle:1 switch requested from xkb:us::eng");
    let verdict = controller.engine_switch_finished(1, &Ok("dikt".to_string()), 42, false, 1_042);
    assert!(verdict.is_ok());
    assert_eq!(controller.health.last_switch_confirm_latency_ms, 42);
    assert_eq!(last_event(&controller), "1042 toggle:1 switch confirmed to dikt (42 ms)");

    let step = controller.begin_toggle_start(&Err("no bus".to_string()), 50_000);
    assert_eq!(step, StartStep::SwitchEngine { toggle_session_id: 2 });
    let events = toggle_recent_events(&controller.events);
    assert_eq!(
        events[events.len() - 3],
        "50000 toggle:read-current-engine failed (non-fatal): no bus"
    );
    assert_eq!(events[events.len() - 2], "50000 toggle:2 pressed");
    assert_eq!(events[events.len() - 1], "50000 toggle:2 switch requested from <unknown>");
    let verdict =
        controller.engine_switch_finished(2, &Err("not confirmed".to_string()), 350, false, 50_350);
    match verdict {
        Err(Some(ToggleEffect::Notify { summary, body })) => {
            assert_eq!(summary, "Cannot start recording");
            assert_eq!(body, "Failed to switch input source to Dikt (not confirmed active).");
        }
        _ => panic!("the switch failed"),
    }
    assert!(is_idle(&controller));
    assert_eq!(controller.health.code, "ibus_switch_to_dikt_failed");
    assert_eq!(controller.health.last_switch_failure_message, "not confirmed");
    assert_eq!(
        last_event(&controller),
        "50350 toggle:2 failed to switch to dikt engine: not confirmed"
    );
}

#[test]
fn start_with_dictation_source_active_counts_the_press() {
    let mut controller = ToggleController::new();
    let step = controller.begin_toggle_start(&Ok("other:dikt".to_string()), 1_000);
    assert_eq!(step, StartStep::AwaitFocus { toggle_session_id: 1 });
    assert_eq!(controller.health.press_while_dikt_count, 1);
    assert_eq!(controller.health.last_switch_confirm_latency_ms, 0);
    let events = toggle_recent_events(&controller.events);
    assert_eq!(
        events,
        vec![
            "1000 toggle:1 pressed",
            "1000 toggle:1 already on dikt source",
            "1000 toggle:1 pressed while dikt already active"
        ]
    );
    assert_eq!(controller.next_toggle_session_id(), 2);
    assert_eq!(controller.next_toggle_session_id(), 3);
}

#[test]
fn focus_failure_blocks_the_start() {
    let mut controller = ToggleController::new();
    let effect = controller.focus_wait_finished(1, &Err("nothing focused".to_string()), false, 9_000);
    match effect {
        Some(ToggleEffect::Notify { summary, body }) => {
            assert_eq!(summary, "Cannot start recording");
            assert_eq!(body, "Dikt input source is not focused in the target text field.");
        }
        _ => panic!("a notification is due"),
    }
    assert!(is_idle(&controller));
    assert_eq!(controller.health.last_start_failure_code, "focused_engine_unavailable");
    assert_eq!(controller.health.code, "focused_engine_unavailable");
    assert_eq!(
        last_event(&controller),
        "9000 toggle:1 blocked start because focused engine is unavailable: nothing focused"
    );
}

#[test]
fn focus_wait_polls_until_focused_or_late() {
    let mut health = ToggleRuntimeHealth::default();
    let mut wait = FocusWait::new();
    assert!(matches!(
        wait.on_reply(&mut health, &Err("bus down".to_string()), 0, 700),
        FocusPoll::Retry
    ));
    assert!(matches!(wait.on_reply(&mut health, &Ok((0, 55)), 20, 700), FocusPoll::Retry));
    assert_eq!((health.focused_engine_id, health.engine_last_change_ms), (0, 55));
    assert!(matches!(
        wait.on_reply(&mut health, &Ok((12, 60)), 9_999, 700),
        FocusPoll::Focused { engine_id: 12, last_change_ms: 60 }
    ));
    assert_eq!((health.focused_engine_id, health.engine_last_change_ms), (12, 60));

    let mut wait = FocusWait::new();
    let _ = wait.on_reply(&mut health, &Ok((0, 70)), 100, 700);
    match wait.on_reply(&mut health, &Err("bus down".to_string()), 700, 700) {
        FocusPoll::TimedOut(message) => assert_eq!(
            message,
            "Dikt engine did not report a focused context within 700 ms (last_focused_engine_id=0 last_change_ms=70 last_error='bus down')"
        ),
        _ => panic!("the time is up"),
    }
    assert_eq!((health.focused_engine_id, health.engine_last_change_ms), (0, 70));
    match wait.on_reply(&mut health, &Ok((0, 80)), 701, 700) {
        FocusPoll::TimedOut(message) => assert_eq!(
            message,
            "Dikt engine did not report a focused context within 700 ms (last_focused_engine_id=0 last_change_ms=80 last_error='Focused Dikt engine is unavailable (last_change_ms=80)')"
        ),
        _ => panic!("the time is up"),
    }
}

#[test]
fn start_failure_code_is_read_from_the_message() {
    assert_eq!(
        extract_start_failure_code("Failed to start recording (busy): Recording already active"),
        "busy"
    );
    assert_eq!(
        extract_start_failure_code("x: Failed to start recording ( mic_open_failed ): y): z"),
        "mic_open_failed"
    );
    assert_eq!(extract_start_failure_code("Failed to start recording (): x"), "");
    assert_eq!(
        extract_start_failure_code("Failed to start recording (busy"),
        "start_recording_failed"
    );
    assert_eq!(extract_start_failure_code("No model selected"), "start_recording_failed");
    assert_eq!(extract_start_failure_code(""), "start_recording_failed");
}

#[test]
fn health_record_follows_the_marks() {
    let mut health = ToggleRuntimeHealth::default();
    assert_eq!(
        toggle_diagnostics_tuple(&health),
        (
            false,
            "global_shortcuts".to_string(),
            "not_initialized".to_string(),
            "Global dictation shortcut listener not initialized yet".to_string(),
            0,
            false,
            false,
            0,
            0,
            0
        )
    );
    health.mark_health_success("Listening on 2 keyboard(s) for Ctrl+KEY_SPACE", 500);
    assert_eq!(
        toggle_diagnostics_tuple(&health),
        (
            true,
            "global_shortcuts".to_string(),
            "ok".to_string(),
            "Listening on 2 keyboard(s) for Ctrl+KEY_SPACE".to_string(),
            500,
            true,
            true,
            0,
            0,
            0
        )
    );
    health.mark_health_error("start_recording_failed", "nope");
    assert!(health.listener_session_ok);
    assert!(health.shortcut_bound);
    health.mark_health_error("evdev_session_error", "gone");
    assert!(!health.listener_session_ok);
    assert!(health.shortcut_bound);
    assert_eq!(health.bind_fail_count, 0);
    health.mark_health_error("evdev_permission_denied", "denied");
    assert!(!health.shortcut_bound);
    assert_eq!(health.bind_fail_count, 1);
    health.mark_health_error("evdev_rebind_failed", "bind");
    assert_eq!(health.bind_fail_count, 2);
    health.mark_health_error("not_evdev_bind", "x");
    assert_eq!(health.bind_fail_count, 2);
    health.bump_press_while_dikt();
    health.bump_stop_timeout_fallback();
    health.bump_stop_timeout_fallback();
    let figures = toggle_diagnostics_tuple(&health);
    assert_eq!((figures.7, figures.8, figures.9), (2, 1, 2));
    health.mark_dbus_error("GetState", "GetState call failed: timeout", 900);
    assert_eq!(health.last_dbus_error, "GetState: GetState call failed: timeout");
    assert_eq!(health.last_dbus_error_ms, 900);
    health.mark_stop_failure("stop failed", 950);
    health.clear_stop_failure();
    assert_eq!((health.last_stop_failure_message.as_str(), health.last_stop_failure_ms), ("", 0));
    health.mark_start_failure("busy", "msg", 960);
    health.clear_start_failure();
    assert_eq!(health.last_start_failure_code, "");
    health.mark_pending_commit(4, 1_000);
    assert_eq!(health.pending_commit_age_ms(1_500), 500);
    assert_eq!(health.pending_commit_age_ms(900), 0);
    health.clear_pending_commit();
    assert_eq!(health.pending_commit_age_ms(1_500), 0);
    health.mark_switch_failure("failed");
    health.mark_switch_confirm(12);
    assert_eq!(health.last_switch_failure_message, "");
    health.mark_shortcut_description("Ctrl+KEY_A");
    assert_eq!(health.shortcut_description, "Ctrl+KEY_A");
    health.mark_toggle_state("pending");
    assert_eq!(health.current_state, "pending");
}

#[test]
fn notifications_keep_their_cooldown() {
    let mut health = ToggleRuntimeHealth::default();
    assert!(!health.allow_notification(false, 7_999));
    assert!(health.allow_notification(false, 8_000));
    assert!(!health.allow_notification(false, 15_999));
    assert!(!health.allow_notification(true, 16_000));
    assert!(health.allow_notification(false, 16_000));
    assert!(!health.allow_notification(false, 100));
    assert_eq!(health.last_notification_ms, 16_000);
}

#[test]
fn event_history_keeps_the_newest_sixty_lines() {
    let mut log = ToggleEventLog::new();
    for i in 0..75u64 {
        log.push_toggle_event(&format!("event {}", i), 1_000 + i);
    }
    assert_eq!(log.len(), 60);
    let lines = toggle_recent_events(&log);
    assert_eq!(lines.len(), 60);
    assert_eq!(lines[0], "1015 event 15");
    assert_eq!(lines[59], "1074 event 74");
}

#[test]
fn listener_lifecycle_is_recorded() {
    let mut controller = ToggleController::new();
    controller.listener_starting(10);
    assert_eq!(controller.health.code, "initializing");
    assert_eq!(controller.health.current_state, "initializing");
    assert_eq!(last_event(&controller), "10 listener: initializing");
    controller.session_started(2, "Ctrl+KEY_SPACE", 20);
    assert!(controller.health.healthy);
    assert_eq!(controller.health.message, "Listening on 2 keyboard(s) for Ctrl+KEY_SPACE");
    assert_eq!(controller.health.shortcut_description, "Ctrl+KEY_SPACE");
    assert_eq!(controller.health.current_state, "idle");
    let effect = controller.session_failed("Failed to open: Permission denied (os error 13)", false, 9_000);
    match effect {
        Some(ToggleEffect::Notify { summary, body }) => {
            assert_eq!(summary, "Global dictation shortcut is unavailable");
            assert_eq!(
                body,
                "Keyboard input error: Failed to open: Permission denied (os error 13)"
            );
        }
        _ => panic!("a notification is due"),
    }
    assert_eq!(controller.health.code, "evdev_permission_denied");
    assert_eq!(controller.health.bind_fail_count, 1);
    let _ = controller.session_failed("All keyboard device readers disconnected", false, 9_100);
    assert_eq!(controller.health.code, "evdev_session_error");
    assert_eq!(controller.health.bind_fail_count, 1);
    let effect = controller.shortcut_unsupported(0x9999, false, 30_000);
    assert!(matches!(effect, Some(ToggleEffect::Notify { .. })));
    assert_eq!(controller.health.code, "invalid_shortcut");
    assert_eq!(controller.health.message, "Unsupported dictation shortcut: keyval 0x9999");
}

#[test]
fn retry_sleep_is_cut_short_by_a_rebind_request() {
    let mut controller = ToggleController::new();
    assert_eq!(controller.retry_sleep_step(2_000), 200);
    assert_eq!(controller.retry_sleep_step(150), 150);
    assert_eq!(controller.retry_sleep_step(0), 0);
    request_shortcut_listener_rebind(&mut controller);
    assert!(controller.rebind_requested);
    assert_eq!(controller.retry_sleep_step(2_000), 0);
    assert!(!controller.rebind_requested);
    assert_eq!(controller.retry_sleep_step(2_000), 200);
    controller.request_shortcut_listener_rebind();
    assert!(controller.take_rebind_request());
    assert!(!controller.take_rebind_request());
}

#[test]
fn authorization_checks_shortcut_and_keyboards() {
    let mut controller = ToggleController::new();
    let config = ShortcutConfig { keyval: 0x20, modifiers: MOD_CTRL };
    assert_eq!(
        authorize_shortcut_interactively_from_ui(&mut controller, &config, &Ok(2)),
        Ok("evdev: 2 keyboard(s) accessible, shortcut Ctrl+KEY_SPACE ready".to_string())
    );
    assert!(controller.take_rebind_request());
    assert_eq!(
        authorize_shortcut_interactively_from_ui(&mut controller, &config, &Ok(0)),
        Err("No keyboard devices found in /dev/input/. Is the input group set up?".to_string())
    );
    assert_eq!(
        authorize_shortcut_interactively_from_ui(
            &mut controller,
            &config,
            &Err("Cannot read /dev/input".to_string())
        ),
        Err("Cannot access keyboard devices: Cannot read /dev/input".to_string())
    );
    let unknown = ShortcutConfig { keyval: 0x9999, modifiers: 5 };
    assert_eq!(
        authorize_shortcut_interactively_from_ui(&mut controller, &unknown, &Ok(2)),
        Err("Cannot resolve keybinding for keyval 0x9999 + modifiers 0x5".to_string())
    );
    assert!(!controller.rebind_requested);
}
