use dikt::claims::ClaimTokenAuthority;
use dikt::facade::{
    binding_id_for_session, CancelReply, FinalizeSignal, StartOutcome, StartReply, StopRequest,
    Transcription,
};
use dikt::recording::RecordingStartError;
use dikt::session::{DiktState, SessionError, SessionStatus, SESSION_TTL_MS};

fn daemon() -> DiktState {
    DiktState::new("en".to_string(), 1_000)
}

fn recording_session(state: &mut DiktState, target: u64, now: u64) -> (u64, String) {
    let (id, token) = state.start_recording_session_for_target(target, now).unwrap();
    match state.start_recording_internal(id, StartOutcome::Started, false, now) {
        StartReply::Recording { spawn_preview_worker } => assert!(!spawn_preview_worker),
        _ => panic!("the session records"),
    }
    (id, token)
}

fn ready_session(state: &mut DiktState, target: u64, now: u64, text: &str) -> (u64, String) {
    let (id, token) = recording_session(state, target, now);
    assert!(matches!(state.stop_recording_session(id, now), StopRequest::Stop { .. }));
    assert!(state.stop_recording_internal(id, true, now));
    match state.finalize_stop_recording(id, Transcription::Text(text.to_string()), now) {
        FinalizeSignal::TranscriptionReady(said) => assert_eq!(said, text),
        _ => panic!("the transcript is ready"),
    }
    (id, token)
}

fn status_of(state: &DiktState, id: u64) -> Option<SessionStatus> {
    state.session_status(id).map(|s| s.0)
}

#[test]
fn session_ids_start_at_one_and_grow() {
    let mut authority = ClaimTokenAuthority::new();
    assert!(authority.has_capacity());
    assert_eq!(authority.next_session_id(), 1);
    assert_eq!(authority.next_session_id(), 2);
    assert_eq!(authority.next_session_id(), 3);
}

#[test]
fn claim_token_is_three_padded_hex_numbers() {
    let mut authority = ClaimTokenAuthority::new();
    assert_eq!(
        authority.next_claim_token(0x2a, 0x18f_5c3e_9a00),
        "0000018f5c3e9a00000000000000002a0000000000000001"
    );
    assert_eq!(
        authority.next_claim_token(u64::MAX, 0),
        "0000000000000000ffffffffffffffff0000000000000002"
    );
    assert_eq!(
        authority.next_claim_token(7, 255),
        format!("{:016x}{:016x}{:016x}", 255u64, 7u64, 3u64)
    );
}

#[test]
fn claim_tokens_of_one_moment_differ() {
    let mut state = daemon();
    let (a, token_a) = state.create_session(5, 77).unwrap();
    let (b, token_b) = state.create_session(5, 77).unwrap();
    assert_eq!((a, b), (1, 2));
    assert_ne!(token_a, token_b);
    assert_eq!(token_a.len(), 48);
}

#[test]
fn create_session_rejects_target_zero() {
    let mut state = daemon();
    assert_eq!(state.create_session(0, 5).err(), Some(SessionError::InvalidTarget));
    assert_eq!(
        state.start_recording_session_for_target(0, 5).err(),
        Some(SessionError::InvalidTarget)
    );
    assert!(state.session_ids().is_empty());
    let (id, _) = state.create_session(9, 5).unwrap();
    assert_eq!(id, 1);
}

#[test]
fn created_session_is_bound_and_claimed() {
    let mut state = daemon();
    let (id, token) = state.create_session(9, 1234).unwrap();
    assert_eq!(state.session_binding(id), Some(9));
    assert_eq!(state.session_claim_token(id), Some(token.clone()));
    assert!(state.validate_session_claim(id, &token));
    assert!(!state.validate_session_claim(id, "other"));
    assert!(!state.validate_session_claim(id + 1, &token));
    assert_eq!(
        state.session_status(id),
        Some((SessionStatus::Created, "Session created".to_string(), 1234))
    );
    assert_eq!(state.session_binding(id + 1), None);
    assert_eq!(state.session_claim_token(id + 1), None);
    assert_eq!(state.session_status(id + 1), None);
    assert!(!state.session_is_stopping(id));
    state.remove_session(id);
    assert_eq!(state.session_binding(id), None);
    assert_eq!(state.session_status(id), None);
}

#[test]
fn status_names() {
    assert_eq!(SessionStatus::Created.as_str(), "created");
    assert_eq!(SessionStatus::Starting.as_str(), "starting");
    assert_eq!(SessionStatus::Recording.as_str(), "recording");
    assert_eq!(SessionStatus::Finalizing.as_str(), "finalizing");
    assert_eq!(SessionStatus::Ready.as_str(), "ready");
    assert_eq!(SessionStatus::Committed.as_str(), "committed");
    assert_eq!(SessionStatus::Failed.as_str(), "failed");
    assert_eq!(SessionStatus::Cancelled.as_str(), "cancelled");
    assert_eq!(SessionStatus::Recording.rank(), 3);
    assert_eq!(SessionStatus::Finalizing.rank(), 2);
    assert_eq!(SessionStatus::Ready.rank(), 1);
    assert_eq!(SessionStatus::Created.rank(), 0);
    assert!(SessionStatus::Ready.terminal());
    assert!(SessionStatus::Failed.terminal());
    assert!(SessionStatus::Cancelled.terminal());
    assert!(SessionStatus::Committed.terminal());
    assert!(!SessionStatus::Created.terminal());
    assert!(!SessionStatus::Starting.terminal());
    assert!(!SessionStatus::Recording.terminal());
    assert!(!SessionStatus::Finalizing.terminal());
}

#[test]
fn binding_id_names_the_session() {
    assert_eq!(binding_id_for_session(0), "session-0");
    assert_eq!(binding_id_for_session(7), "session-7");
    assert_eq!(binding_id_for_session(1205), "session-1205");
    assert_eq!(
        binding_id_for_session(u64::MAX),
        format!("session-{}", u64::MAX)
    );
}

#[test]
fn session_walks_the_whole_lifecycle() {
    let mut state = daemon();
    let (id, token) = state.start_recording_session_for_target(4, 2_000).unwrap();
    assert_eq!(
        state.get_session_status(id, 2_000),
        ("starting".to_string(), "Starting recording".to_string(), 2_000)
    );
    assert!(!state.is_recording());
    match state.start_recording_internal(id, StartOutcome::Started, true, 2_100) {
        StartReply::Recording { spawn_preview_worker } => assert!(spawn_preview_worker),
        _ => panic!("the session records"),
    }
    assert!(state.is_recording());
    assert_eq!(
        state.get_session_status(id, 2_100),
        ("recording".to_string(), "Recording in progress".to_string(), 2_100)
    );
    assert_eq!(state.active_session_for_engine(4, 2_100), (id, token.clone(), true));

    match state.stop_recording_session(id, 3_000) {
        StopRequest::Stop { binding_id, emit_stopped } => {
            assert_eq!(binding_id, format!("session-{}", id));
            assert!(emit_stopped);
        }
        _ => panic!("the recorder is to stop"),
    }
    assert!(!state.is_recording());
    assert!(state.session_is_stopping(id));
    assert_eq!(
        state.get_session_status(id, 3_000),
        ("finalizing".to_string(), "Stopping recorder".to_string(), 3_000)
    );
    assert_eq!(state.active_session_for_engine(4, 3_000), (id, token.clone(), false));
    assert!(state.stop_recording_internal(id, true, 3_001));

    match state.finalize_stop_recording(id, Transcription::Text(" hello there ".to_string()), 3_500)
    {
        FinalizeSignal::TranscriptionReady(text) => assert_eq!(text, " hello there "),
        _ => panic!("the transcript is ready"),
    }
    assert!(!state.session_is_stopping(id));
    assert_eq!(
        state.get_session_status(id, 3_500),
        ("ready".to_string(), "Transcription ready".to_string(), 3_500)
    );
    assert_eq!(state.active_session_for_engine(4, 3_500), (id, token.clone(), false));
    assert_eq!(state.pending_commit_stats(3_600).queue_len, 1);

    assert_eq!(
        state.take_pending_commit_for_session(id, &token, 4_000),
        (true, " hello there ".to_string())
    );
    assert_eq!(
        state.get_session_status(id, 4_000),
        ("committed".to_string(), "Final commit delivered".to_string(), 4_000)
    );
    assert_eq!(state.active_session_for_engine(4, 4_000), (0, String::new(), false));
    assert_eq!(
        state.take_pending_commit_for_session(id, &token, 4_001),
        (false, String::new())
    );
}

#[test]
fn take_with_the_token_of_another_session_finds_nothing() {
    let mut state = daemon();
    let (a, token_a) = ready_session(&mut state, 4, 2_000, "for a");
    let (b, token_b) = ready_session(&mut state, 5, 2_000, "for b");
    assert_ne!(token_a, token_b);
    assert_eq!(state.take_pending_commit_for_session(a, &token_b, 2_100), (false, String::new()));
    assert_eq!(state.take_pending_commit_for_session(b, &token_a, 2_100), (false, String::new()));
    assert_eq!(state.take_pending_commit_for_session(a, "", 2_100), (false, String::new()));
    assert_eq!(status_of(&state, a), Some(SessionStatus::Ready));
    assert_eq!(state.pending_commit_stats(2_100).queue_len, 2);
    assert_eq!(
        state.take_pending_commit_for_session(a, &token_a, 2_200),
        (true, "for a".to_string())
    );
    assert_eq!(
        state.take_pending_commit_for_session(b, &token_b, 2_200),
        (true, "for b".to_string())
    );
}

#[test]
fn recording_session_is_preferred_over_finalizing_and_ready() {
    let mut state = daemon();
    let (ready, _) = ready_session(&mut state, 4, 9_000, "done");
    let (finalizing, _) = recording_session(&mut state, 4, 8_000);
    assert!(matches!(state.stop_recording_session(finalizing, 8_500), StopRequest::Stop { .. }));
    let (recording, token) = recording_session(&mut state, 4, 7_000);
    assert_eq!(status_of(&state, ready), Some(SessionStatus::Ready));
    assert_eq!(status_of(&state, finalizing), Some(SessionStatus::Finalizing));
    assert_eq!(status_of(&state, recording), Some(SessionStatus::Recording));
    assert_eq!(state.active_session_for_engine(4, 9_500), (recording, token, true));
    assert_eq!(state.active_session_for_engine(5, 9_500), (0, String::new(), false));
    assert_eq!(state.active_session_for_engine(0, 9_500), (0, String::new(), false));
}

#[test]
fn active_session_ties_go_to_the_latest_then_the_highest_id() {
    let mut state = daemon();
    let (first, _) = ready_session(&mut state, 4, 5_000, "one");
    let (second, token_second) = ready_session(&mut state, 4, 5_000, "two");
    assert!(second > first);
    assert_eq!(state.active_session_for_engine(4, 5_000), (second, token_second, false));
    let (older, _) = ready_session(&mut state, 6, 6_000, "three");
    state.set_session_status(older, SessionStatus::Ready, "touched", 7_000);
    let (newer_id, _) = ready_session(&mut state, 6, 6_500, "four");
    assert!(newer_id > older);
    let active = state.active_session_for_engine(6, 7_000);
    assert_eq!(active.0, older);
}

#[test]
fn sweep_removes_old_final_sessions_only() {
    let mut state = daemon();
    let (ready, _) = ready_session(&mut state, 4, 1_000, "text");
    let (live, _) = recording_session(&mut state, 5, 1_000);
    let (cancelled, _) = recording_session(&mut state, 6, 1_000);
    assert!(state.cancel_recording_session(cancelled, 2_000).cancelled);

    state.cleanup_expired_sessions(1_000 + SESSION_TTL_MS);
    assert_eq!(status_of(&state, ready), Some(SessionStatus::Ready));
    state.cleanup_expired_sessions(1_001 + SESSION_TTL_MS);
    assert_eq!(status_of(&state, ready), None);
    assert_eq!(status_of(&state, cancelled), Some(SessionStatus::Cancelled));
    assert_eq!(status_of(&state, live), Some(SessionStatus::Recording));
    state.cleanup_expired_sessions(2_001 + SESSION_TTL_MS);
    assert_eq!(status_of(&state, cancelled), None);
    state.cleanup_expired_sessions(u64::MAX);
    assert_eq!(status_of(&state, live), Some(SessionStatus::Recording));
    assert_eq!(
        state.get_session_status(ready, u64::MAX),
        ("missing".to_string(), "Session not found".to_string(), 0)
    );
    // A clock that runs backwards expires nothing.
    let (again, _) = ready_session(&mut state, 4, 9_000_000, "text");
    state.cleanup_expired_sessions(0);
    assert_eq!(status_of(&state, again), Some(SessionStatus::Ready));
}

#[test]
fn failed_start_marks_the_session_failed() {
    let mut state = daemon();
    let (id, _) = state.start_recording_session_for_target(4, 100).unwrap();
    let busy = RecordingStartError::Busy { active_binding_id: Some("session-9".to_string()) };
    match state.start_recording_internal(id, StartOutcome::Failed(busy), true, 150) {
        StartReply::Rejected { error, signal } => {
            assert_eq!(
                error,
                "Failed to start recording (busy): Recording already active for binding session-9"
            );
            assert_eq!(signal, error);
        }
        _ => panic!("the start failed"),
    }
    assert!(!state.is_recording());
    assert_eq!(status_of(&state, id), Some(SessionStatus::Failed));
    assert_eq!(
        state.session_status(id).unwrap().1,
        "Failed to start recording (busy): Recording already active for binding session-9"
    );

    let (id, _) = state.start_recording_session_for_target(4, 200).unwrap();
    match state.start_recording_internal(id, StartOutcome::NoModelSelected, true, 250) {
        StartReply::Rejected { error, signal } => {
            assert_eq!(error, "No model selected");
            assert_eq!(
                signal,
                "No model selected. Open Dikt preferences to download and select a model."
            );
        }
        _ => panic!("the start failed"),
    }
    assert_eq!(
        state.session_status(id),
        Some((SessionStatus::Failed, "No model selected".to_string(), 250))
    );
    // A failed session cannot be stopped or cancelled back to life.
    assert!(matches!(state.stop_recording_session(id, 300), StopRequest::Rejected));
    assert_eq!(
        state.cancel_recording_session(id, 300),
        CancelReply { cancelled: false, stop_recorder: false }
    );
    assert_eq!(status_of(&state, id), Some(SessionStatus::Failed));
}

#[test]
fn start_answer_for_a_session_that_moved_on_is_abandoned() {
    let mut state = daemon();
    let (id, _) = state.start_recording_session_for_target(4, 100).unwrap();
    assert!(state.cancel_recording_session(id, 110).cancelled);
    assert!(matches!(
        state.start_recording_internal(id, StartOutcome::Started, true, 120),
        StartReply::Abandoned
    ));
    assert_eq!(status_of(&state, id), Some(SessionStatus::Cancelled));
    assert!(!state.is_recording());
    assert!(matches!(
        state.start_recording_internal(99, StartOutcome::Started, true, 120),
        StartReply::Abandoned
    ));
}

#[test]
fn stop_is_idempotent_once_stopped() {
    let mut state = daemon();
    assert!(matches!(state.stop_recording_session(1, 10), StopRequest::Rejected));
    let (id, token) = recording_session(&mut state, 4, 100);
    assert!(matches!(state.stop_recording_session(id, 200), StopRequest::Stop { .. }));
    assert!(matches!(state.stop_recording_session(id, 210), StopRequest::AlreadyDone));
    assert_eq!(state.session_status(id).unwrap().2, 200);
    let _ = state.finalize_stop_recording(id, Transcription::Text("x".to_string()), 300);
    assert!(matches!(state.stop_recording_session(id, 310), StopRequest::AlreadyDone));
    assert_eq!(state.take_pending_commit_for_session(id, &token, 320), (true, "x".to_string()));
    assert!(matches!(state.stop_recording_session(id, 330), StopRequest::AlreadyDone));
    assert_eq!(status_of(&state, id), Some(SessionStatus::Committed));
}

#[test]
fn stop_before_recording_is_rejected() {
    let mut state = daemon();
    let (id, _) = state.start_recording_session_for_target(4, 100).unwrap();
    assert!(matches!(state.stop_recording_session(id, 110), StopRequest::Rejected));
    assert_eq!(status_of(&state, id), Some(SessionStatus::Starting));
    let (created, _) = state.create_session(4, 100).unwrap();
    assert!(matches!(state.stop_recording_session(created, 110), StopRequest::Rejected));
    assert_eq!(status_of(&state, created), Some(SessionStatus::Created));
}

#[test]
fn stop_without_samples_fails_the_session() {
    let mut state = daemon();
    let (id, _) = recording_session(&mut state, 4, 100);
    assert!(matches!(state.stop_recording_session(id, 200), StopRequest::Stop { .. }));
    assert!(!state.stop_recording_internal(id, false, 210));
    assert_eq!(
        state.session_status(id),
        Some((
            SessionStatus::Failed,
            "Stop requested for inactive recording session".to_string(),
            210
        ))
    );
    assert!(!state.session_is_stopping(id));
    assert!(matches!(
        state.finalize_stop_recording(id, Transcription::NoSpeech, 220),
        FinalizeSignal::Stale
    ));
}

#[test]
fn finalize_without_speech_queues_nothing() {
    let mut state = daemon();
    let (id, token) = recording_session(&mut state, 4, 100);
    let _ = state.stop_recording_session(id, 200);
    match state.finalize_stop_recording(id, Transcription::NoSpeech, 300) {
        FinalizeSignal::TranscriptionReady(text) => assert_eq!(text, ""),
        _ => panic!("the session is ready"),
    }
    assert_eq!(
        state.session_status(id),
        Some((SessionStatus::Ready, "No speech detected".to_string(), 300))
    );
    assert_eq!(state.pending_commit_stats(300).queue_len, 0);
    assert_eq!(state.take_pending_commit_for_session(id, &token, 310), (false, String::new()));

    let (id, _) = recording_session(&mut state, 4, 400);
    let _ = state.stop_recording_session(id, 500);
    match state.finalize_stop_recording(id, Transcription::Text(" \n\t ".to_string()), 600) {
        FinalizeSignal::TranscriptionReady(text) => assert_eq!(text, " \n\t "),
        _ => panic!("the session is ready"),
    }
    assert_eq!(state.pending_commit_stats(600).queue_len, 0);
    assert_eq!(status_of(&state, id), Some(SessionStatus::Ready));
}

#[test]
fn finalize_failure_fails_the_session() {
    let mut state = daemon();
    let (id, _) = recording_session(&mut state, 4, 100);
    let _ = state.stop_recording_session(id, 200);
    match state.finalize_stop_recording(id, Transcription::Failed("engine gone".to_string()), 300) {
        FinalizeSignal::Error(message) => assert_eq!(message, "Transcription failed: engine gone"),
        _ => panic!("the transcription failed"),
    }
    assert_eq!(
        state.session_status(id),
        Some((SessionStatus::Failed, "Transcription failed: engine gone".to_string(), 300))
    );
    assert!(!state.session_is_stopping(id));
}

#[test]
fn finalize_of_a_session_that_is_not_finalizing_is_stale() {
    let mut state = daemon();
    let (id, _) = recording_session(&mut state, 4, 100);
    assert!(matches!(
        state.finalize_stop_recording(id, Transcription::Text("x".to_string()), 200),
        FinalizeSignal::Stale
    ));
    assert_eq!(status_of(&state, id), Some(SessionStatus::Recording));
    assert_eq!(state.pending_commit_stats(200).queue_len, 0);
    assert!(matches!(
        state.finalize_stop_recording(99, Transcription::NoSpeech, 200),
        FinalizeSignal::Stale
    ));
}

#[test]
fn cancel_clears_preview_and_drops_the_recording() {
    let mut state = daemon();
    let (id, token) = recording_session(&mut state, 4, 100);
    let revision = state.next_live_preedit_revision();
    state.set_live_preedit(id, revision, "so far".to_string());
    assert_eq!(state.get_live_preedit_for_session(id, &token), (revision, true, "so far".to_string()));
    assert_eq!(
        state.cancel_recording_session(id, 200),
        CancelReply { cancelled: true, stop_recorder: true }
    );
    assert!(!state.is_recording());
    assert_eq!(
        state.session_status(id),
        Some((SessionStatus::Cancelled, "Session cancelled".to_string(), 200))
    );
    let shown = state.get_live_preedit_for_session(id, &token);
    assert!(shown.0 > revision);
    assert!(!shown.1);
    assert_eq!(shown.2, "");
    assert_eq!(
        state.cancel_recording_session(id, 300),
        CancelReply { cancelled: false, stop_recorder: false }
    );
    assert_eq!(state.session_status(id).unwrap().2, 200);
    assert_eq!(
        state.cancel_recording_session(99, 300),
        CancelReply { cancelled: false, stop_recorder: false }
    );
}

#[test]
fn cancel_during_finalize_leaves_one_outcome() {
    let mut state = daemon();
    let (id, token) = recording_session(&mut state, 4, 100);
    let _ = state.stop_recording_session(id, 200);
    assert_eq!(
        state.cancel_recording_session(id, 250),
        CancelReply { cancelled: true, stop_recorder: false }
    );
    assert!(matches!(
        state.finalize_stop_recording(id, Transcription::Text("late".to_string()), 300),
        FinalizeSignal::Stale
    ));
    assert_eq!(status_of(&state, id), Some(SessionStatus::Cancelled));
    assert_eq!(state.take_pending_commit_for_session(id, &token, 310), (false, String::new()));
}

#[test]
fn fail_session_spares_ended_sessions() {
    let mut state = daemon();
    let (id, _) = recording_session(&mut state, 4, 100);
    let _ = state.stop_recording_session(id, 200);
    state.fail_session(id, "Internal transcription panic", 300);
    assert_eq!(
        state.session_status(id),
        Some((SessionStatus::Failed, "Internal transcription panic".to_string(), 300))
    );
    assert!(!state.session_is_stopping(id));
    let (ready, _) = ready_session(&mut state, 4, 400, "kept");
    state.fail_session(ready, "late fault", 500);
    assert_eq!(status_of(&state, ready), Some(SessionStatus::Ready));
}

#[test]
fn live_preview_needs_the_claim_and_skips_session_zero() {
    let mut state = daemon();
    let (id, token) = recording_session(&mut state, 4, 100);
    assert_eq!(state.next_live_preedit_revision(), 1);
    assert_eq!(state.next_live_preedit_revision(), 2);
    state.set_live_preedit(id, 2, "two".to_string());
    state.set_live_preedit(id, 1, "one".to_string());
    assert_eq!(state.get_live_preedit_for_session(id, &token), (2, true, "two".to_string()));
    assert_eq!(state.get_live_preedit_for_session(id, "wrong"), (0, false, String::new()));
    assert_eq!(state.get_live_preedit_for_session(id + 1, &token), (0, false, String::new()));
    state.clear_live_preedit(id, 3);
    assert_eq!(state.get_live_preedit_for_session(id, &token), (3, false, String::new()));
    state.set_live_preedit(0, 9, "nobody".to_string());
    state.clear_live_preedit(0, 10);
    assert_eq!(state.get_live_preedit_for_session(0, ""), (0, false, String::new()));
}

#[test]
fn store_pending_commit_needs_a_session() {
    let mut state = daemon();
    state.store_pending_commit(5, "nobody home".to_string(), 100);
    assert_eq!(state.pending_commit_stats(100).queue_len, 0);
    let (id, token) = state.create_session(4, 100).unwrap();
    state.store_pending_commit(id, "hello".to_string(), 150);
    let stats = state.pending_commit_stats(175);
    assert_eq!(stats.queue_len, 1);
    assert_eq!(stats.oldest_age_ms, 25);
    assert_eq!(stats.targets.get(&id), Some(&1));
    assert_eq!(state.take_pending_commit_for_session(id, &token, 200), (true, "hello".to_string()));
}

#[test]
fn commit_outlives_its_session() {
    let mut state = daemon();
    let (id, token) = ready_session(&mut state, 4, 1_000, "kept");
    state.cleanup_expired_sessions(1_001 + SESSION_TTL_MS);
    assert_eq!(status_of(&state, id), None);
    assert_eq!(
        state.take_pending_commit_for_session(id, &token, 2_000 + SESSION_TTL_MS),
        (true, "kept".to_string())
    );
    assert_eq!(status_of(&state, id), None);
}

#[test]
fn focus_and_language_are_kept() {
    let mut state = daemon();
    assert_eq!(state.focused_engine_status(), (0, 1_000));
    state.set_focused_engine(3, true, 1_100);
    assert_eq!(state.focused_engine_status(), (3, 1_100));
    state.set_focused_engine(4, false, 1_200);
    assert_eq!(state.focused_engine_status(), (3, 1_100));
    state.set_focused_engine(3, false, 1_300);
    assert_eq!(state.focused_engine_status(), (0, 1_300));
    assert_eq!(state.selected_language(), "en");
    state.set_selected_language("zh-Hant".to_string());
    assert_eq!(state.selected_language(), "zh-Hant");
    assert!(!state.swap_recording(true));
    assert!(state.swap_recording(false));
}

#[test]
fn sessions_run_out_with_their_ids() {
    let authority = ClaimTokenAuthority::starting_at(u64::MAX - 1, 7);
    assert!(authority.has_capacity());
    let mut state = DiktState::with_authority(authority, "en".to_string(), 0);
    let (id, token) = state.create_session(4, 16).unwrap();
    assert_eq!(id, u64::MAX - 1);
    assert_eq!(token, format!("{:016x}{:016x}{:016x}", 16u64, u64::MAX - 1, 7u64));
    assert_eq!(state.create_session(4, 17).err(), Some(SessionError::Exhausted));
    assert_eq!(
        state.start_recording_session_for_target(4, 18).err(),
        Some(SessionError::Exhausted)
    );
    assert_eq!(state.create_session(0, 19).err(), Some(SessionError::InvalidTarget));
    assert_eq!(state.session_ids(), vec![u64::MAX - 1]);

    let mut state = DiktState::with_authority(
        ClaimTokenAuthority::starting_at(0, u64::MAX),
        "en".to_string(),
        0,
    );
    assert_eq!(state.create_session(4, 17).err(), Some(SessionError::Exhausted));
    let mut authority = ClaimTokenAuthority::starting_at(0, 1);
    assert_eq!(authority.next_session_id(), 1);
    assert!(!ClaimTokenAuthority::starting_at(u64::MAX, 1).has_capacity());
}

#[test]
fn preview_revisions_grow_by_one() {
    let mut state = daemon();
    for expected in 1..=3u64 {
        assert_eq!(state.next_live_preedit_revision(), expected);
    }
}
