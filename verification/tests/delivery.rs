use dikt::delivery::{
    drain_engine_commands_for_disable, startup_notice, CallFailure, CommitListener, DiktContext,
    EnableActions, EngineCommand, NextCall, StartupNotice,
};
use dikt::model::{
    clear_load_failure, is_stale_load, selected_model_failure_message, should_throttle_failure,
    should_throttle_load_attempt, ModelLoadFailure, ModelLoadFailureKind, LOAD_RETRY_COOLDOWN_MS,
};
use dikt::postprocess::{
    build_post_process_request, default_base_url, fill_prompt, get_provider,
    post_processed_text, PostProcessSettings,
};
use dikt::recording::{
    map_open_failure_to_start_error, padded_sample_count, RecorderStart, RecordingStartError,
    RecordingState,
};
use dikt::settings::LLMPrompt;

fn failure(kind: ModelLoadFailureKind, at_ms: u64) -> ModelLoadFailure {
    ModelLoadFailure {
        model_id: "small".to_string(),
        kind,
        message: "test".to_string(),
        at_ms,
    }
}

#[test]
fn throttle_applies_only_to_missing_model_or_path() {
    let now = 10_000;
    assert!(should_throttle_failure(
        &failure(ModelLoadFailureKind::MissingModel, now - 1000),
        now
    ));
    assert!(should_throttle_failure(
        &failure(ModelLoadFailureKind::MissingPath, now - 1000),
        now
    ));
    assert!(!should_throttle_failure(
        &failure(ModelLoadFailureKind::EngineLoadFailed, now - 1000),
        now
    ));
    assert!(!should_throttle_failure(
        &failure(
            ModelLoadFailureKind::MissingModel,
            now - (LOAD_RETRY_COOLDOWN_MS + 1)
        ),
        now
    ));
}

#[test]
fn stale_load_detection_uses_epoch_and_selection() {
    assert!(is_stale_load("small", 2, "small", 3));
    assert!(is_stale_load("small", 2, "medium", 2));
    assert!(!is_stale_load("small", 2, "small", 2));
}

#[test]
fn load_attempts_are_throttled_per_model() {
    let last = Some(failure(ModelLoadFailureKind::MissingModel, 5_000));
    assert!(should_throttle_load_attempt(&last, "small", 5_000));
    assert!(should_throttle_load_attempt(&last, "small", 7_999));
    assert!(!should_throttle_load_attempt(&last, "small", 8_000));
    assert!(!should_throttle_load_attempt(&last, "medium", 5_000));
    assert!(should_throttle_load_attempt(&last, "small", 1_000));
    assert!(!should_throttle_load_attempt(&None, "small", 5_000));
    let mut last = last;
    clear_load_failure(&mut last, "medium");
    assert!(last.is_some());
    clear_load_failure(&mut last, "small");
    assert!(last.is_none());
    clear_load_failure(&mut last, "small");
    assert!(last.is_none());
}

#[test]
fn failure_message_names_kind_and_hint() {
    let last = Some(failure(ModelLoadFailureKind::MissingPath, 5_000));
    assert_eq!(
        selected_model_failure_message(&last, "small"),
        Some(
            "failed to load selected model 'small': test (kind=missing_path). Model files look incomplete. Re-download the selected model."
                .to_string()
        )
    );
    assert_eq!(selected_model_failure_message(&last, "medium"), None);
    assert_eq!(selected_model_failure_message(&last, ""), None);
    assert_eq!(selected_model_failure_message(&None, "small"), None);
    assert_eq!(ModelLoadFailureKind::MissingModel.failure_kind_label(), "missing_model");
    assert_eq!(ModelLoadFailureKind::EngineLoadFailed.failure_kind_label(), "engine_load_failed");
    assert_eq!(
        ModelLoadFailureKind::MissingModel.failure_hint(),
        "Download the selected model or choose a different downloaded model."
    );
    assert_eq!(
        ModelLoadFailureKind::EngineLoadFailed.failure_hint(),
        "Retry load; if it persists, re-download the selected model."
    );
}

#[test]
fn second_start_is_busy_and_names_the_binding() {
    let mut state = RecordingState::Idle;
    assert!(state.busy_error().is_none());
    assert!(state.try_start_recording("session-1", RecorderStart::Started).is_ok());
    assert!(state.is_recording());
    assert!(state.is_active_binding("session-1"));
    assert!(!state.is_active_binding("session-2"));
    match state.try_start_recording("session-2", RecorderStart::Started) {
        Err(RecordingStartError::Busy { active_binding_id }) => {
            assert_eq!(active_binding_id, Some("session-1".to_string()));
        }
        _ => panic!("the recorder is busy"),
    }
    assert!(state.is_active_binding("session-1"));
    assert!(!state.stop_recording("session-2"));
    assert!(state.is_recording());
    assert!(state.stop_recording("session-1"));
    assert!(!state.is_recording());
    assert!(!state.stop_recording("session-1"));
}

#[test]
fn failed_start_leaves_the_recorder_idle() {
    let mut state = RecordingState::Idle;
    assert!(matches!(
        state.try_start_recording("b", RecorderStart::Unavailable),
        Err(RecordingStartError::RecorderUnavailable)
    ));
    assert!(matches!(
        state.try_start_recording("b", RecorderStart::StartFailed("no stream".to_string())),
        Err(RecordingStartError::RecorderStartFailed(detail)) if detail == "no stream"
    ));
    assert!(matches!(
        state.try_start_recording("b", RecorderStart::OpenFailed("x: No input device found".to_string())),
        Err(RecordingStartError::NoInputDevice)
    ));
    assert!(!state.is_recording());
    assert!(matches!(
        map_open_failure_to_start_error("Silero VAD model not found at /x"),
        RecordingStartError::VadModelMissing
    ));
    assert!(matches!(
        map_open_failure_to_start_error("No input device found; Silero VAD model not found"),
        RecordingStartError::NoInputDevice
    ));
    assert!(matches!(
        map_open_failure_to_start_error("device busy"),
        RecordingStartError::MicrophoneOpenFailed(message) if message == "device busy"
    ));
}

#[test]
fn short_recordings_are_padded() {
    assert_eq!(padded_sample_count(0), 0);
    assert_eq!(padded_sample_count(1), 20_000);
    assert_eq!(padded_sample_count(15_999), 20_000);
    assert_eq!(padded_sample_count(16_000), 16_000);
    assert_eq!(padded_sample_count(48_000), 48_000);
}

#[test]
fn disable_drains_the_commands_of_its_engine() {
    let mut queue = vec![
        EngineCommand::UpdatePreedit { engine_id: 1, text: "mine".to_string(), cursor_pos: 4 },
        EngineCommand::UpdatePreedit { engine_id: 2, text: "other".to_string(), cursor_pos: 5 },
        EngineCommand::CommitText { engine_id: 1, text: "first".to_string() },
        EngineCommand::HidePreedit { engine_id: 2 },
        EngineCommand::CommitText { engine_id: 2, text: "theirs".to_string() },
        EngineCommand::CommitText { engine_id: 1, text: "second".to_string() },
    ];
    let actions = drain_engine_commands_for_disable(&mut queue, 1);
    assert!(actions.hide_requested);
    assert_eq!(actions.commits, vec!["first", "second"]);
    assert_eq!(queue.len(), 3);
    assert!(matches!(&queue[0], EngineCommand::UpdatePreedit { engine_id: 2, text, cursor_pos: 5 } if text == "other"));
    assert!(matches!(&queue[1], EngineCommand::HidePreedit { engine_id: 2 }));
    assert!(matches!(&queue[2], EngineCommand::CommitText { engine_id: 2, text } if text == "theirs"));

    let actions = drain_engine_commands_for_disable(&mut queue, 1);
    assert!(!actions.hide_requested);
    assert!(actions.commits.is_empty());
    assert_eq!(queue.len(), 3);

    let mut queue = vec![
        EngineCommand::UpdatePreedit { engine_id: 7, text: "x".to_string(), cursor_pos: 1 },
        EngineCommand::HidePreedit { engine_id: 7 },
    ];
    let actions = drain_engine_commands_for_disable(&mut queue, 7);
    assert!(actions.hide_requested);
    assert!(actions.commits.is_empty());
    assert!(queue.is_empty());
    let mut queue = vec![EngineCommand::UpdatePreedit {
        engine_id: 7,
        text: "x".to_string(),
        cursor_pos: 1,
    }];
    assert!(!drain_engine_commands_for_disable(&mut queue, 7).hide_requested);
    assert!(queue[..].is_empty());
    assert!(EngineCommand::HidePreedit { engine_id: 3 }.is_for(3));
    assert!(!EngineCommand::HidePreedit { engine_id: 3 }.is_for(4));
}

#[test]
fn listener_counts_failures_and_reconnects() {
    let mut listener = CommitListener::new(5);
    let mut seen = Vec::new();
    for _ in 0..12 {
        seen.push(listener.call_failed());
    }
    let report: Vec<bool> = seen.iter().map(|f| f.report).collect();
    let reconnect: Vec<bool> = seen.iter().map(|f| f.reconnect).collect();
    assert_eq!(
        report,
        vec![true, false, false, false, false, false, false, false, false, true, false, false]
    );
    assert_eq!(
        reconnect,
        vec![false, false, false, false, true, true, true, true, true, true, true, true]
    );
    listener.reconnected();
    assert_eq!(listener.failure_streak, 0);
    assert_eq!(listener.call_failed(), CallFailure { report: true, reconnect: false });
    let _ = listener.commit_read(false, "");
    assert_eq!(listener.failure_streak, 0);
}

#[test]
fn listener_follows_the_active_session() {
    let mut listener = CommitListener::new(5);
    listener.begin_tick();
    let read = listener.active_session_read(0, String::new(), false);
    assert!(!read.hide_preedit);
    assert!(read.claim.is_none());
    assert_eq!(read.next, NextCall::Nothing);
    let read = listener.active_session_read(3, String::new(), true);
    assert!(read.claim.is_none());
    assert_eq!(read.next, NextCall::Nothing);

    let read = listener.active_session_read(3, "token".to_string(), true);
    let claim = read.claim.unwrap();
    assert_eq!((claim.session_id, claim.claim_token.as_str()), (3, "token"));
    assert_eq!(read.next, NextCall::Commit);
    listener.begin_tick();
    listener.begin_tick();
    listener.begin_tick();
    assert_eq!(listener.poll_tick, 4);
    let read = listener.active_session_read(3, "token".to_string(), true);
    assert_eq!(read.next, NextCall::LivePreeditThenCommit);
    let read = listener.active_session_read(3, "token".to_string(), false);
    assert_eq!(read.next, NextCall::Commit);
}

#[test]
fn listener_shows_updates_and_hides_previews() {
    let mut listener = CommitListener::new(5);
    let _ = listener.active_session_read(3, "token".to_string(), true);
    match listener.live_preedit_read(1, true, "  héllo wörld ") {
        Some(EngineCommand::UpdatePreedit { engine_id, text, cursor_pos }) => {
            assert_eq!(engine_id, 5);
            assert_eq!(text, "héllo wörld");
            assert_eq!(cursor_pos, 11);
        }
        _ => panic!("the preview is shown"),
    }
    // The same preview is passed over five times, then shown again.
    for passed in 1..=5u64 {
        assert!(listener.live_preedit_read(1, true, "héllo wörld").is_none());
        assert_eq!(listener.live_refresh_tick, passed);
    }
    assert!(matches!(
        listener.live_preedit_read(1, true, "héllo wörld"),
        Some(EngineCommand::UpdatePreedit { .. })
    ));
    assert_eq!(listener.live_refresh_tick, 0);
    // A new text at an old revision is shown.
    assert!(matches!(
        listener.live_preedit_read(1, true, "changed"),
        Some(EngineCommand::UpdatePreedit { .. })
    ));
    // A hidden or blank preview hides what is shown, once.
    assert!(matches!(
        listener.live_preedit_read(2, false, "changed"),
        Some(EngineCommand::HidePreedit { engine_id: 5 })
    ));
    assert!(listener.live_preedit_read(2, true, "   ").is_none());
    assert!(matches!(
        listener.live_preedit_read(3, true, "   "),
        Some(EngineCommand::HidePreedit { engine_id: 5 })
    ));
    assert_eq!(listener.last_live_revision, 3);
    assert_eq!(listener.last_live_text, "");
    // An older revision does not lower the highest one seen.
    assert!(matches!(
        listener.live_preedit_read(1, true, "late"),
        Some(EngineCommand::UpdatePreedit { .. })
    ));
    assert_eq!(listener.last_live_revision, 3);

    // A change of session hides what is shown and forgets the revisions.
    let read = listener.active_session_read(4, "other".to_string(), true);
    assert!(read.hide_preedit);
    assert_eq!(listener.last_live_revision, 0);
    assert!(!listener.last_live_visible);
    let _ = listener.live_preedit_read(1, true, "again");
    // A session that no longer allows a preview has its preview hidden.
    let read = listener.active_session_read(4, "other".to_string(), false);
    assert!(read.hide_preedit);
    assert!(!listener.last_live_visible);
    let read = listener.active_session_read(4, "other".to_string(), false);
    assert!(!read.hide_preedit);
}

#[test]
fn listener_stops_asking_a_daemon_that_knows_no_preview() {
    let mut listener = CommitListener::new(5);
    listener.begin_tick();
    assert!(listener.live_preedit_failed("timeout"));
    listener.begin_tick();
    assert!(!listener.live_preedit_failed("timeout"));
    assert!(listener.live_preedit_supported);
    assert!(listener.live_preedit_failed("org.freedesktop.DBus.Error.UnknownMethod: no such method"));
    assert!(!listener.live_preedit_supported);
    listener.poll_tick = 4;
    let read = listener.active_session_read(3, "token".to_string(), true);
    assert_eq!(read.next, NextCall::Commit);
    listener.poll_tick = 50;
    assert!(listener.live_preedit_failed("timeout"));
}

#[test]
fn listener_commits_text_that_is_not_blank() {
    let mut listener = CommitListener::new(5);
    assert!(listener.commit_read(false, "ignored").is_none());
    assert!(listener.commit_read(true, "  \n").is_none());
    match listener.commit_read(true, " final words \n") {
        Some(EngineCommand::CommitText { engine_id, text }) => {
            assert_eq!(engine_id, 5);
            assert_eq!(text, "final words");
        }
        _ => panic!("the text is committed"),
    }
}

fn settings() -> PostProcessSettings {
    PostProcessSettings {
        enabled: true,
        provider_id: "openai".to_string(),
        api_key: Some("SECRET-REDACTED".to_string()),
        model: Some("gpt".to_string()),
        base_url: None,
        prompts: vec![
            LLMPrompt {
                id: "fix".to_string(),
                name: "Fix".to_string(),
                prompt: "Fix this: ${output}".to_string(),
            },
            LLMPrompt {
                id: "tidy".to_string(),
                name: "Tidy".to_string(),
                prompt: "${output} -- tidy ${output}".to_string(),
            },
        ],
        selected_prompt_id: None,
    }
}

#[test]
fn post_process_request_is_built_from_the_settings() {
    let request = build_post_process_request("hello", &settings()).unwrap();
    assert_eq!(request.provider.id, "openai");
    assert_eq!(request.provider.label, "openai");
    assert_eq!(request.provider.base_url, "https://api.openai.com/v1");
    assert!(!request.provider.allow_base_url_edit);
    assert_eq!(request.api_key, "SECRET-REDACTED");
    assert_eq!(request.model, "gpt");
    assert_eq!(request.prompt_text, "Fix this: hello");

    let mut chosen = settings();
    chosen.selected_prompt_id = Some("tidy".to_string());
    chosen.provider_id = "custom".to_string();
    chosen.base_url = Some("http://box:1/v1".to_string());
    let request = build_post_process_request("a b", &chosen).unwrap();
    assert_eq!(request.prompt_text, "a b -- tidy a b");
    assert_eq!(request.provider.base_url, "http://box:1/v1");
    assert!(request.provider.allow_base_url_edit);
}

#[test]
fn post_process_request_needs_key_model_and_prompt() {
    let mut s = settings();
    s.enabled = false;
    assert!(build_post_process_request("x", &s).is_none());
    let mut s = settings();
    s.api_key = None;
    assert!(build_post_process_request("x", &s).is_none());
    let mut s = settings();
    s.api_key = Some(String::new());
    assert!(build_post_process_request("x", &s).is_none());
    let mut s = settings();
    s.model = None;
    assert!(build_post_process_request("x", &s).is_none());
    let mut s = settings();
    s.model = Some(String::new());
    assert!(build_post_process_request("x", &s).is_none());
    let mut s = settings();
    s.selected_prompt_id = Some("missing".to_string());
    assert!(build_post_process_request("x", &s).is_none());
    let mut s = settings();
    s.prompts.clear();
    assert!(build_post_process_request("x", &s).is_none());
}

#[test]
fn prompts_are_filled_like_a_replace() {
    for prompt in [
        "",
        "${output}",
        "no place",
        "${output}${output}",
        "a ${output} b ${outpu ${output}",
        "$${output}}",
        "${output",
    ] {
        for text in ["", "x", "${output}", "long text with $"] {
            assert_eq!(fill_prompt(prompt, text), prompt.replace("${output}", text));
        }
    }
}

#[test]
fn providers_have_default_addresses() {
    assert_eq!(default_base_url("openai"), "https://api.openai.com/v1");
    assert_eq!(default_base_url("anthropic"), "https://api.anthropic.com/v1");
    assert_eq!(default_base_url("openrouter"), "https://openrouter.ai/api/v1");
    assert_eq!(default_base_url("groq"), "https://api.groq.com/openai/v1");
    assert_eq!(default_base_url("cerebras"), "https://api.cerebras.ai/v1");
    assert_eq!(default_base_url("custom"), "http://localhost:11434/v1");
    assert_eq!(default_base_url(""), "http://localhost:11434/v1");
    let provider = get_provider("groq", &None);
    assert_eq!(provider.base_url, "https://api.groq.com/openai/v1");
    assert!(!provider.allow_base_url_edit);
}

#[test]
fn blank_answers_are_no_answers() {
    assert_eq!(post_processed_text(&None), None);
    assert_eq!(post_processed_text(&Some("  \n".to_string())), None);
    assert_eq!(post_processed_text(&Some(" kept \n".to_string())), Some("kept".to_string()));
}

#[test]
fn engine_context_follows_enable_and_focus() {
    let mut context = DiktContext::new();
    assert_eq!(
        context.enable(9, false),
        EnableActions { report_focus: None, start_listener: false, check_state: false }
    );
    assert!(context.is_enabled);
    assert!(!context.listener_running);
    context.focus_in();
    assert_eq!(
        context.enable(9, true),
        EnableActions { report_focus: Some(true), start_listener: true, check_state: true }
    );
    assert_eq!(context.current_engine_id, Some(9));
    context.focus_out();
    assert_eq!(
        context.enable(10, true),
        EnableActions { report_focus: Some(false), start_listener: false, check_state: false }
    );
    assert_eq!(context.current_engine_id, Some(10));
    context.disable();
    assert_eq!(context, DiktContext::new());
    assert_eq!(
        context.enable(10, true),
        EnableActions { report_focus: Some(false), start_listener: true, check_state: true }
    );
}

#[test]
fn startup_notice_tells_what_is_missing() {
    assert_eq!(startup_notice(&Ok((false, true))), None);
    assert_eq!(startup_notice(&Ok((true, true))), None);
    assert_eq!(startup_notice(&Ok((false, false))), Some(StartupNotice::Model));
    assert_eq!(startup_notice(&Err("no daemon".to_string())), Some(StartupNotice::Service));
}
