use dikt::facade::{StartOutcome, StartReply, StopRequest};
use dikt::numerals::{decimal, hex, hex16};
use dikt::session::DiktState;
use dikt::strings::{
    char_is_whitespace, str_contains, str_ends_with, str_eq, str_eq_ignore_ascii_case,
    str_is_blank, str_starts_with, to_chars, trim,
};
use dikt::variants::convert_chinese_variant;
use dikt::worker::{LivePreeditWorker, SnapshotMiss, SnapshotUse};

fn recording(target: u64) -> (DiktState, u64, String) {
    let mut state = DiktState::new("en".to_string(), 0);
    let (id, token) = state.start_recording_session_for_target(target, 10).unwrap();
    assert!(matches!(
        state.start_recording_internal(id, StartOutcome::Started, true, 10),
        StartReply::Recording { spawn_preview_worker: true }
    ));
    (state, id, token)
}

#[test]
fn worker_publishes_merged_transcript() {
    let (mut state, id, token) = recording(4);
    let mut worker = LivePreeditWorker::new(id, 4);
    assert!(worker.begin_tick(&mut state, true));
    assert!(worker.transcribed(&mut state, "  hello world \n"));
    let first = state.get_live_preedit_for_session(id, &token);
    assert!(first.1);
    assert_eq!(first.2, "hello world");
    assert!(worker.transcribed(&mut state, "world again"));
    let second = state.get_live_preedit_for_session(id, &token);
    assert!(second.0 > first.0);
    assert_eq!(second.2, "hello world again");
    assert_eq!(worker.accumulated_text, "hello world again");
    assert_eq!(worker.last_window_text, "world again");
    assert_eq!(worker.published_text, "hello world again");
    // The same window again publishes nothing new.
    assert!(worker.transcribed(&mut state, "world again"));
    assert_eq!(state.get_live_preedit_for_session(id, &token), second);
    // Neither does a blank one.
    assert!(worker.transcribed(&mut state, "   "));
    assert_eq!(state.get_live_preedit_for_session(id, &token), second);
    assert_eq!(worker.last_window_text, "world again");
}

#[test]
fn worker_leaves_when_previews_are_switched_off() {
    let (mut state, id, token) = recording(4);
    let mut worker = LivePreeditWorker::new(id, 4);
    assert!(worker.transcribed(&mut state, "shown"));
    assert!(!worker.begin_tick(&mut state, false));
    let shown = state.get_live_preedit_for_session(id, &token);
    assert!(!shown.1);
    assert_eq!(shown.2, "");
    assert_eq!(worker.published_text, "");
    let revision = shown.0;
    worker.finish(&mut state);
    assert_eq!(state.get_live_preedit_for_session(id, &token).0, revision);
}

#[test]
fn worker_leaves_on_cancel_and_clears_its_preview() {
    let (mut state, id, token) = recording(4);
    let mut worker = LivePreeditWorker::new(id, 4);
    assert!(worker.transcribed(&mut state, "shown"));
    assert!(state.cancel_recording_session(id, 50).cancelled);
    assert!(!worker.begin_tick(&mut state, true));
    let before = state.get_live_preedit_for_session(id, &token);
    worker.finish(&mut state);
    let after = state.get_live_preedit_for_session(id, &token);
    assert!(after.0 > before.0);
    assert!(!after.1);
}

#[test]
fn worker_goes_on_through_a_stop() {
    let (mut state, id, _) = recording(4);
    let mut worker = LivePreeditWorker::new(id, 4);
    assert!(worker.transcribed(&mut state, "shown"));
    assert!(matches!(state.stop_recording_session(id, 60), StopRequest::Stop { .. }));
    assert!(!state.is_recording());
    assert!(worker.begin_tick(&mut state, true));
    assert_eq!(worker.snapshot_missing(&state), SnapshotMiss::Retry { report: true });
    assert!(worker.transcribed(&mut state, "more"));
    let revision = state.next_live_preedit_revision();
    worker.finish(&mut state);
    assert_eq!(state.next_live_preedit_revision(), revision + 1);
}

#[test]
fn worker_leaves_when_its_session_is_gone_or_rebound() {
    let (mut state, id, _) = recording(4);
    let mut other = LivePreeditWorker::new(id, 5);
    assert!(!other.begin_tick(&mut state, true));
    assert!(!other.transcribed(&mut state, "text"));
    assert_eq!(other.accumulated_text, "");
    assert_eq!(other.snapshot_missing(&state), SnapshotMiss::Exit);
    let mut worker = LivePreeditWorker::new(id, 4);
    assert!(worker.begin_tick(&mut state, true));
    state.remove_session(id);
    assert!(!worker.begin_tick(&mut state, true));
    assert_eq!(worker.snapshot_missing(&state), SnapshotMiss::Exit);
    assert_eq!(worker.snapshot_failure_streak, 0);
}

#[test]
fn worker_counts_missed_snapshots() {
    let (state, id, _) = recording(4);
    let mut worker = LivePreeditWorker::new(id, 4);
    let mut reported = Vec::new();
    for streak in 1..=21u64 {
        match worker.snapshot_missing(&state) {
            SnapshotMiss::Retry { report } => {
                if report {
                    reported.push(streak);
                }
            }
            SnapshotMiss::Exit => panic!("the session lasts"),
        }
    }
    assert_eq!(reported, vec![1, 10, 20]);
    assert_eq!(
        worker.snapshot_taken(9_000),
        SnapshotUse { recovered_after: 21, transcribe: true }
    );
    assert_eq!(worker.snapshot_failure_streak, 0);
}

#[test]
fn worker_skips_short_and_stale_snapshots() {
    let mut worker = LivePreeditWorker::new(1, 4);
    assert!(!worker.snapshot_taken(7_999).transcribe);
    assert_eq!(worker.last_snapshot_len, 0);
    assert!(worker.snapshot_taken(8_000).transcribe);
    assert_eq!(worker.last_snapshot_len, 8_000);
    assert!(!worker.snapshot_taken(11_199).transcribe);
    assert_eq!(worker.last_snapshot_len, 8_000);
    assert!(worker.snapshot_taken(11_200).transcribe);
    assert_eq!(worker.last_snapshot_len, 11_200);
    // A window that has shrunk brings nothing new.
    assert!(!worker.snapshot_taken(9_000).transcribe);
    assert!(worker.snapshot_taken(128_000).transcribe);
}

#[test]
fn numbers_are_rendered_like_the_formatter_does() {
    for v in [0u64, 1, 9, 10, 11, 99, 100, 12_345, 1_000_000_007, u64::MAX - 1, u64::MAX] {
        assert_eq!(decimal(v), format!("{}", v));
        assert_eq!(hex(v), format!("{:x}", v));
        assert_eq!(hex16(v), format!("{:016x}", v));
    }
    assert_eq!(decimal(20_000), "20000");
    assert_eq!(hex(0x9999), "9999");
    assert_eq!(hex16(0xabc), "0000000000000abc");
}

#[test]
fn string_helpers_agree_with_the_standard_library() {
    let samples = [
        "",
        " ",
        "a",
        " a ",
        "\t\r\n x y \u{a0}\u{3000}",
        "évdev_bind",
        "\u{85}\u{1680}\u{2000}\u{200a}\u{2028}\u{2029}\u{202f}\u{205f}",
        "\u{200b}zero width\u{200b}",
        "Hello, Wörld",
        "evdev_permission",
    ];
    for s in samples {
        assert_eq!(trim(s), s.trim());
        assert_eq!(str_is_blank(s), s.trim().is_empty());
        assert_eq!(to_chars(s), s.chars().collect::<Vec<char>>());
        for t in samples {
            assert_eq!(str_eq(s, t), s == t);
            assert_eq!(str_starts_with(s, t), s.starts_with(t));
            assert_eq!(str_ends_with(s, t), s.ends_with(t));
            assert_eq!(str_contains(s, t), s.contains(t));
            assert_eq!(str_eq_ignore_ascii_case(s, t), s.eq_ignore_ascii_case(t));
        }
    }
    assert!(str_eq_ignore_ascii_case("GDM-Greeter", "gdm-greeter"));
    assert!(!str_eq_ignore_ascii_case("É", "é"));
    assert!(str_contains("evdev_rebind_failed", "bind"));
    let mut code: u32 = 0;
    while code <= 0x3100 {
        if let Some(c) = char::from_u32(code) {
            assert_eq!(char_is_whitespace(c), c.is_whitespace());
        }
        code += 1;
    }
}

#[test]
fn chinese_variants_are_converted_for_their_languages_only() {
    assert_eq!(convert_chinese_variant("汉语", "zh-Hant"), "漢語");
    assert_eq!(convert_chinese_variant("漢語", "zh-Hans"), "汉语");
    assert_eq!(convert_chinese_variant("汉语", "zh-Hans"), "汉语");
    assert_eq!(convert_chinese_variant("汉语", "zh"), "汉语");
    assert_eq!(convert_chinese_variant("漢語", "en"), "漢語");
    assert_eq!(convert_chinese_variant("", "zh-Hant"), "");
    assert_eq!(convert_chinese_variant("hello", "zh-Hant"), "hello");
}

#[test]
fn worker_converts_for_the_selected_language() {
    let (mut state, id, token) = recording(4);
    state.set_selected_language("zh-Hant".to_string());
    let mut worker = LivePreeditWorker::new(id, 4);
    assert!(worker.transcribed(&mut state, " 汉语 "));
    assert_eq!(state.get_live_preedit_for_session(id, &token).2, "漢語");
    assert_eq!(worker.last_window_text, "漢語");
}
