//! The texts of the listener's event lines, error messages and
//! notifications. Each text is given twice: as the sequence of characters
//! that contracts speak of, and as the function that builds it.

use vstd::prelude::*;
use vstd::string::StringExecFns;
use crate::numerals::{decimal, decimal_text, hex, hex_min_text};

verus! {

/// A press of the shortcut within the debounce window was dropped.
pub open spec fn note_debounced_text() -> Seq<char> {
    "toggle:shortcut press ignored by debounce (90 ms)"@
}

/// A press of the shortcut within the debounce window was dropped.
pub fn note_debounced() -> (text: String)
    ensures
        text@ == note_debounced_text(),
{
    String::from_str("toggle:shortcut press ignored by debounce (90 ms)")
}

/// A press came while a start was in flight.
pub open spec fn note_ignored_while_pending_text(toggle_session_id: u64) -> Seq<char> {
    "toggle:"@
        + decimal_text(toggle_session_id as nat)
        + " toggle ignored while start transition is pending"@
}

/// A press came while a start was in flight.
pub fn note_ignored_while_pending(toggle_session_id: u64) -> (text: String)
    ensures
        text@ == note_ignored_while_pending_text(toggle_session_id),
{
    String::from_str("toggle:")
        .concat(decimal(toggle_session_id).as_str())
        .concat(" toggle ignored while start transition is pending")
}

/// A press asked for the recording to stop.
pub open spec fn note_stop_requested_text(
    toggle_session_id: u64,
    daemon_session_id: u64,
) -> Seq<char> {
    "toggle:"@
        + decimal_text(toggle_session_id as nat)
        + " toggle stop requested; stopping daemon session "@
        + decimal_text(daemon_session_id as nat)
}

/// A press asked for the recording to stop.
pub fn note_stop_requested(toggle_session_id: u64, daemon_session_id: u64) -> (text: String)
    ensures
        text@ == note_stop_requested_text(toggle_session_id, daemon_session_id),
{
    String::from_str("toggle:")
        .concat(decimal(toggle_session_id).as_str())
        .concat(" toggle stop requested; stopping daemon session ")
        .concat(decimal(daemon_session_id).as_str())
}

/// A press came while a stop was in flight.
pub open spec fn note_ignored_while_stopping_text(toggle_session_id: u64) -> Seq<char> {
    "toggle:"@
        + decimal_text(toggle_session_id as nat)
        + " toggle ignored while stop transition is pending"@
}

/// A press came while a stop was in flight.
pub fn note_ignored_while_stopping(toggle_session_id: u64) -> (text: String)
    ensures
        text@ == note_ignored_while_stopping_text(toggle_session_id),
{
    String::from_str("toggle:")
        .concat(decimal(toggle_session_id).as_str())
        .concat(" toggle ignored while stop transition is pending")
}

/// The current input source could not be read.
pub open spec fn note_engine_unreadable_text(error: Seq<char>) -> Seq<char> {
    "toggle:read-current-engine failed (non-fatal): "@
        + error
}

/// The current input source could not be read.
pub fn note_engine_unreadable(error: &str) -> (text: String)
    ensures
        text@ == note_engine_unreadable_text(error@),
{
    String::from_str("toggle:read-current-engine failed (non-fatal): ")
        .concat(error)
}

/// A press began a toggle session.
pub open spec fn note_pressed_text(toggle_session_id: u64) -> Seq<char> {
    "toggle:"@
        + decimal_text(toggle_session_id as nat)
        + " pressed"@
}

/// A press began a toggle session.
pub fn note_pressed(toggle_session_id: u64) -> (text: String)
    ensures
        text@ == note_pressed_text(toggle_session_id),
{
    String::from_str("toggle:")
        .concat(decimal(toggle_session_id).as_str())
        .concat(" pressed")
}

/// The dictation source was active already.
pub open spec fn note_already_on_source_text(toggle_session_id: u64) -> Seq<char> {
    "toggle:"@
        + decimal_text(toggle_session_id as nat)
        + " already on dikt source"@
}

/// The dictation source was active already.
pub fn note_already_on_source(toggle_session_id: u64) -> (text: String)
    ensures
        text@ == note_already_on_source_text(toggle_session_id),
{
    String::from_str("toggle:")
        .concat(decimal(toggle_session_id).as_str())
        .concat(" already on dikt source")
}

/// The press came with the dictation source active.
pub open spec fn note_pressed_while_active_text(toggle_session_id: u64) -> Seq<char> {
    "toggle:"@
        + decimal_text(toggle_session_id as nat)
        + " pressed while dikt already active"@
}

/// The press came with the dictation source active.
pub fn note_pressed_while_active(toggle_session_id: u64) -> (text: String)
    ensures
        text@ == note_pressed_while_active_text(toggle_session_id),
{
    String::from_str("toggle:")
        .concat(decimal(toggle_session_id).as_str())
        .concat(" pressed while dikt already active")
}

/// A switch to the dictation source was asked for.
pub open spec fn note_switch_requested_text(toggle_session_id: u64, from: Seq<char>) -> Seq<char> {
    "toggle:"@
        + decimal_text(toggle_session_id as nat)
        + " switch requested from "@
        + from
}

/// A switch to the dictation source was asked for.
pub fn note_switch_requested(toggle_session_id: u64, from: &str) -> (text: String)
    ensures
        text@ == note_switch_requested_text(toggle_session_id, from@),
{
    String::from_str("toggle:")
        .concat(decimal(toggle_session_id).as_str())
        .concat(" switch requested from ")
        .concat(from)
}

/// The switch to the dictation source failed.
pub open spec fn note_switch_failed_text(toggle_session_id: u64, error: Seq<char>) -> Seq<char> {
    "toggle:"@
        + decimal_text(toggle_session_id as nat)
        + " failed to switch to dikt engine: "@
        + error
}

/// The switch to the dictation source failed.
pub fn note_switch_failed(toggle_session_id: u64, error: &str) -> (text: String)
    ensures
        text@ == note_switch_failed_text(toggle_session_id, error@),
{
    String::from_str("toggle:")
        .concat(decimal(toggle_session_id).as_str())
        .concat(" failed to switch to dikt engine: ")
        .concat(error)
}

/// The switch to the dictation source was confirmed.
pub open spec fn note_switch_confirmed_text(
    toggle_session_id: u64,
    engine: Seq<char>,
    latency_ms: u64,
) -> Seq<char> {
    "toggle:"@
        + decimal_text(toggle_session_id as nat)
        + " switch confirmed to "@
        + engine
        + " ("@
        + decimal_text(latency_ms as nat)
        + " ms)"@
}

/// The switch to the dictation source was confirmed.
pub fn note_switch_confirmed(toggle_session_id: u64, engine: &str, latency_ms: u64) -> (text: String)
    ensures
        text@ == note_switch_confirmed_text(toggle_session_id, engine@, latency_ms),
{
    String::from_str("toggle:")
        .concat(decimal(toggle_session_id).as_str())
        .concat(" switch confirmed to ")
        .concat(engine)
        .concat(" (")
        .concat(decimal(latency_ms).as_str())
        .concat(" ms)")
}

/// The daemon reported a focused target.
pub open spec fn note_focus_confirmed_text(
    toggle_session_id: u64,
    engine_id: u64,
    last_change_ms: u64,
) -> Seq<char> {
    "toggle:"@
        + decimal_text(toggle_session_id as nat)
        + " focused engine confirmed id="@
        + decimal_text(engine_id as nat)
        + " (last_change_ms="@
        + decimal_text(last_change_ms as nat)
        + ")"@
}

/// The daemon reported a focused target.
pub fn note_focus_confirmed(toggle_session_id: u64, engine_id: u64, last_change_ms: u64) -> (text: String)
    ensures
        text@ == note_focus_confirmed_text(toggle_session_id, engine_id, last_change_ms),
{
    String::from_str("toggle:")
        .concat(decimal(toggle_session_id).as_str())
        .concat(" focused engine confirmed id=")
        .concat(decimal(engine_id).as_str())
        .concat(" (last_change_ms=")
        .concat(decimal(last_change_ms).as_str())
        .concat(")")
}

/// No target became focused in time.
pub open spec fn note_focus_unavailable_text(
    toggle_session_id: u64,
    error: Seq<char>,
) -> Seq<char> {
    "toggle:"@
        + decimal_text(toggle_session_id as nat)
        + " blocked start because focused engine is unavailable: "@
        + error
}

/// No target became focused in time.
pub fn note_focus_unavailable(toggle_session_id: u64, error: &str) -> (text: String)
    ensures
        text@ == note_focus_unavailable_text(toggle_session_id, error@),
{
    String::from_str("toggle:")
        .concat(decimal(toggle_session_id).as_str())
        .concat(" blocked start because focused engine is unavailable: ")
        .concat(error)
}

/// The daemon started a session.
pub open spec fn note_started_text(toggle_session_id: u64, daemon_session_id: u64) -> Seq<char> {
    "toggle:"@
        + decimal_text(toggle_session_id as nat)
        + " started daemon session "@
        + decimal_text(daemon_session_id as nat)
}

/// The daemon started a session.
pub fn note_started(toggle_session_id: u64, daemon_session_id: u64) -> (text: String)
    ensures
        text@ == note_started_text(toggle_session_id, daemon_session_id),
{
    String::from_str("toggle:")
        .concat(decimal(toggle_session_id).as_str())
        .concat(" started daemon session ")
        .concat(decimal(daemon_session_id).as_str())
}

/// The daemon refused to start.
pub open spec fn note_start_failed_text(toggle_session_id: u64, error: Seq<char>) -> Seq<char> {
    "toggle:"@
        + decimal_text(toggle_session_id as nat)
        + " start failed: "@
        + error
}

/// The daemon refused to start.
pub fn note_start_failed(toggle_session_id: u64, error: &str) -> (text: String)
    ensures
        text@ == note_start_failed_text(toggle_session_id, error@),
{
    String::from_str("toggle:")
        .concat(decimal(toggle_session_id).as_str())
        .concat(" start failed: ")
        .concat(error)
}

/// A start succeeded for a toggle session that had been given up.
pub open spec fn note_stale_start_cancelled_text(toggle_session_id: u64) -> Seq<char> {
    "toggle:"@
        + decimal_text(toggle_session_id as nat)
        + " stale start success cancelled"@
}

/// A start succeeded for a toggle session that had been given up.
pub fn note_stale_start_cancelled(toggle_session_id: u64) -> (text: String)
    ensures
        text@ == note_stale_start_cancelled_text(toggle_session_id),
{
    String::from_str("toggle:")
        .concat(decimal(toggle_session_id).as_str())
        .concat(" stale start success cancelled")
}

/// A start failed for a toggle session that had been given up.
pub open spec fn note_stale_start_ignored_text(toggle_session_id: u64) -> Seq<char> {
    "toggle:"@
        + decimal_text(toggle_session_id as nat)
        + " stale start failure ignored"@
}

/// A start failed for a toggle session that had been given up.
pub fn note_stale_start_ignored(toggle_session_id: u64) -> (text: String)
    ensures
        text@ == note_stale_start_ignored_text(toggle_session_id),
{
    String::from_str("toggle:")
        .concat(decimal(toggle_session_id).as_str())
        .concat(" stale start failure ignored")
}

/// The daemon acknowledged the stop.
pub open spec fn note_stop_acknowledged_text(
    toggle_session_id: u64,
    daemon_session_id: u64,
) -> Seq<char> {
    "toggle:"@
        + decimal_text(toggle_session_id as nat)
        + " stop acknowledged for daemon session "@
        + decimal_text(daemon_session_id as nat)
}

/// The daemon acknowledged the stop.
pub fn note_stop_acknowledged(toggle_session_id: u64, daemon_session_id: u64) -> (text: String)
    ensures
        text@ == note_stop_acknowledged_text(toggle_session_id, daemon_session_id),
{
    String::from_str("toggle:")
        .concat(decimal(toggle_session_id).as_str())
        .concat(" stop acknowledged for daemon session ")
        .concat(decimal(daemon_session_id).as_str())
}

/// The stop is through; the commit follows on its own way.
pub open spec fn note_stop_complete_text(
    toggle_session_id: u64,
    daemon_session_id: u64,
) -> Seq<char> {
    "toggle:"@
        + decimal_text(toggle_session_id as nat)
        + " stop-complete for session "@
        + decimal_text(daemon_session_id as nat)
        + "; commit is delivered by engine-side pending commit listener"@
}

/// The stop is through; the commit follows on its own way.
pub fn note_stop_complete(toggle_session_id: u64, daemon_session_id: u64) -> (text: String)
    ensures
        text@ == note_stop_complete_text(toggle_session_id, daemon_session_id),
{
    String::from_str("toggle:")
        .concat(decimal(toggle_session_id).as_str())
        .concat(" stop-complete for session ")
        .concat(decimal(daemon_session_id).as_str())
        .concat("; commit is delivered by engine-side pending commit listener")
}

/// The stop call failed, but the daemon had stopped.
pub open spec fn note_stop_finalizing_text(
    toggle_session_id: u64,
    daemon_session_id: u64,
    reason: Seq<char>,
) -> Seq<char> {
    "toggle:"@
        + decimal_text(toggle_session_id as nat)
        + " stop finalized asynchronously for daemon session "@
        + decimal_text(daemon_session_id as nat)
        + ": "@
        + reason
}

/// The stop call failed, but the daemon had stopped.
pub fn note_stop_finalizing(toggle_session_id: u64, daemon_session_id: u64, reason: &str) -> (text: String)
    ensures
        text@ == note_stop_finalizing_text(toggle_session_id, daemon_session_id, reason@),
{
    String::from_str("toggle:")
        .concat(decimal(toggle_session_id).as_str())
        .concat(" stop finalized asynchronously for daemon session ")
        .concat(decimal(daemon_session_id).as_str())
        .concat(": ")
        .concat(reason)
}

/// The stop failed.
pub open spec fn note_stop_failed_text(
    toggle_session_id: u64,
    daemon_session_id: u64,
    error: Seq<char>,
) -> Seq<char> {
    "toggle:"@
        + decimal_text(toggle_session_id as nat)
        + " stop failed for daemon session "@
        + decimal_text(daemon_session_id as nat)
        + ": "@
        + error
}

/// The stop failed.
pub fn note_stop_failed(toggle_session_id: u64, daemon_session_id: u64, error: &str) -> (text: String)
    ensures
        text@ == note_stop_failed_text(toggle_session_id, daemon_session_id, error@),
{
    String::from_str("toggle:")
        .concat(decimal(toggle_session_id).as_str())
        .concat(" stop failed for daemon session ")
        .concat(decimal(daemon_session_id).as_str())
        .concat(": ")
        .concat(error)
}

/// The failed stop was dealt with.
pub open spec fn note_stop_failure_handled_text(toggle_session_id: u64) -> Seq<char> {
    "toggle:"@
        + decimal_text(toggle_session_id as nat)
        + " stop result handled (failure path)"@
}

/// The failed stop was dealt with.
pub fn note_stop_failure_handled(toggle_session_id: u64) -> (text: String)
    ensures
        text@ == note_stop_failure_handled_text(toggle_session_id),
{
    String::from_str("toggle:")
        .concat(decimal(toggle_session_id).as_str())
        .concat(" stop result handled (failure path)")
}

/// A stop result came for a toggle session that was not stopping.
pub open spec fn note_stale_stop_ignored_text(toggle_session_id: u64) -> Seq<char> {
    "toggle:"@
        + decimal_text(toggle_session_id as nat)
        + " stale stop result ignored"@
}

/// A stop result came for a toggle session that was not stopping.
pub fn note_stale_stop_ignored(toggle_session_id: u64) -> (text: String)
    ensures
        text@ == note_stale_stop_ignored_text(toggle_session_id),
{
    String::from_str("toggle:")
        .concat(decimal(toggle_session_id).as_str())
        .concat(" stale stop result ignored")
}

/// The body of the notification of a refused start.
pub open spec fn start_failed_body_text(code: Seq<char>) -> Seq<char> {
    "Toggle dictation start failed ("@
        + code
        + ")"@
}

/// The body of the notification of a refused start.
pub fn start_failed_body(code: &str) -> (text: String)
    ensures
        text@ == start_failed_body_text(code@),
{
    String::from_str("Toggle dictation start failed (")
        .concat(code)
        .concat(")")
}

/// The stop was refused and the cancel that followed succeeded.
pub open spec fn refused_stop_cancelled_text() -> Seq<char> {
    "StopRecordingSession returned false; fallback CancelRecordingSession succeeded"@
}

/// The stop was refused and the cancel that followed succeeded.
pub fn refused_stop_cancelled() -> (text: String)
    ensures
        text@ == refused_stop_cancelled_text(),
{
    String::from_str("StopRecordingSession returned false; fallback CancelRecordingSession succeeded")
}

/// The stop was refused and the cancel that followed failed.
pub open spec fn refused_stop_cancel_failed_text(cancel_error: Seq<char>) -> Seq<char> {
    "StopRecordingSession returned false; fallback CancelRecordingSession failed: "@
        + cancel_error
}

/// The stop was refused and the cancel that followed failed.
pub fn refused_stop_cancel_failed(cancel_error: &str) -> (text: String)
    ensures
        text@ == refused_stop_cancel_failed_text(cancel_error@),
{
    String::from_str("StopRecordingSession returned false; fallback CancelRecordingSession failed: ")
        .concat(cancel_error)
}

/// The stop call timed out, but the daemon had stopped.
pub open spec fn finalizing_after_timeout_text() -> Seq<char> {
    "Stop call timed out after 20000 ms, daemon reports recording stopped; waiting for final commit"@
}

/// The stop call timed out, but the daemon had stopped.
pub fn finalizing_after_timeout() -> (text: String)
    ensures
        text@ == finalizing_after_timeout_text(),
{
    String::from_str("Stop call timed out after 20000 ms, daemon reports recording stopped; waiting for final commit")
}

/// The stop call's worker was lost, but the daemon had stopped.
pub open spec fn finalizing_after_disconnect_text() -> Seq<char> {
    "Stop call worker disconnected, daemon reports recording stopped; waiting for final commit"@
}

/// The stop call's worker was lost, but the daemon had stopped.
pub fn finalizing_after_disconnect() -> (text: String)
    ensures
        text@ == finalizing_after_disconnect_text(),
{
    String::from_str("Stop call worker disconnected, daemon reports recording stopped; waiting for final commit")
}

/// The stop call returned an error, but the daemon had stopped.
pub open spec fn finalizing_after_error_text(error: Seq<char>) -> Seq<char> {
    "Stop call returned error ('"@
        + error
        + "'), daemon reports recording stopped; waiting for final commit"@
}

/// The stop call returned an error, but the daemon had stopped.
pub fn finalizing_after_error(error: &str) -> (text: String)
    ensures
        text@ == finalizing_after_error_text(error@),
{
    String::from_str("Stop call returned error ('")
        .concat(error)
        .concat("'), daemon reports recording stopped; waiting for final commit")
}

/// The stop call timed out.
pub open spec fn stop_timed_out_text() -> Seq<char> {
    "StopRecordingSession call timed out after 20000 ms"@
}

/// The stop call timed out.
pub fn stop_timed_out() -> (text: String)
    ensures
        text@ == stop_timed_out_text(),
{
    String::from_str("StopRecordingSession call timed out after 20000 ms")
}

/// The stop call's worker was lost.
pub open spec fn stop_disconnected_text() -> Seq<char> {
    "StopRecordingSession call worker disconnected before returning"@
}

/// The stop call's worker was lost.
pub fn stop_disconnected() -> (text: String)
    ensures
        text@ == stop_disconnected_text(),
{
    String::from_str("StopRecordingSession call worker disconnected before returning")
}

/// The stop failed and the cancel that followed succeeded.
pub open spec fn failed_stop_cancelled_text(
    stop_detail: Seq<char>,
    daemon_session_id: u64,
) -> Seq<char> {
    stop_detail
        + "; fallback CancelRecordingSession("@
        + decimal_text(daemon_session_id as nat)
        + ") succeeded"@
}

/// The stop failed and the cancel that followed succeeded.
pub fn failed_stop_cancelled(stop_detail: &str, daemon_session_id: u64) -> (text: String)
    ensures
        text@ == failed_stop_cancelled_text(stop_detail@, daemon_session_id),
{
    String::from_str(stop_detail)
        .concat("; fallback CancelRecordingSession(")
        .concat(decimal(daemon_session_id).as_str())
        .concat(") succeeded")
}

/// The stop failed and so did the cancel that followed.
pub open spec fn failed_stop_cancel_failed_text(
    stop_detail: Seq<char>,
    daemon_session_id: u64,
    cancel_error: Seq<char>,
) -> Seq<char> {
    stop_detail
        + "; fallback CancelRecordingSession("@
        + decimal_text(daemon_session_id as nat)
        + ") failed: "@
        + cancel_error
}

/// The stop failed and so did the cancel that followed.
pub fn failed_stop_cancel_failed(stop_detail: &str, daemon_session_id: u64, cancel_error: &str) -> (text: String)
    ensures
        text@ == failed_stop_cancel_failed_text(stop_detail@, daemon_session_id, cancel_error@),
{
    String::from_str(stop_detail)
        .concat("; fallback CancelRecordingSession(")
        .concat(decimal(daemon_session_id).as_str())
        .concat(") failed: ")
        .concat(cancel_error)
}

/// The daemon answered a cancel with `false`.
pub open spec fn cancel_refused_text(session_id: u64) -> Seq<char> {
    "CancelRecordingSession returned false for session "@
        + decimal_text(session_id as nat)
}

/// The daemon answered a cancel with `false`.
pub fn cancel_refused(session_id: u64) -> (text: String)
    ensures
        text@ == cancel_refused_text(session_id),
{
    String::from_str("CancelRecordingSession returned false for session ")
        .concat(decimal(session_id).as_str())
}

/// The daemon reported that no target is focused.
pub open spec fn focus_unavailable_text(last_change_ms: u64) -> Seq<char> {
    "Focused Dikt engine is unavailable (last_change_ms="@
        + decimal_text(last_change_ms as nat)
        + ")"@
}

/// The daemon reported that no target is focused.
pub fn focus_unavailable(last_change_ms: u64) -> (text: String)
    ensures
        text@ == focus_unavailable_text(last_change_ms),
{
    String::from_str("Focused Dikt engine is unavailable (last_change_ms=")
        .concat(decimal(last_change_ms).as_str())
        .concat(")")
}

/// No target became focused within the time allowed.
pub open spec fn focus_timed_out_text(
    timeout_ms: u64,
    last_focused_engine_id: u64,
    last_change_ms: u64,
    last_error: Seq<char>,
) -> Seq<char> {
    "Dikt engine did not report a focused context within "@
        + decimal_text(timeout_ms as nat)
        + " ms (last_focused_engine_id="@
        + decimal_text(last_focused_engine_id as nat)
        + " last_change_ms="@
        + decimal_text(last_change_ms as nat)
        + " last_error='"@
        + last_error
        + "')"@
}

/// No target became focused within the time allowed.
pub fn focus_timed_out(timeout_ms: u64, last_focused_engine_id: u64, last_change_ms: u64, last_error: &str) -> (text: String)
    ensures
        text@ == focus_timed_out_text(timeout_ms, last_focused_engine_id, last_change_ms, last_error@),
{
    String::from_str("Dikt engine did not report a focused context within ")
        .concat(decimal(timeout_ms).as_str())
        .concat(" ms (last_focused_engine_id=")
        .concat(decimal(last_focused_engine_id).as_str())
        .concat(" last_change_ms=")
        .concat(decimal(last_change_ms).as_str())
        .concat(" last_error='")
        .concat(last_error)
        .concat("')")
}

/// One failed attempt to switch, for the list of attempts.
pub open spec fn switch_attempt_text(candidate: Seq<char>, error: Seq<char>) -> Seq<char> {
    candidate
        + " ("@
        + error
        + ")"@
}

/// One failed attempt to switch, for the list of attempts.
pub fn switch_attempt(candidate: &str, error: &str) -> (text: String)
    ensures
        text@ == switch_attempt_text(candidate@, error@),
{
    String::from_str(candidate)
        .concat(" (")
        .concat(error)
        .concat(")")
}

/// A switch was not confirmed within the time allowed.
pub open spec fn switch_not_confirmed_text(
    target_engine: Seq<char>,
    timeout_ms: u64,
    set_attempts: u64,
    last_set_error: Seq<char>,
    last_engine: Seq<char>,
    last_error: Seq<char>,
) -> Seq<char> {
    "Switch to '"@
        + target_engine
        + "' not confirmed within "@
        + decimal_text(timeout_ms as nat)
        + " ms (set_attempts="@
        + decimal_text(set_attempts as nat)
        + " last_set_error='"@
        + last_set_error
        + "' last_engine='"@
        + last_engine
        + "' last_error='"@
        + last_error
        + "')"@
}

/// A switch was not confirmed within the time allowed.
pub fn switch_not_confirmed(target_engine: &str, timeout_ms: u64, set_attempts: u64, last_set_error: &str, last_engine: &str, last_error: &str) -> (text: String)
    ensures
        text@ == switch_not_confirmed_text(target_engine@, timeout_ms, set_attempts, last_set_error@, last_engine@, last_error@),
{
    String::from_str("Switch to '")
        .concat(target_engine)
        .concat("' not confirmed within ")
        .concat(decimal(timeout_ms).as_str())
        .concat(" ms (set_attempts=")
        .concat(decimal(set_attempts).as_str())
        .concat(" last_set_error='")
        .concat(last_set_error)
        .concat("' last_engine='")
        .concat(last_engine)
        .concat("' last_error='")
        .concat(last_error)
        .concat("')")
}

/// Every candidate name of the dictation source failed.
pub open spec fn switch_gave_up_text(attempts: Seq<char>) -> Seq<char> {
    "Failed to switch to Dikt input source with confirmation. Tried: "@
        + attempts
}

/// Every candidate name of the dictation source failed.
pub fn switch_gave_up(attempts: &str) -> (text: String)
    ensures
        text@ == switch_gave_up_text(attempts@),
{
    String::from_str("Failed to switch to Dikt input source with confirmation. Tried: ")
        .concat(attempts)
}

/// The listener reads the keyboards.
pub open spec fn listening_on_text(keyboards: u64, shortcut: Seq<char>) -> Seq<char> {
    "Listening on "@
        + decimal_text(keyboards as nat)
        + " keyboard(s) for "@
        + shortcut
}

/// The listener reads the keyboards.
pub fn listening_on(keyboards: u64, shortcut: &str) -> (text: String)
    ensures
        text@ == listening_on_text(keyboards, shortcut@),
{
    String::from_str("Listening on ")
        .concat(decimal(keyboards).as_str())
        .concat(" keyboard(s) for ")
        .concat(shortcut)
}

/// The keyboards can be read and the shortcut resolves.
pub open spec fn keyboards_ready_text(keyboards: u64, shortcut: Seq<char>) -> Seq<char> {
    "evdev: "@
        + decimal_text(keyboards as nat)
        + " keyboard(s) accessible, shortcut "@
        + shortcut
        + " ready"@
}

/// The keyboards can be read and the shortcut resolves.
pub fn keyboards_ready(keyboards: u64, shortcut: &str) -> (text: String)
    ensures
        text@ == keyboards_ready_text(keyboards, shortcut@),
{
    String::from_str("evdev: ")
        .concat(decimal(keyboards).as_str())
        .concat(" keyboard(s) accessible, shortcut ")
        .concat(shortcut)
        .concat(" ready")
}

/// The keyboards cannot be read.
pub open spec fn keyboards_unreadable_text(error: Seq<char>) -> Seq<char> {
    "Cannot access keyboard devices: "@
        + error
}

/// The keyboards cannot be read.
pub fn keyboards_unreadable(error: &str) -> (text: String)
    ensures
        text@ == keyboards_unreadable_text(error@),
{
    String::from_str("Cannot access keyboard devices: ")
        .concat(error)
}

/// The shortcut's key is not supported.
pub open spec fn unsupported_shortcut_text(keyval: u32) -> Seq<char> {
    "Unsupported dictation shortcut: keyval "@
        + "0x"@ + hex_min_text(keyval as nat)
}

/// The shortcut's key is not supported.
pub fn unsupported_shortcut(keyval: u32) -> (text: String)
    ensures
        text@ == unsupported_shortcut_text(keyval),
{
    String::from_str("Unsupported dictation shortcut: keyval ")
        .concat("0x")
        .concat(hex(keyval as u64).as_str())
}

/// The shortcut does not resolve to a key of the keyboards.
pub open spec fn unresolved_keybinding_text(keyval: u32, modifiers: u32) -> Seq<char> {
    "Cannot resolve keybinding for keyval "@
        + "0x"@ + hex_min_text(keyval as nat)
        + " + modifiers "@
        + "0x"@ + hex_min_text(modifiers as nat)
}

/// The shortcut does not resolve to a key of the keyboards.
pub fn unresolved_keybinding(keyval: u32, modifiers: u32) -> (text: String)
    ensures
        text@ == unresolved_keybinding_text(keyval, modifiers),
{
    String::from_str("Cannot resolve keybinding for keyval ")
        .concat("0x")
        .concat(hex(keyval as u64).as_str())
        .concat(" + modifiers ")
        .concat("0x")
        .concat(hex(modifiers as u64).as_str())
}

/// The selected model could not be loaded.
pub open spec fn model_load_failed_text(
    model_id: Seq<char>,
    message: Seq<char>,
    kind: Seq<char>,
    hint: Seq<char>,
) -> Seq<char> {
    "failed to load selected model '"@
        + model_id
        + "': "@
        + message
        + " (kind="@
        + kind
        + "). "@
        + hint
}

/// The selected model could not be loaded.
pub fn model_load_failed(model_id: &str, message: &str, kind: &str, hint: &str) -> (text: String)
    ensures
        text@ == model_load_failed_text(model_id@, message@, kind@, hint@),
{
    String::from_str("failed to load selected model '")
        .concat(model_id)
        .concat("': ")
        .concat(message)
        .concat(" (kind=")
        .concat(kind)
        .concat("). ")
        .concat(hint)
}

/// The body of the notification of a keyboard error.
pub open spec fn keyboard_error_body_text(error: Seq<char>) -> Seq<char> {
    "Keyboard input error: "@
        + error
}

/// The body of the notification of a keyboard error.
pub fn keyboard_error_body(error: &str) -> (text: String)
    ensures
        text@ == keyboard_error_body_text(error@),
{
    String::from_str("Keyboard input error: ")
        .concat(error)
}

} // verus!
