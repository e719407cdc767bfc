//! What follows a stop call, until its outcome is known.
//!
//! A stop that the daemon confirms is done. One that the daemon refuses is
//! followed by a cancel. One that brings no answer is followed by a question
//! for the daemon's state: if the daemon no longer records, it finishes the
//! session on its own and the stop counts as done; if it still records, or
//! does not say, the session is cancelled so that no recording is left
//! running.

use vstd::prelude::*;
use crate::messages::{
    cancel_refused, cancel_refused_text, failed_stop_cancel_failed,
    failed_stop_cancel_failed_text, failed_stop_cancelled, failed_stop_cancelled_text,
    finalizing_after_disconnect, finalizing_after_disconnect_text, finalizing_after_error,
    finalizing_after_error_text, finalizing_after_timeout, finalizing_after_timeout_text,
    refused_stop_cancel_failed, refused_stop_cancel_failed_text, refused_stop_cancelled,
    refused_stop_cancelled_text, stop_disconnected, stop_disconnected_text, stop_timed_out,
    stop_timed_out_text,
};
use crate::toggle::{
    after_stop_result, awaited_stop, ControllerModel, StopRecordingCallError,
    StopRecordingOutcome, ToggleStateModel,
};

verus! {

/// What is to be done after a stop call.
#[derive(Clone, Copy, Debug, PartialEq, Eq, Structural)]
pub enum StopFollowUp {
    /// The daemon confirmed the stop: the outcome is `Acknowledged`.
    Done,
    /// The daemon refused or still records: the session is to be cancelled.
    Cancel,
    /// The call brought no answer: the daemon is to be asked for its state.
    QueryState,
}

/// What is to be done after a stop call with `reply`.
pub open spec fn follow_up(reply: Result<bool, StopRecordingCallError>) -> StopFollowUp {
    match reply {
        Ok(true) => StopFollowUp::Done,
        Ok(false) => StopFollowUp::Cancel,
        Err(_) => StopFollowUp::QueryState,
    }
}

/// Whether the daemon is taken to record still: it says so, or does not
/// answer.
pub open spec fn still_recording(state: Result<(bool, bool), String>) -> bool {
    match state {
        Ok((is_recording, _)) => is_recording,
        Err(_) => true,
    }
}

/// What is to be done after the daemon was asked for its state: the
/// session is to be cancelled if the daemon is taken to record still, and
/// the stop counts as done otherwise.
pub open spec fn follow_up_after_state(state: Result<(bool, bool), String>) -> StopFollowUp {
    if still_recording(state) {
        StopFollowUp::Cancel
    } else {
        StopFollowUp::Done
    }
}

/// Why the stop counts as done although its call failed.
pub open spec fn finalizing_reason(error: StopRecordingCallError) -> Seq<char> {
    match error {
        StopRecordingCallError::TimedOut => finalizing_after_timeout_text(),
        StopRecordingCallError::Disconnected => finalizing_after_disconnect_text(),
        StopRecordingCallError::Failed(err) => finalizing_after_error_text(err@),
    }
}

/// How the stop call failed.
pub open spec fn stop_detail(error: StopRecordingCallError) -> Seq<char> {
    match error {
        StopRecordingCallError::TimedOut => stop_timed_out_text(),
        StopRecordingCallError::Disconnected => stop_disconnected_text(),
        StopRecordingCallError::Failed(err) => err@,
    }
}

/// The message of a stop that ended with a cancel.
pub open spec fn cancelled_stop_text(
    reply: Result<bool, StopRecordingCallError>,
    daemon_session_id: u64,
    cancel: Result<(), String>,
) -> Seq<char> {
    match reply {
        Ok(_) => match cancel {
            Ok(()) => refused_stop_cancelled_text(),
            Err(e) => refused_stop_cancel_failed_text(e@),
        },
        Err(error) => match cancel {
            Ok(()) => failed_stop_cancelled_text(stop_detail(error), daemon_session_id),
            Err(e) => failed_stop_cancel_failed_text(stop_detail(error), daemon_session_id, e@),
        },
    }
}

/// Decides what follows a stop call.
pub fn stop_call_follow_up(reply: &Result<bool, StopRecordingCallError>) -> (next: StopFollowUp)
    ensures
        next == follow_up(*reply),
{
    match reply {
        Ok(true) => StopFollowUp::Done,
        Ok(false) => StopFollowUp::Cancel,
        Err(_) => StopFollowUp::QueryState,
    }
}

/// Decides what follows the question for the daemon's state after a stop
/// call that failed with `error`.
///
/// Where the daemon no longer records, the outcome is `Finalizing`, with
/// the reason and whether the call timed out. Where it still records or
/// does not answer, there is no outcome yet: the session is to be cancelled.
pub fn stop_outcome_after_state_query(
    error: &StopRecordingCallError,
    state: &Result<(bool, bool), String>,
) -> (outcome: Option<StopRecordingOutcome>)
    ensures
        match outcome {
            Some(StopRecordingOutcome::Finalizing { reason, timed_out }) => {
                &&& follow_up_after_state(*state) == StopFollowUp::Done
                &&& reason@ == finalizing_reason(*error)
                &&& timed_out == (*error is TimedOut)
            },
            Some(_) => false,
            None => follow_up_after_state(*state) == StopFollowUp::Cancel,
        },
{
    let is_recording = match state {
        Ok((active, _)) => *active,
        Err(_) => true,
    };
    if is_recording {
        return None;
    }
    let outcome = match error {
        StopRecordingCallError::TimedOut => StopRecordingOutcome::Finalizing {
            reason: finalizing_after_timeout(),
            timed_out: true,
        },
        StopRecordingCallError::Disconnected => StopRecordingOutcome::Finalizing {
            reason: finalizing_after_disconnect(),
            timed_out: false,
        },
        StopRecordingCallError::Failed(err) => StopRecordingOutcome::Finalizing {
            reason: finalizing_after_error(err.as_str()),
            timed_out: false,
        },
    };
    Some(outcome)
}

/// The outcome of a stop that ended with a cancel of `daemon_session_id`:
/// a failure, whose message names the stop's fault and says how the cancel
/// went.
pub fn stop_outcome_after_cancel(
    reply: &Result<bool, StopRecordingCallError>,
    daemon_session_id: u64,
    cancel: &Result<(), String>,
) -> (outcome: StopRecordingOutcome)
    ensures
        match outcome {
            StopRecordingOutcome::Failed(message) => message@ == cancelled_stop_text(
                *reply,
                daemon_session_id,
                *cancel,
            ),
            _ => false,
        },
{
    let message = match reply {
        Ok(_) => match cancel {
            Ok(()) => refused_stop_cancelled(),
            Err(e) => refused_stop_cancel_failed(e.as_str()),
        },
        Err(error) => {
            let detail = match error {
                StopRecordingCallError::TimedOut => stop_timed_out(),
                StopRecordingCallError::Disconnected => stop_disconnected(),
                StopRecordingCallError::Failed(err) => err.clone(),
            };
            match cancel {
                Ok(()) => failed_stop_cancelled(detail.as_str(), daemon_session_id),
                Err(e) => failed_stop_cancel_failed(detail.as_str(), daemon_session_id, e.as_str()),
            }
        },
    };
    StopRecordingOutcome::Failed(message)
}

/// Reads the daemon's answer to a cancel of `session_id`: `false` is an
/// error.
pub fn cancel_call_result(session_id: u64, cancelled: bool) -> (result: Result<(), String>)
    ensures
        match result {
            Ok(()) => cancelled,
            Err(message) => !cancelled && message@ == cancel_refused_text(session_id),
        },
{
    if cancelled {
        Ok(())
    } else {
        Err(cancel_refused(session_id))
    }
}

/// A stop call that times out while the daemon still reports a recording
/// leads to a cancel, and the controller that waits for this stop returns
/// to idle when the outcome comes in.
pub proof fn timed_out_stop_is_cancelled(
    model: ControllerModel,
    toggle_session_id: u64,
    daemon_session_id: u64,
    has_model: bool,
    message: String,
    now_ms: u64,
)
    requires
        model.state == (ToggleStateModel::Stopping { toggle_session_id, daemon_session_id }),
    ensures
        follow_up(Err(StopRecordingCallError::TimedOut)) == StopFollowUp::QueryState,
        follow_up_after_state(Ok((true, has_model))) == StopFollowUp::Cancel,
        after_stop_result(
            model,
            toggle_session_id,
            StopRecordingOutcome::Failed(message),
            now_ms,
        ).state == ToggleStateModel::Idle,
{
    assert(awaited_stop(model.state, toggle_session_id) == Some(daemon_session_id));
}

} // verus!
