//! The daemon's answers to the calls that start, stop, cancel and finish a
//! recording session.
//!
//! The recorder and the transcriber work outside this library. Each call
//! that needs them comes in two parts: the first decides what is asked of
//! them and records it, the second takes their answer and records the
//! outcome. An answer for a session that has moved on in between changes
//! nothing.

use vstd::prelude::*;
use vstd::string::StringExecFns;
use crate::claims::claim_token_text;
use crate::numerals::{decimal, decimal_text};
use crate::pending::{dropped_after_store, queue_after_store};
use crate::preview::{previews_after_write, LivePreeditModel};
use crate::recording::RecordingStartError;
use crate::session::{
    commit_of, created_session, revision_after, swept, with_delivery, with_status, with_stopping,
    DiktModel,
    DiktState, SessionError, SessionStatus,
};
use crate::strings::{is_blank, str_is_blank};

verus! {

/// The name under which the recorder knows a session.
pub open spec fn binding_text(session_id: u64) -> Seq<char> {
    "session-"@ + decimal_text(session_id as nat)
}

/// The name under which the recorder knows `session_id`.
pub fn binding_id_for_session(session_id: u64) -> (binding: String)
    ensures
        binding@ == binding_text(session_id),
{
    String::from_str("session-").concat(decimal(session_id).as_str())
}

/// A hidden, empty preview at `revision`.
pub open spec fn hidden_preview(revision: u64) -> LivePreeditModel {
    LivePreeditModel { revision, visible: false, text: Seq::empty() }
}

/// The state after the live preview of `session_id` was cleared at a fresh
/// revision.
pub open spec fn with_preview_cleared(state: DiktModel, session_id: u64) -> DiktModel {
    DiktModel {
        previews: if session_id == 0 {
            state.previews
        } else {
            previews_after_write(state.previews, session_id, hidden_preview(state.upcoming_revision))
        },
        upcoming_revision: revision_after(state.upcoming_revision),
        ..state
    }
}

/// Whether a session can still be created in `state`.
pub open spec fn can_create(state: DiktModel) -> bool {
    state.upcoming_session_id < u64::MAX && state.upcoming_nonce < u64::MAX
}

/// The state after a start was asked for `target_engine_id`.
pub open spec fn after_start_request(state: DiktModel, target_engine_id: u64, now_ms: u64) -> DiktModel {
    let live = swept(state.sessions, now_ms);
    if target_engine_id == 0 || !can_create(state) {
        DiktModel { sessions: live, ..state }
    } else {
        let session_id = state.upcoming_session_id;
        let token = claim_token_text(now_ms, session_id, state.upcoming_nonce);
        DiktModel {
            sessions: with_status(
                live.insert(session_id, created_session(target_engine_id, token, now_ms)),
                session_id,
                SessionStatus::Starting,
                "Starting recording"@,
                now_ms,
            ),
            upcoming_session_id: (session_id + 1) as u64,
            upcoming_nonce: (state.upcoming_nonce + 1) as u64,
            ..state
        }
    }
}

/// What the recorder answered to a start.
pub enum StartOutcome {
    /// No model is selected: nothing was started.
    NoModelSelected,
    /// The recording runs.
    Started,
    /// The recorder refused.
    Failed(RecordingStartError),
}

/// What the daemon does with the recorder's answer to a start.
pub enum StartReply {
    /// The session records. A live preview worker is due if previews are
    /// enabled.
    Recording { spawn_preview_worker: bool },
    /// The start failed: `error` goes to the caller, `signal` to all
    /// listeners.
    Rejected { error: String, signal: String },
    /// The session no longer waits for this answer: a recording that has
    /// started for it is to be cancelled.
    Abandoned,
}

/// The message of a start that the recorder refused.
pub open spec fn start_failure_text(err: RecordingStartError) -> Seq<char> {
    "Failed to start recording ("@ + err.code_text() + "): "@ + err.detail_text()
}

/// Whether `session_id` exists in `status`.
pub open spec fn in_status(state: DiktModel, session_id: u64, status: SessionStatus) -> bool {
    state.sessions.contains_key(session_id) && state.sessions[session_id].status == status
}

/// The state after the recorder answered the start of `session_id`.
pub open spec fn after_start_result(
    state: DiktModel,
    session_id: u64,
    outcome: StartOutcome,
    preview_enabled: bool,
    now_ms: u64,
) -> DiktModel {
    if !in_status(state, session_id, SessionStatus::Starting) {
        state
    } else {
        match outcome {
            StartOutcome::NoModelSelected => DiktModel {
                sessions: with_status(
                    state.sessions,
                    session_id,
                    SessionStatus::Failed,
                    "No model selected"@,
                    now_ms,
                ),
                ..state
            },
            StartOutcome::Failed(err) => DiktModel {
                sessions: with_status(
                    state.sessions,
                    session_id,
                    SessionStatus::Failed,
                    start_failure_text(err),
                    now_ms,
                ),
                ..state
            },
            StartOutcome::Started => {
                let recording = DiktModel {
                    sessions: with_status(
                        state.sessions,
                        session_id,
                        SessionStatus::Recording,
                        "Recording in progress"@,
                        now_ms,
                    ),
                    recording: true,
                    ..state
                };
                if preview_enabled {
                    with_preview_cleared(recording, session_id)
                } else {
                    recording
                }
            },
        }
    }
}

/// What the daemon does with a request to stop.
pub enum StopRequest {
    /// The session does not exist, has failed or was cancelled, or has not
    /// begun to record: the answer is `false`.
    Rejected,
    /// The session has stopped before: the answer is `true`.
    AlreadyDone,
    /// The recorder is to stop the recording of `binding_id`; listeners
    /// learn that the recording has stopped if `emit_stopped`.
    Stop { binding_id: String, emit_stopped: bool },
}

/// The state after a stop of `session_id` was asked for.
pub open spec fn after_stop_request(state: DiktModel, session_id: u64, now_ms: u64) -> DiktModel {
    let live = DiktModel { sessions: swept(state.sessions, now_ms), ..state };
    if in_status(live, session_id, SessionStatus::Recording) {
        with_preview_cleared(
            DiktModel {
                sessions: with_status(
                    with_stopping(live.sessions, session_id, true),
                    session_id,
                    SessionStatus::Finalizing,
                    "Stopping recorder"@,
                    now_ms,
                ),
                recording: false,
                ..live
            },
            session_id,
        )
    } else {
        live
    }
}

/// The state after `session_id` ended in `status`: its stopping flag is
/// down.
pub open spec fn ended(
    state: DiktModel,
    session_id: u64,
    status: SessionStatus,
    message: Seq<char>,
    now_ms: u64,
) -> DiktModel {
    DiktModel {
        sessions: with_stopping(
            with_status(state.sessions, session_id, status, message, now_ms),
            session_id,
            false,
        ),
        ..state
    }
}

/// The state after the recorder had nothing to stop for `session_id`.
pub open spec fn after_stop_without_samples(state: DiktModel, session_id: u64, now_ms: u64) -> DiktModel {
    if in_status(state, session_id, SessionStatus::Finalizing) {
        ended(
            state,
            session_id,
            SessionStatus::Failed,
            "Stop requested for inactive recording session"@,
            now_ms,
        )
    } else {
        state
    }
}

/// What became of the samples of a stopped recording.
pub enum Transcription {
    /// The recording held no samples.
    NoSpeech,
    /// The final text, which may be blank.
    Text(String),
    /// The transcriber failed, with its message.
    Failed(String),
}

/// What the daemon tells its listeners once a session is finalized.
pub enum FinalizeSignal {
    /// The transcript is ready; the text is empty if nothing was said.
    TranscriptionReady(String),
    /// The transcription failed.
    Error(String),
    /// The session was not being finalized: nothing is told.
    Stale,
}

/// The state after `session_id` was finalized.
pub open spec fn after_finalize(
    state: DiktModel,
    session_id: u64,
    transcription: Transcription,
    now_ms: u64,
) -> DiktModel {
    if !in_status(state, session_id, SessionStatus::Finalizing) {
        state
    } else {
        match transcription {
            Transcription::NoSpeech => ended(
                state,
                session_id,
                SessionStatus::Ready,
                "No speech detected"@,
                now_ms,
            ),
            Transcription::Text(text) => {
                let queued = if is_blank(text@) {
                    state
                } else {
                    DiktModel {
                        pending: queue_after_store(
                            state.pending,
                            commit_of(session_id, state.sessions[session_id], text@, now_ms),
                        ),
                        dropped: dropped_after_store(state.pending, state.dropped),
                        ..state
                    }
                };
                ended(queued, session_id, SessionStatus::Ready, "Transcription ready"@, now_ms)
            },
            Transcription::Failed(err) => ended(
                state,
                session_id,
                SessionStatus::Failed,
                "Transcription failed: "@ + err@,
                now_ms,
            ),
        }
    }
}

/// What the daemon does with a request to cancel.
#[derive(Clone, Copy, Debug, PartialEq, Eq, Structural)]
pub struct CancelReply {
    /// The answer to the caller: whether the session was cancelled.
    pub cancelled: bool,
    /// Whether the recorder is to drop its recording and listeners learn
    /// that the recording has stopped.
    pub stop_recorder: bool,
}

/// Whether `session_id` exists and its status is not final.
pub open spec fn is_live(state: DiktModel, session_id: u64) -> bool {
    state.sessions.contains_key(session_id) && !state.sessions[session_id].status.is_terminal()
}

/// The state after a cancel of `session_id` was asked for.
pub open spec fn after_cancel(state: DiktModel, session_id: u64, now_ms: u64) -> DiktModel {
    let live = DiktModel { sessions: swept(state.sessions, now_ms), ..state };
    if is_live(live, session_id) {
        DiktModel {
            recording: false,
            ..with_preview_cleared(
                ended(live, session_id, SessionStatus::Cancelled, "Session cancelled"@, now_ms),
                session_id,
            )
        }
    } else {
        live
    }
}

/// The state after `session_id` was given up for a fault inside the daemon.
pub open spec fn after_failure(
    state: DiktModel,
    session_id: u64,
    message: Seq<char>,
    now_ms: u64,
) -> DiktModel {
    if is_live(state, session_id) {
        ended(state, session_id, SessionStatus::Failed, message, now_ms)
    } else {
        state
    }
}

impl DiktState {
    /// Begins a recording session for `target_engine_id` at `now_ms`.
    ///
    /// Sessions that are due are removed. Then the session is created and
    /// waits in status `Starting` for the recorder's answer; its id and claim
    /// token are returned. Target 0 is refused, and so is a start once ids
    /// or nonces have run out.
    pub fn start_recording_session_for_target(&mut self, target_engine_id: u64, now_ms: u64) -> (started:
        Result<(u64, String), SessionError>)
        requires
            old(self).wf(),
        ensures
            final(self).wf(),
            final(self)@ == after_start_request(old(self)@, target_engine_id, now_ms),
            match started {
                Ok((session_id, claim_token)) => {
                    &&& target_engine_id != 0
                    &&& can_create(old(self)@)
                    &&& session_id == old(self)@.upcoming_session_id
                    &&& claim_token@ == claim_token_text(
                        now_ms,
                        session_id,
                        old(self)@.upcoming_nonce,
                    )
                },
                Err(SessionError::InvalidTarget) => target_engine_id == 0,
                Err(SessionError::Exhausted) => target_engine_id != 0 && !can_create(old(self)@),
            },
    {
        self.cleanup_expired_sessions(now_ms);
        match self.create_session(target_engine_id, now_ms) {
            Ok((session_id, claim_token)) => {
                self.set_session_status(
                    session_id,
                    SessionStatus::Starting,
                    "Starting recording",
                    now_ms,
                );
                Ok((session_id, claim_token))
            },
            Err(e) => Err(e),
        }
    }

    /// Records the recorder's answer to the start of `session_id`.
    ///
    /// A session that waits in `Starting` begins to record, with its live
    /// preview cleared if previews are enabled, or fails with the recorder's
    /// reason. For any other session nothing changes and the answer is
    /// `Abandoned`.
    pub fn start_recording_internal(
        &mut self,
        session_id: u64,
        outcome: StartOutcome,
        preview_enabled: bool,
        now_ms: u64,
    ) -> (reply: StartReply)
        requires
            old(self).wf(),
        ensures
            final(self).wf(),
            final(self)@ == after_start_result(
                old(self)@,
                session_id,
                outcome,
                preview_enabled,
                now_ms,
            ),
            match reply {
                StartReply::Abandoned => !in_status(
                    old(self)@,
                    session_id,
                    SessionStatus::Starting,
                ),
                StartReply::Recording { spawn_preview_worker } => {
                    &&& in_status(old(self)@, session_id, SessionStatus::Starting)
                    &&& outcome is Started
                    &&& spawn_preview_worker == preview_enabled
                },
                StartReply::Rejected { error, signal } => {
                    &&& in_status(old(self)@, session_id, SessionStatus::Starting)
                    &&& match outcome {
                        StartOutcome::Started => false,
                        StartOutcome::NoModelSelected => {
                            &&& error@ == "No model selected"@
                            &&& signal@
                                == "No model selected. Open Dikt preferences to download and select a model."@
                        },
                        StartOutcome::Failed(err) => {
                            &&& error@ == start_failure_text(err)
                            &&& signal@ == start_failure_text(err)
                        },
                    }
                },
            },
    {
        let waiting = match self.session_status(session_id) {
            Some(status) => status.0 == SessionStatus::Starting,
            None => false,
        };
        if !waiting {
            return StartReply::Abandoned;
        }
        match outcome {
            StartOutcome::NoModelSelected => {
                self.set_session_status(
                    session_id,
                    SessionStatus::Failed,
                    "No model selected",
                    now_ms,
                );
                StartReply::Rejected {
                    error: String::from_str("No model selected"),
                    signal: String::from_str(
                        "No model selected. Open Dikt preferences to download and select a model.",
                    ),
                }
            },
            StartOutcome::Failed(err) => {
                let message = String::from_str("Failed to start recording (").concat(
                    err.code(),
                ).concat("): ").concat(err.detail().as_str());
                self.set_session_status(
                    session_id,
                    SessionStatus::Failed,
                    message.as_str(),
                    now_ms,
                );
                StartReply::Rejected { error: message.clone(), signal: message }
            },
            StartOutcome::Started => {
                self.set_session_status(
                    session_id,
                    SessionStatus::Recording,
                    "Recording in progress",
                    now_ms,
                );
                let _ = self.swap_recording(true);
                if preview_enabled {
                    let revision = self.next_live_preedit_revision();
                    self.clear_live_preedit(session_id, revision);
                }
                StartReply::Recording { spawn_preview_worker: preview_enabled }
            },
        }
    }

    /// Decides on a request to stop `session_id` at `now_ms`.
    ///
    /// Sessions that are due are removed. A session that records moves to
    /// `Finalizing` with its stopping flag up and its live preview cleared,
    /// and the recorder is to stop. A session that has stopped before is
    /// answered with `true`, every other one with `false`; neither changes.
    pub fn stop_recording_session(&mut self, session_id: u64, now_ms: u64) -> (request: StopRequest)
        requires
            old(self).wf(),
        ensures
            final(self).wf(),
            final(self)@ == after_stop_request(old(self)@, session_id, now_ms),
            ({
                let live = swept(old(self)@.sessions, now_ms);
                match request {
                    StopRequest::Stop { binding_id, emit_stopped } => {
                        &&& live.contains_key(session_id)
                        &&& live[session_id].status == SessionStatus::Recording
                        &&& binding_id@ == binding_text(session_id)
                        &&& emit_stopped == old(self)@.recording
                    },
                    StopRequest::AlreadyDone => {
                        &&& live.contains_key(session_id)
                        &&& (live[session_id].status == SessionStatus::Finalizing
                            || live[session_id].status == SessionStatus::Ready
                            || live[session_id].status == SessionStatus::Committed)
                    },
                    StopRequest::Rejected => {
                        ||| !live.contains_key(session_id)
                        ||| live[session_id].status == SessionStatus::Failed
                        ||| live[session_id].status == SessionStatus::Cancelled
                        ||| live[session_id].status == SessionStatus::Created
                        ||| live[session_id].status == SessionStatus::Starting
                    },
                }
            }),
    {
        self.cleanup_expired_sessions(now_ms);
        let status = match self.session_status(session_id) {
            Some(status) => status.0,
            None => {
                return StopRequest::Rejected;
            },
        };
        match status {
            SessionStatus::Finalizing | SessionStatus::Ready | SessionStatus::Committed => {
                StopRequest::AlreadyDone
            },
            SessionStatus::Recording => {
                self.mark_session_stopping(session_id);
                self.set_session_status(
                    session_id,
                    SessionStatus::Finalizing,
                    "Stopping recorder",
                    now_ms,
                );
                let emit_stopped = self.swap_recording(false);
                let revision = self.next_live_preedit_revision();
                self.clear_live_preedit(session_id, revision);
                StopRequest::Stop { binding_id: binding_id_for_session(session_id), emit_stopped }
            },
            _ => StopRequest::Rejected,
        }
    }

    /// Records that the recorder has stopped for `session_id`, with or
    /// without samples, and returns the answer to the stop request.
    ///
    /// With samples the answer is `true` and the session waits to be
    /// finalized. Without, the answer is `false`, and a session that was
    /// being finalized fails.
    pub fn stop_recording_internal(&mut self, session_id: u64, has_samples: bool, now_ms: u64) -> (acknowledged:
        bool)
        requires
            old(self).wf(),
        ensures
            final(self).wf(),
            acknowledged == has_samples,
            final(self)@ == if has_samples {
                old(self)@
            } else {
                after_stop_without_samples(old(self)@, session_id, now_ms)
            },
    {
        if has_samples {
            return true;
        }
        let finalizing = match self.session_status(session_id) {
            Some(status) => status.0 == SessionStatus::Finalizing,
            None => false,
        };
        if finalizing {
            self.set_session_status(
                session_id,
                SessionStatus::Failed,
                "Stop requested for inactive recording session",
                now_ms,
            );
            self.clear_session_stopping(session_id);
        }
        false
    }

    /// Finalizes `session_id` at `now_ms` with what became of its samples.
    ///
    /// A session that is being finalized becomes `Ready`, with its text
    /// queued for delivery unless the text is blank, or fails with the
    /// transcriber's message. Its stopping flag goes down. For any other
    /// session nothing changes.
    pub fn finalize_stop_recording(
        &mut self,
        session_id: u64,
        transcription: Transcription,
        now_ms: u64,
    ) -> (signal: FinalizeSignal)
        requires
            old(self).wf(),
        ensures
            final(self).wf(),
            final(self)@ == after_finalize(old(self)@, session_id, transcription, now_ms),
            match signal {
                FinalizeSignal::Stale => !in_status(
                    old(self)@,
                    session_id,
                    SessionStatus::Finalizing,
                ),
                FinalizeSignal::TranscriptionReady(text) => {
                    &&& in_status(old(self)@, session_id, SessionStatus::Finalizing)
                    &&& match transcription {
                        Transcription::NoSpeech => text@ == Seq::<char>::empty(),
                        Transcription::Text(said) => text@ == said@,
                        Transcription::Failed(_) => false,
                    }
                },
                FinalizeSignal::Error(message) => {
                    &&& in_status(old(self)@, session_id, SessionStatus::Finalizing)
                    &&& match transcription {
                        Transcription::Failed(err) => message@ == "Transcription failed: "@ + err@,
                        _ => false,
                    }
                },
            },
    {
        let finalizing = match self.session_status(session_id) {
            Some(status) => status.0 == SessionStatus::Finalizing,
            None => false,
        };
        if !finalizing {
            return FinalizeSignal::Stale;
        }
        match transcription {
            Transcription::NoSpeech => {
                self.set_session_status(
                    session_id,
                    SessionStatus::Ready,
                    "No speech detected",
                    now_ms,
                );
                self.clear_session_stopping(session_id);
                FinalizeSignal::TranscriptionReady(String::new())
            },
            Transcription::Text(text) => {
                if !str_is_blank(text.as_str()) {
                    self.store_pending_commit(session_id, text.clone(), now_ms);
                }
                self.set_session_status(
                    session_id,
                    SessionStatus::Ready,
                    "Transcription ready",
                    now_ms,
                );
                self.clear_session_stopping(session_id);
                FinalizeSignal::TranscriptionReady(text)
            },
            Transcription::Failed(err) => {
                let message = String::from_str("Transcription failed: ").concat(err.as_str());
                self.set_session_status(
                    session_id,
                    SessionStatus::Failed,
                    message.as_str(),
                    now_ms,
                );
                self.clear_session_stopping(session_id);
                FinalizeSignal::Error(message)
            },
        }
    }

    /// Gives up `session_id` at `now_ms` for a fault inside the daemon. A
    /// session whose status is final keeps it.
    pub fn fail_session(&mut self, session_id: u64, message: &str, now_ms: u64)
        requires
            old(self).wf(),
        ensures
            final(self).wf(),
            final(self)@ == after_failure(old(self)@, session_id, message@, now_ms),
    {
        let live = match self.session_status(session_id) {
            Some(status) => !status.0.terminal(),
            None => false,
        };
        if live {
            self.set_session_status(session_id, SessionStatus::Failed, message, now_ms);
            self.clear_session_stopping(session_id);
        }
    }

    /// Cancels `session_id` at `now_ms`.
    ///
    /// Sessions that are due are removed. A session whose status is not
    /// final is cancelled: its live preview is cleared at a fresh revision,
    /// its stopping flag goes down, and a running recording is dropped. A
    /// session that does not exist or has ended is answered with `false`
    /// and keeps its status.
    pub fn cancel_recording_session(&mut self, session_id: u64, now_ms: u64) -> (reply: CancelReply)
        requires
            old(self).wf(),
        ensures
            final(self).wf(),
            final(self)@ == after_cancel(old(self)@, session_id, now_ms),
            reply.cancelled == is_live(
                (DiktModel { sessions: swept(old(self)@.sessions, now_ms), ..old(self)@ }),
                session_id,
            ),
            reply.stop_recorder == (reply.cancelled && old(self)@.recording),
    {
        self.cleanup_expired_sessions(now_ms);
        let live = match self.session_status(session_id) {
            Some(status) => !status.0.terminal(),
            None => false,
        };
        if !live {
            return CancelReply { cancelled: false, stop_recorder: false };
        }
        self.set_session_status(session_id, SessionStatus::Cancelled, "Session cancelled", now_ms);
        self.clear_session_stopping(session_id);
        let revision = self.next_live_preedit_revision();
        self.clear_live_preedit(session_id, revision);
        let was_recording = self.swap_recording(false);
        CancelReply { cancelled: true, stop_recorder: was_recording }
    }

    /// The status of `session_id` at `now_ms`: its name, its message and
    /// the time of its last change. `("missing", "Session not found", 0)` if
    /// the session does not exist or was removed as due.
    pub fn get_session_status(&mut self, session_id: u64, now_ms: u64) -> (status: (
        String,
        String,
        u64,
    ))
        requires
            old(self).wf(),
        ensures
            final(self).wf(),
            final(self)@ == (DiktModel {
                sessions: swept(old(self)@.sessions, now_ms),
                ..old(self)@
            }),
            ({
                let live = swept(old(self)@.sessions, now_ms);
                if live.contains_key(session_id) {
                    &&& status.0@ == live[session_id].status.name()
                    &&& status.1@ == live[session_id].status_message
                    &&& status.2 == live[session_id].updated_ms
                } else {
                    &&& status.0@ == "missing"@
                    &&& status.1@ == "Session not found"@
                    &&& status.2 == 0
                }
            }),
    {
        self.cleanup_expired_sessions(now_ms);
        match self.session_status(session_id) {
            Some(status) => (String::from_str(status.0.as_str()), status.1, status.2),
            None => (String::from_str("missing"), String::from_str("Session not found"), 0),
        }
    }
}

/// Whether the lifecycle lets a session move from `from` to `to`.
pub open spec fn lifecycle_allows(from: SessionStatus, to: SessionStatus) -> bool {
    match (from, to) {
        (SessionStatus::Created, SessionStatus::Starting) => true,
        (SessionStatus::Starting, SessionStatus::Recording) => true,
        (SessionStatus::Recording, SessionStatus::Finalizing) => true,
        (SessionStatus::Finalizing, SessionStatus::Ready) => true,
        (SessionStatus::Ready, SessionStatus::Committed) => true,
        (_, SessionStatus::Cancelled) => !from.is_terminal(),
        (_, SessionStatus::Failed) => !from.is_terminal(),
        _ => false,
    }
}

/// Whether every session of `after` was a session of `before` and has kept
/// its status or moved as the lifecycle allows.
pub open spec fn follows_lifecycle(before: DiktModel, after: DiktModel) -> bool {
    forall|id: u64| #[trigger]
        after.sessions.contains_key(id) ==> before.sessions.contains_key(id) && (
        after.sessions[id].status == before.sessions[id].status || lifecycle_allows(
            before.sessions[id].status,
            after.sessions[id].status,
        ))
}

/// The recorder's answer to a start moves sessions only as the lifecycle
/// allows.
pub proof fn start_result_follows_lifecycle(
    state: DiktModel,
    session_id: u64,
    outcome: StartOutcome,
    preview_enabled: bool,
    now_ms: u64,
)
    ensures
        follows_lifecycle(
            state,
            after_start_result(state, session_id, outcome, preview_enabled, now_ms),
        ),
{
}

/// A request to stop moves sessions only as the lifecycle allows.
pub proof fn stop_request_follows_lifecycle(state: DiktModel, session_id: u64, now_ms: u64)
    ensures
        follows_lifecycle(state, after_stop_request(state, session_id, now_ms)),
{
}

/// A stop without samples moves sessions only as the lifecycle allows.
pub proof fn stop_without_samples_follows_lifecycle(state: DiktModel, session_id: u64, now_ms: u64)
    ensures
        follows_lifecycle(state, after_stop_without_samples(state, session_id, now_ms)),
{
}

/// Finalizing moves sessions only as the lifecycle allows.
pub proof fn finalize_follows_lifecycle(
    state: DiktModel,
    session_id: u64,
    transcription: Transcription,
    now_ms: u64,
)
    ensures
        follows_lifecycle(state, after_finalize(state, session_id, transcription, now_ms)),
{
}

/// A request to cancel moves sessions only as the lifecycle allows, and
/// leaves a session that has ended in its status.
pub proof fn cancel_follows_lifecycle(state: DiktModel, session_id: u64, now_ms: u64)
    ensures
        follows_lifecycle(state, after_cancel(state, session_id, now_ms)),
{
}

/// A fault inside the daemon moves sessions only as the lifecycle allows.
pub proof fn failure_follows_lifecycle(
    state: DiktModel,
    session_id: u64,
    message: Seq<char>,
    now_ms: u64,
)
    ensures
        follows_lifecycle(state, after_failure(state, session_id, message, now_ms)),
{
}

/// The delivery of a commit moves sessions only as the lifecycle allows.
pub proof fn delivery_follows_lifecycle(state: DiktModel, session_id: u64, now_ms: u64)
    ensures
        follows_lifecycle(
            state,
            (DiktModel { sessions: with_delivery(state.sessions, session_id, now_ms), ..state }),
        ),
{
}

/// A cancelled session's live preview is hidden and empty afterwards, as
/// long as the revisions stored for it lie below the next one.
pub proof fn cancel_hides_preview(state: DiktModel, session_id: u64, now_ms: u64)
    requires
        session_id != 0,
        is_live((DiktModel { sessions: swept(state.sessions, now_ms), ..state }), session_id),
        state.previews.contains_key(session_id) ==> state.previews[session_id].revision
            < state.upcoming_revision,
    ensures
        after_cancel(state, session_id, now_ms).previews[session_id] == hidden_preview(
            state.upcoming_revision,
        ),
        after_cancel(state, session_id, now_ms).sessions[session_id].status
            == SessionStatus::Cancelled,
        !after_cancel(state, session_id, now_ms).sessions[session_id].stopping,
{
}

} // verus!
