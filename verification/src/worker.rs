//! The decisions of the live preview worker of one recording session.
//!
//! The worker polls: each tick it checks whether it is still wanted, takes a
//! snapshot of the audio recorded so far, has it transcribed, merges the
//! text into its running transcript and publishes the result as the
//! session's live preview. Sleeping, recording and transcribing happen
//! outside this library; what to do before and after each of them is
//! decided here.

use vstd::prelude::*;
use vstd::string::StringExecFns;
use crate::facade::with_preview_cleared;
use crate::merge::{merge_live_transcript, merged};
use crate::preview::{previews_after_write, LivePreeditModel};
use crate::session::{revision_after, DiktModel, DiktState};
use crate::strings::{str_eq, trim, trimmed};
use crate::variants::{convert_chinese_variant, in_variant};

verus! {

/// The time between two ticks, in milliseconds.
pub const LIVE_PREEDIT_POLL_MS: u64 = 600;

/// The number of new samples below which a snapshot is not transcribed
/// again.
pub const LIVE_PREEDIT_MIN_NEW_SAMPLES: usize = 3200;

/// The number of samples below which a snapshot is not transcribed.
pub const LIVE_PREEDIT_MIN_TOTAL_SAMPLES: usize = 8000;

/// The number of samples that a snapshot holds at most.
pub const LIVE_PREEDIT_MAX_WINDOW_SAMPLES: usize = 128000;

/// Every how many missed snapshots in a row a miss is reported.
pub const LIVE_PREEDIT_SNAPSHOT_WARN_EVERY: u64 = 10;

/// What the worker of one session remembers between ticks.
pub struct LivePreeditWorker {
    /// The session that the worker belongs to.
    pub session_id: u64,
    /// The target that the session was bound to when the worker started.
    pub target_engine_id: u64,
    /// The length of the snapshot that was transcribed last, 0 before the
    /// first.
    pub last_snapshot_len: usize,
    /// How many snapshots in a row were missed.
    pub snapshot_failure_streak: u64,
    /// The text that was published last.
    pub published_text: String,
    /// The window that was merged last.
    pub last_window_text: String,
    /// The running transcript.
    pub accumulated_text: String,
}

/// What a worker remembers, as plain values.
pub struct WorkerModel {
    pub session_id: u64,
    pub target_engine_id: u64,
    pub last_snapshot_len: usize,
    pub snapshot_failure_streak: u64,
    pub published_text: Seq<char>,
    pub last_window_text: Seq<char>,
    pub accumulated_text: Seq<char>,
}

impl View for LivePreeditWorker {
    type V = WorkerModel;

    open spec fn view(&self) -> WorkerModel {
        WorkerModel {
            session_id: self.session_id,
            target_engine_id: self.target_engine_id,
            last_snapshot_len: self.last_snapshot_len,
            snapshot_failure_streak: self.snapshot_failure_streak,
            published_text: self.published_text@,
            last_window_text: self.last_window_text@,
            accumulated_text: self.accumulated_text@,
        }
    }
}

/// Whether a requested stop of the worker's session is being carried out.
/// The worker goes on through it, whatever else has changed.
pub open spec fn in_grace(state: DiktModel, worker: WorkerModel) -> bool {
    state.sessions.contains_key(worker.session_id) && state.sessions[worker.session_id].stopping
}

/// Whether the worker's session is still bound to the worker's target.
pub open spec fn still_bound(state: DiktModel, worker: WorkerModel) -> bool {
    state.sessions.contains_key(worker.session_id) && state.sessions[worker.session_id].target_id
        == worker.target_engine_id
}

/// Whether the worker goes into another tick.
pub open spec fn goes_on(state: DiktModel, worker: WorkerModel, preview_enabled: bool) -> bool {
    preview_enabled && (in_grace(state, worker) || (state.recording && still_bound(state, worker)))
}

/// Whether the worker, having missed a snapshot, tries again.
pub open spec fn retries(state: DiktModel, worker: WorkerModel) -> bool {
    in_grace(state, worker) || (state.recording && still_bound(state, worker))
}

/// Whether a snapshot of `samples` samples is worth transcribing: it is
/// long enough, and long enough beyond the one that was transcribed last.
pub open spec fn worth_transcribing(last_snapshot_len: usize, samples: usize) -> bool {
    samples >= LIVE_PREEDIT_MIN_TOTAL_SAMPLES && !(last_snapshot_len > 0 && samples
        - last_snapshot_len < LIVE_PREEDIT_MIN_NEW_SAMPLES)
}

/// The running transcript after `window` came in.
pub open spec fn accumulated_after(worker: WorkerModel, window: Seq<char>) -> Seq<char> {
    if worker.accumulated_text.len() == 0 {
        window
    } else {
        merged(worker.accumulated_text, worker.last_window_text, window)
    }
}

/// What a missed snapshot leads to.
#[derive(Clone, Copy, Debug, PartialEq, Eq, Structural)]
pub enum SnapshotMiss {
    /// The session has ended: the worker leaves its loop.
    Exit,
    /// The worker keeps the preview and tries again at the next tick;
    /// `report` says whether this miss is worth a line in the log.
    Retry { report: bool },
}

/// What to do with a snapshot.
#[derive(Clone, Copy, Debug, PartialEq, Eq, Structural)]
pub struct SnapshotUse {
    /// How many snapshots were missed in a row before this one.
    pub recovered_after: u64,
    /// Whether the snapshot is to be transcribed.
    pub transcribe: bool,
}

impl LivePreeditWorker {
    /// The worker of `session_id`, bound to `target_engine_id`, before its
    /// first tick.
    pub fn new(session_id: u64, target_engine_id: u64) -> (worker: Self)
        ensures
            worker@ == (WorkerModel {
                session_id,
                target_engine_id,
                last_snapshot_len: 0,
                snapshot_failure_streak: 0,
                published_text: Seq::empty(),
                last_window_text: Seq::empty(),
                accumulated_text: Seq::empty(),
            }),
    {
        LivePreeditWorker {
            session_id,
            target_engine_id,
            last_snapshot_len: 0,
            snapshot_failure_streak: 0,
            published_text: String::new(),
            last_window_text: String::new(),
            accumulated_text: String::new(),
        }
    }

    /// Decides at the start of a tick whether the worker goes on.
    ///
    /// It goes on while previews are enabled and either the session's stop
    /// is being carried out, or a recording runs and the session is still
    /// bound to the worker's target. Where previews were switched off, a
    /// published preview is cleared at a fresh revision at once.
    pub fn begin_tick(&mut self, state: &mut DiktState, preview_enabled: bool) -> (go_on: bool)
        ensures
            go_on == goes_on(old(state)@, old(self)@, preview_enabled),
            final(state)@ == if !preview_enabled && old(self)@.published_text.len() > 0 {
                with_preview_cleared(old(state)@, old(self)@.session_id)
            } else {
                old(state)@
            },
            final(self)@ == if !preview_enabled {
                WorkerModel { published_text: Seq::empty(), ..old(self)@ }
            } else {
                old(self)@
            },
            old(state).wf() ==> final(state).wf(),
    {
        if !preview_enabled {
            if !self.published_text.as_str().is_empty() {
                let revision = state.next_live_preedit_revision();
                state.clear_live_preedit(self.session_id, revision);
                self.published_text = String::new();
            }
            assert(self@.published_text =~= Seq::<char>::empty());
            return false;
        }
        let session_stopping = state.session_is_stopping(self.session_id);
        if !state.is_recording() && !session_stopping {
            return false;
        }
        let current_target = state.session_binding(self.session_id);
        if !session_stopping && current_target != Some(self.target_engine_id) {
            return false;
        }
        true
    }

    /// Decides what follows a tick without a snapshot.
    ///
    /// A miss is not fatal while the session lasts: the worker counts it and
    /// tries again. The first miss of a streak and every tenth are worth
    /// reporting.
    pub fn snapshot_missing(&mut self, state: &DiktState) -> (miss: SnapshotMiss)
        ensures
            ({
                let streak = final(self)@.snapshot_failure_streak;
                miss == if retries(state@, old(self)@) {
                    SnapshotMiss::Retry {
                        report: streak == 1 || streak % LIVE_PREEDIT_SNAPSHOT_WARN_EVERY == 0,
                    }
                } else {
                    SnapshotMiss::Exit
                }
            }),
            final(self)@ == if retries(state@, old(self)@) {
                WorkerModel {
                    snapshot_failure_streak: if old(self)@.snapshot_failure_streak == u64::MAX {
                        u64::MAX
                    } else {
                        (old(self)@.snapshot_failure_streak + 1) as u64
                    },
                    ..old(self)@
                }
            } else {
                old(self)@
            },
    {
        if !state.session_is_stopping(self.session_id) && (state.session_binding(self.session_id)
            != Some(self.target_engine_id) || !state.is_recording()) {
            return SnapshotMiss::Exit;
        }
        self.snapshot_failure_streak = self.snapshot_failure_streak.saturating_add(1);
        let report = self.snapshot_failure_streak == 1 || self.snapshot_failure_streak
            % LIVE_PREEDIT_SNAPSHOT_WARN_EVERY == 0;
        SnapshotMiss::Retry { report }
    }

    /// Decides whether a snapshot of `samples` samples is transcribed, and
    /// ends a streak of misses.
    pub fn snapshot_taken(&mut self, samples: usize) -> (usage: SnapshotUse)
        ensures
            usage.recovered_after == old(self)@.snapshot_failure_streak,
            usage.transcribe == worth_transcribing(old(self)@.last_snapshot_len, samples),
            final(self)@ == (WorkerModel {
                snapshot_failure_streak: 0,
                last_snapshot_len: if usage.transcribe {
                    samples
                } else {
                    old(self)@.last_snapshot_len
                },
                ..old(self)@
            }),
    {
        let recovered_after = self.snapshot_failure_streak;
        self.snapshot_failure_streak = 0;
        if samples < LIVE_PREEDIT_MIN_TOTAL_SAMPLES {
            return SnapshotUse { recovered_after, transcribe: false };
        }
        if self.last_snapshot_len > 0 && samples.saturating_sub(self.last_snapshot_len)
            < LIVE_PREEDIT_MIN_NEW_SAMPLES {
            return SnapshotUse { recovered_after, transcribe: false };
        }
        self.last_snapshot_len = samples;
        SnapshotUse { recovered_after, transcribe: true }
    }

    /// Takes the transcript of the latest snapshot: converts it to the
    /// variant of the selected language, trims it, merges it into the
    /// running transcript and publishes the result at a fresh revision if it
    /// differs from what was published last.
    ///
    /// Returns whether the worker goes on. It leaves, with nothing changed,
    /// if the session is no longer bound to its target and no stop is being
    /// carried out. A blank transcript changes nothing.
    pub fn transcribed(&mut self, state: &mut DiktState, text: &str) -> (go_on: bool)
        ensures
            go_on == (in_grace(old(state)@, old(self)@) || still_bound(old(state)@, old(self)@)),
            ({
                let window = trimmed(in_variant(text@, old(state)@.language));
                let was = old(self)@;
                let merged_text = accumulated_after(was, window);
                if !go_on || window.len() == 0 {
                    &&& final(self)@ == was
                    &&& final(state)@ == old(state)@
                } else {
                    &&& final(self)@ == (WorkerModel {
                        accumulated_text: merged_text,
                        last_window_text: window,
                        published_text: merged_text,
                        ..was
                    })
                    &&& final(state)@ == if merged_text == was.published_text {
                        old(state)@
                    } else {
                        DiktModel {
                            previews: if was.session_id == 0 {
                                old(state)@.previews
                            } else {
                                previews_after_write(
                                    old(state)@.previews,
                                    was.session_id,
                                    (LivePreeditModel {
                                        revision: old(state)@.upcoming_revision,
                                        visible: true,
                                        text: merged_text,
                                    }),
                                )
                            },
                            upcoming_revision: revision_after(old(state)@.upcoming_revision),
                            ..old(state)@
                        }
                    }
                }
            }),
            old(state).wf() ==> final(state).wf(),
    {
        let current_target = state.session_binding(self.session_id);
        if !state.session_is_stopping(self.session_id) && current_target != Some(
            self.target_engine_id,
        ) {
            return false;
        }
        let converted = convert_chinese_variant(text, state.selected_language().as_str());
        let live_text = trim(converted.as_str());
        if live_text.is_empty() {
            return true;
        }
        let accumulated = if self.accumulated_text.as_str().is_empty() {
            String::from_str(live_text)
        } else {
            merge_live_transcript(
                self.accumulated_text.as_str(),
                self.last_window_text.as_str(),
                live_text,
            )
        };
        self.last_window_text = String::from_str(live_text);
        if !str_eq(accumulated.as_str(), self.published_text.as_str()) {
            let revision = state.next_live_preedit_revision();
            state.set_live_preedit(self.session_id, revision, accumulated.clone());
            self.published_text = accumulated.clone();
        }
        self.accumulated_text = accumulated;
        true
    }

    /// Ends the worker: a published preview is cleared at a fresh revision,
    /// unless the session's stop is being carried out, which clears it
    /// itself.
    pub fn finish(&self, state: &mut DiktState)
        ensures
            final(state)@ == if self@.published_text.len() > 0 && !in_grace(old(state)@, self@) {
                with_preview_cleared(old(state)@, self@.session_id)
            } else {
                old(state)@
            },
            old(state).wf() ==> final(state).wf(),
    {
        if !self.published_text.as_str().is_empty() && !state.session_is_stopping(self.session_id) {
            let revision = state.next_live_preedit_revision();
            state.clear_live_preedit(self.session_id, revision);
        }
    }
}

} // verus!
