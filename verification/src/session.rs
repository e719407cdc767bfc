//! The daemon's sessions: one per recording attempt, from its creation to
//! the delivery of its transcript.
//!
//! A session is bound to the target that it was started for and carries the
//! claim token that reads and consumes its output. Its status moves along
//! `Created → Starting → Recording → Finalizing → Ready → Committed`; it can
//! be cancelled until it is finalized, and can fail from any status that is
//! not final. Sessions in a final status are removed five minutes after their
//! last change.

use std::collections::HashMap;
use vstd::prelude::*;
use vstd::std_specs::hash::*;
use vstd::std_specs::iter::IteratorSpec;
use vstd::string::StringExecFns;
use crate::claims::ClaimTokenAuthority;
use crate::claims::claim_token_text;
use crate::numerals::lemma_hex_text_len;
use crate::focus::FocusTracker;
use crate::focus::focus_after;
use crate::pending::{
    first_claimed, lemma_first_claimed_from, queue_after_store, dropped_after_store,
    PendingCommitModel, PendingCommitStats, PendingCommitStore, MAX_PENDING_COMMIT_QUEUE,
    count_for_session, oldest_age,
};
use crate::preview::{
    preview_of, previews_after_write, no_preview, LivePreeditModel, LivePreeditStore,
};
use crate::strings::str_eq;

verus! {

/// How long a session in a final status is kept, in milliseconds.
pub const SESSION_TTL_MS: u64 = 300000;

/// Where a session stands.
#[derive(Clone, Copy, Debug, PartialEq, Eq, Structural)]
pub enum SessionStatus {
    Created,
    Starting,
    Recording,
    Finalizing,
    Ready,
    Committed,
    Failed,
    Cancelled,
}

impl SessionStatus {
    /// Whether nothing but delivery can follow: such a session is removed
    /// once it is old enough.
    pub open spec fn is_terminal(self) -> bool {
        self == SessionStatus::Ready || self == SessionStatus::Failed || self
            == SessionStatus::Cancelled || self == SessionStatus::Committed
    }

    /// The rank of a status in the choice of a target's active session:
    /// recording before finalizing before ready; 0 for the others, which are
    /// never chosen.
    pub open spec fn priority(self) -> nat {
        match self {
            SessionStatus::Recording => 3,
            SessionStatus::Finalizing => 2,
            SessionStatus::Ready => 1,
            _ => 0,
        }
    }

    /// The name of the status on the wire.
    pub open spec fn name(self) -> Seq<char> {
        match self {
            SessionStatus::Created => "created"@,
            SessionStatus::Starting => "starting"@,
            SessionStatus::Recording => "recording"@,
            SessionStatus::Finalizing => "finalizing"@,
            SessionStatus::Ready => "ready"@,
            SessionStatus::Committed => "committed"@,
            SessionStatus::Failed => "failed"@,
            SessionStatus::Cancelled => "cancelled"@,
        }
    }

    /// Whether the status is final.
    pub fn terminal(self) -> (r: bool)
        ensures
            r == self.is_terminal(),
    {
        match self {
            SessionStatus::Ready
            | SessionStatus::Failed
            | SessionStatus::Cancelled
            | SessionStatus::Committed => true,
            _ => false,
        }
    }

    /// The rank of the status among a target's sessions.
    pub fn rank(self) -> (r: u8)
        ensures
            r == self.priority(),
    {
        match self {
            SessionStatus::Recording => 3,
            SessionStatus::Finalizing => 2,
            SessionStatus::Ready => 1,
            _ => 0,
        }
    }

    /// The name of the status on the wire.
    pub fn as_str(self) -> (s: &'static str)
        ensures
            s@ == self.name(),
    {
        match self {
            SessionStatus::Created => "created",
            SessionStatus::Starting => "starting",
            SessionStatus::Recording => "recording",
            SessionStatus::Finalizing => "finalizing",
            SessionStatus::Ready => "ready",
            SessionStatus::Committed => "committed",
            SessionStatus::Failed => "failed",
            SessionStatus::Cancelled => "cancelled",
        }
    }
}

/// One recording attempt.
pub struct Session {
    /// The target that the transcript is for; never 0.
    pub target_id: u64,
    /// The secret that reads and consumes the session's output.
    pub claim_token: String,
    pub status: SessionStatus,
    pub status_message: String,
    /// The time of the last change of status.
    pub updated_ms: u64,
    /// Set while a requested stop is being carried out: the live preview of
    /// the session goes on until the stop is through.
    pub stopping: bool,
}

/// What a session holds, as plain values.
pub struct SessionModel {
    pub target_id: u64,
    pub claim_token: Seq<char>,
    pub status: SessionStatus,
    pub status_message: Seq<char>,
    pub updated_ms: u64,
    pub stopping: bool,
}

impl View for Session {
    type V = SessionModel;

    open spec fn view(&self) -> SessionModel {
        SessionModel {
            target_id: self.target_id,
            claim_token: self.claim_token@,
            status: self.status,
            status_message: self.status_message@,
            updated_ms: self.updated_ms,
            stopping: self.stopping,
        }
    }
}

/// Whether a session is due for removal at `now_ms`: its status is final and
/// its last change lies more than five minutes back.
pub open spec fn is_expired(session: SessionModel, now_ms: u64) -> bool {
    session.status.is_terminal() && now_ms - session.updated_ms > SESSION_TTL_MS
}

/// The sessions that a sweep at `now_ms` leaves.
pub open spec fn swept(sessions: Map<u64, SessionModel>, now_ms: u64) -> Map<u64, SessionModel> {
    Map::new(
        |id: u64| sessions.contains_key(id) && !is_expired(sessions[id], now_ms),
        |id: u64| sessions[id],
    )
}

/// The sessions after `session_id` got a new status at `now_ms`. A session
/// that does not exist gets none.
pub open spec fn with_status(
    sessions: Map<u64, SessionModel>,
    session_id: u64,
    status: SessionStatus,
    message: Seq<char>,
    now_ms: u64,
) -> Map<u64, SessionModel> {
    if sessions.contains_key(session_id) {
        sessions.insert(
            session_id,
            SessionModel {
                status,
                status_message: message,
                updated_ms: now_ms,
                ..sessions[session_id]
            },
        )
    } else {
        sessions
    }
}

/// The sessions after the stopping flag of `session_id` was set or cleared.
pub open spec fn with_stopping(
    sessions: Map<u64, SessionModel>,
    session_id: u64,
    stopping: bool,
) -> Map<u64, SessionModel> {
    if sessions.contains_key(session_id) {
        sessions.insert(session_id, SessionModel { stopping, ..sessions[session_id] })
    } else {
        sessions
    }
}

/// Whether `session_id` is bound to `engine_id` and in a status that can be
/// a target's active session.
pub open spec fn is_candidate(sessions: Map<u64, SessionModel>, engine_id: u64, session_id: u64) -> bool {
    sessions.contains_key(session_id) && sessions[session_id].target_id == engine_id
        && sessions[session_id].status.priority() > 0
}

/// Whether session `a` comes before session `b` in the choice of the active
/// session: by status, then by the later change, then by the higher id.
pub open spec fn outranks(a_id: u64, a: SessionModel, b_id: u64, b: SessionModel) -> bool {
    let pa = a.status.priority();
    let pb = b.status.priority();
    pa > pb || (pa == pb && a.updated_ms > b.updated_ms) || (pa == pb && a.updated_ms
        == b.updated_ms && a_id > b_id)
}

/// Whether `session_id` is the active session of `engine_id`: a candidate
/// that comes before every other candidate.
pub open spec fn is_active_session(
    sessions: Map<u64, SessionModel>,
    engine_id: u64,
    session_id: u64,
) -> bool {
    &&& is_candidate(sessions, engine_id, session_id)
    &&& forall|other: u64|
        other != session_id && #[trigger] is_candidate(sessions, engine_id, other) ==> outranks(
            session_id,
            sessions[session_id],
            other,
            sessions[other],
        )
}

/// Why a session could not be created.
#[derive(Clone, Copy, Debug, PartialEq, Eq, Structural)]
pub enum SessionError {
    /// The target id was 0.
    InvalidTarget,
    /// Every session id or every nonce has been issued.
    Exhausted,
}

/// The daemon's shared state: sessions, pending commits, live previews, the
/// focused target, the language and whether a recording runs.
pub struct DiktState {
    selected_language: String,
    is_recording: bool,
    authority: ClaimTokenAuthority,
    sessions: HashMap<u64, Session>,
    pending_commit: PendingCommitStore,
    live_preedit: LivePreeditStore,
    live_preedit_revision: u64,
    focus: FocusTracker,
}

/// What the daemon's state holds, as plain values.
pub struct DiktModel {
    /// The sessions, by id.
    pub sessions: Map<u64, SessionModel>,
    /// The pending commits, oldest first.
    pub pending: Seq<PendingCommitModel>,
    /// How many pending commits were dropped so far.
    pub dropped: u64,
    /// The live previews, by session id.
    pub previews: Map<u64, LivePreeditModel>,
    /// The revision that the next write of a live preview gets.
    pub upcoming_revision: u64,
    /// The id that the next session gets.
    pub upcoming_session_id: u64,
    /// The nonce that the next claim token holds.
    pub upcoming_nonce: u64,
    /// The focused target and the time of its last change.
    pub focus: FocusTracker,
    /// Whether a recording runs.
    pub recording: bool,
    /// The selected language.
    pub language: Seq<char>,
}

impl View for DiktState {
    type V = DiktModel;

    closed spec fn view(&self) -> DiktModel {
        DiktModel {
            sessions: self.sessions@.map_values(|s: Session| s@),
            pending: self.pending_commit.entries(),
            dropped: self.pending_commit.dropped(),
            previews: self.live_preedit.previews(),
            upcoming_revision: self.live_preedit_revision,
            upcoming_session_id: self.authority.upcoming_session_id(),
            upcoming_nonce: self.authority.upcoming_nonce(),
            focus: self.focus,
            recording: self.is_recording,
            language: self.selected_language@,
        }
    }
}

/// The number of characters of a claim token.
pub const CLAIM_TOKEN_LEN: usize = 48;

/// What holds of the daemon's state between calls: the queue is within its
/// capacity; session ids start at 1; a session's id was issued, its target
/// is not 0 and its claim token has 48 characters;
/// every pending commit belongs to an id that was issued and, while its
/// session exists, carries that session's claim token.
pub open spec fn consistent(state: DiktModel) -> bool {
    &&& state.pending.len() <= MAX_PENDING_COMMIT_QUEUE
    &&& state.upcoming_session_id > 0
    &&& forall|id: u64| #[trigger]
        state.sessions.contains_key(id) ==> 0 < id < state.upcoming_session_id
            && state.sessions[id].target_id != 0 && state.sessions[id].claim_token.len()
            == CLAIM_TOKEN_LEN
    &&& forall|i: int|
        0 <= i < state.pending.len() ==> (#[trigger] state.pending[i]).session_id
            < state.upcoming_session_id
    &&& forall|i: int|
        0 <= i < state.pending.len() && state.sessions.contains_key(
            (#[trigger] state.pending[i]).session_id,
        ) ==> state.pending[i].claim_token == state.sessions[state.pending[i].session_id].claim_token
}

/// The session that `create_session` adds.
pub open spec fn created_session(target_id: u64, claim_token: Seq<char>, now_ms: u64) -> SessionModel {
    SessionModel {
        target_id,
        claim_token,
        status: SessionStatus::Created,
        status_message: "Session created"@,
        updated_ms: now_ms,
        stopping: false,
    }
}

/// The revision after `revision`; it wraps at the end of its type.
pub open spec fn revision_after(revision: u64) -> u64 {
    if revision == u64::MAX {
        0
    } else {
        (revision + 1) as u64
    }
}

impl DiktState {
    /// Whether the state is as every call leaves it.
    pub closed spec fn wf(&self) -> bool {
        self.pending_commit.wf() && consistent(self@)
    }

    /// A well-formed state is consistent.
    pub proof fn lemma_wf(&self)
        requires
            self.wf(),
        ensures
            consistent(self@),
    {
    }

    /// The state of a daemon that has just started at `now_ms`: no session,
    /// nothing pending, no preview, no target focused, no recording.
    pub fn new(selected_language: String, now_ms: u64) -> (state: Self)
        ensures
            state.wf(),
            state@ == (DiktModel {
                sessions: Map::empty(),
                pending: Seq::empty(),
                dropped: 0,
                previews: Map::empty(),
                upcoming_revision: 1,
                upcoming_session_id: 1,
                upcoming_nonce: 1,
                focus: FocusTracker { focused_engine_id: 0, last_change_ms: now_ms },
                recording: false,
                language: selected_language@,
            }),
    {
        let state = DiktState {
            selected_language,
            is_recording: false,
            authority: ClaimTokenAuthority::new(),
            sessions: HashMap::new(),
            pending_commit: PendingCommitStore::new(),
            live_preedit: LivePreeditStore::new(),
            live_preedit_revision: 1,
            focus: FocusTracker::new(now_ms),
        };
        assert(state@.sessions =~= Map::<u64, SessionModel>::empty());
        state
    }

    /// The state of a daemon that has just started at `now_ms` and issues
    /// ids and claim tokens from `authority`.
    pub fn with_authority(authority: ClaimTokenAuthority, selected_language: String, now_ms: u64) -> (state:
        Self)
        requires
            authority.upcoming_session_id() > 0,
        ensures
            state.wf(),
            state@ == (DiktModel {
                sessions: Map::empty(),
                pending: Seq::empty(),
                dropped: 0,
                previews: Map::empty(),
                upcoming_revision: 1,
                upcoming_session_id: authority.upcoming_session_id(),
                upcoming_nonce: authority.upcoming_nonce(),
                focus: FocusTracker { focused_engine_id: 0, last_change_ms: now_ms },
                recording: false,
                language: selected_language@,
            }),
    {
        let state = DiktState {
            selected_language,
            is_recording: false,
            authority,
            sessions: HashMap::new(),
            pending_commit: PendingCommitStore::new(),
            live_preedit: LivePreeditStore::new(),
            live_preedit_revision: 1,
            focus: FocusTracker::new(now_ms),
        };
        assert(state@.sessions =~= Map::<u64, SessionModel>::empty());
        state
    }

    /// Whether a recording runs.
    pub fn is_recording(&self) -> (r: bool)
        ensures
            r == self@.recording,
    {
        self.is_recording
    }

    /// Records whether a recording runs, and returns what was recorded
    /// before.
    pub fn swap_recording(&mut self, recording: bool) -> (was: bool)
        ensures
            was == old(self)@.recording,
            final(self)@ == (DiktModel { recording, ..old(self)@ }),
            old(self).wf() ==> final(self).wf(),
    {
        let was = self.is_recording;
        self.is_recording = recording;
        was
    }

    /// The selected language.
    pub fn selected_language(&self) -> (language: String)
        ensures
            language@ == self@.language,
    {
        self.selected_language.clone()
    }

    /// Selects a language.
    pub fn set_selected_language(&mut self, language: String)
        ensures
            final(self)@ == (DiktModel { language: language@, ..old(self)@ }),
            old(self).wf() ==> final(self).wf(),
    {
        self.selected_language = language;
    }

    /// The ids of all sessions, each once, in no particular order.
    pub fn session_ids(&self) -> (ids: Vec<u64>)
        ensures
            ids@.to_set() == self@.sessions.dom(),
            ids@.no_duplicates(),
    {
        broadcast use group_hash_axioms;

        let mut ids: Vec<u64> = Vec::new();
        for id in it: self.sessions.keys()
            invariant
                ids@.len() == it.index(),
                forall|i: int| 0 <= i < ids@.len() ==> ids@[i] == *it.seq()[i],
                it.seq() == spec_keys_iter(&self.sessions).remaining(),
        {
            ids.push(*id);
        }
        proof {
            let keys = spec_keys_iter(&self.sessions).remaining();
            assert(ids@ =~= keys.unref());
            assert(self@.sessions.dom() =~= self.sessions@.dom());
        }
        ids
    }

    /// Creates a session for `target_engine_id` at `now_ms`, with the next
    /// id and a fresh claim token, in status `Created`.
    ///
    /// Target 0 is refused. So is a creation once every id or nonce has been
    /// issued. A refusal changes nothing.
    pub fn create_session(&mut self, target_engine_id: u64, now_ms: u64) -> (created: Result<
        (u64, String),
        SessionError,
    >)
        requires
            old(self).wf(),
        ensures
            final(self).wf(),
            match created {
                Ok((session_id, claim_token)) => {
                    &&& target_engine_id != 0
                    &&& old(self)@.upcoming_session_id < u64::MAX
                    &&& old(self)@.upcoming_nonce < u64::MAX
                    &&& session_id == old(self)@.upcoming_session_id
                    &&& claim_token@ == claim_token_text(
                        now_ms,
                        session_id,
                        old(self)@.upcoming_nonce,
                    )
                    &&& final(self)@ == (DiktModel {
                        sessions: old(self)@.sessions.insert(
                            session_id,
                            created_session(target_engine_id, claim_token@, now_ms),
                        ),
                        upcoming_session_id: (session_id + 1) as u64,
                        upcoming_nonce: (old(self)@.upcoming_nonce + 1) as u64,
                        ..old(self)@
                    })
                },
                Err(SessionError::InvalidTarget) => {
                    &&& target_engine_id == 0
                    &&& final(self)@ == old(self)@
                },
                Err(SessionError::Exhausted) => {
                    &&& target_engine_id != 0
                    &&& (old(self)@.upcoming_session_id == u64::MAX || old(self)@.upcoming_nonce
                        == u64::MAX)
                    &&& final(self)@ == old(self)@
                },
            },
    {
        broadcast use group_hash_axioms;

        if target_engine_id == 0 {
            return Err(SessionError::InvalidTarget);
        }
        if !self.authority.has_capacity() {
            return Err(SessionError::Exhausted);
        }
        let ghost before = self.sessions@;
        let session_id = self.authority.next_session_id();
        let claim_token = self.authority.next_claim_token(session_id, now_ms);
        let session = Session {
            target_id: target_engine_id,
            claim_token: claim_token.clone(),
            status: SessionStatus::Created,
            status_message: String::from_str("Session created"),
            updated_ms: now_ms,
            stopping: false,
        };
        self.sessions.insert(session_id, session);
        proof {
            let was = old(self)@;
            let now = self@;
            assert(now.sessions =~= was.sessions.insert(
                session_id,
                created_session(target_engine_id, claim_token@, now_ms),
            ));
            assert(now.pending == was.pending);
            lemma_hex_text_len(now_ms as nat, 16);
            lemma_hex_text_len(session_id as nat, 16);
            lemma_hex_text_len(was.upcoming_nonce as nat, 16);
            assert forall|id: u64| #[trigger] now.sessions.contains_key(id) implies 0 < id
                < now.upcoming_session_id && now.sessions[id].target_id != 0
                && now.sessions[id].claim_token.len() == CLAIM_TOKEN_LEN by {
                if id != session_id {
                    assert(was.sessions.contains_key(id));
                }
            }
            assert forall|i: int|
                0 <= i < now.pending.len() && now.sessions.contains_key(
                    (#[trigger] now.pending[i]).session_id,
                ) implies now.pending[i].claim_token
                == now.sessions[now.pending[i].session_id].claim_token by {
                assert(was.pending[i].session_id < was.upcoming_session_id);
                assert(was.sessions.contains_key(was.pending[i].session_id));
            }
        }
        Ok((session_id, claim_token))
    }

    /// The target that `session_id` is bound to, if the session exists.
    pub fn session_binding(&self, session_id: u64) -> (target: Option<u64>)
        ensures
            target == if self@.sessions.contains_key(session_id) {
                Some(self@.sessions[session_id].target_id)
            } else {
                None
            },
    {
        broadcast use group_hash_axioms;

        match self.sessions.get(&session_id) {
            Some(session) => Some(session.target_id),
            None => None,
        }
    }

    /// The claim token of `session_id`, if the session exists.
    pub fn session_claim_token(&self, session_id: u64) -> (token: Option<String>)
        ensures
            token.is_some() == self@.sessions.contains_key(session_id),
            token.is_some() ==> token.unwrap()@ == self@.sessions[session_id].claim_token,
    {
        broadcast use group_hash_axioms;

        match self.sessions.get(&session_id) {
            Some(session) => Some(session.claim_token.clone()),
            None => None,
        }
    }

    /// Whether `claim_token` is the claim token of `session_id`.
    pub fn validate_session_claim(&self, session_id: u64, claim_token: &str) -> (valid: bool)
        ensures
            valid == (self@.sessions.contains_key(session_id)
                && self@.sessions[session_id].claim_token == claim_token@),
    {
        broadcast use group_hash_axioms;

        match self.sessions.get(&session_id) {
            Some(session) => str_eq(session.claim_token.as_str(), claim_token),
            None => false,
        }
    }

    /// Gives `session_id` a new status at `now_ms`. Nothing changes if the
    /// session does not exist.
    pub fn set_session_status(
        &mut self,
        session_id: u64,
        status: SessionStatus,
        message: &str,
        now_ms: u64,
    )
        requires
            old(self).wf(),
        ensures
            final(self).wf(),
            final(self)@ == (DiktModel {
                sessions: with_status(old(self)@.sessions, session_id, status, message@, now_ms),
                ..old(self)@
            }),
    {
        broadcast use group_hash_axioms;

        let ghost before = self.sessions@;
        match self.sessions.remove(&session_id) {
            Some(session) => {
                let updated = Session {
                    target_id: session.target_id,
                    claim_token: session.claim_token,
                    status,
                    status_message: String::from_str(message),
                    updated_ms: now_ms,
                    stopping: session.stopping,
                };
                self.sessions.insert(session_id, updated);
                proof {
                    assert(self.sessions@ =~= before.insert(session_id, updated));
                    assert(self@.sessions =~= with_status(
                        old(self)@.sessions,
                        session_id,
                        status,
                        message@,
                        now_ms,
                    ));
                }
            },
            None => {
                proof {
                    assert(self.sessions@ =~= before);
                }
            },
        }
    }

    /// The status of `session_id`, its message and the time of its last
    /// change, if the session exists.
    pub fn session_status(&self, session_id: u64) -> (status: Option<(SessionStatus, String, u64)>)
        ensures
            status.is_some() == self@.sessions.contains_key(session_id),
            status.is_some() ==> {
                &&& status.unwrap().0 == self@.sessions[session_id].status
                &&& status.unwrap().1@ == self@.sessions[session_id].status_message
                &&& status.unwrap().2 == self@.sessions[session_id].updated_ms
            },
    {
        broadcast use group_hash_axioms;

        match self.sessions.get(&session_id) {
            Some(session) => Some(
                (session.status, session.status_message.clone(), session.updated_ms),
            ),
            None => None,
        }
    }

    /// Removes `session_id` with its binding, claim token and status.
    pub fn remove_session(&mut self, session_id: u64)
        requires
            old(self).wf(),
        ensures
            final(self).wf(),
            final(self)@ == (DiktModel {
                sessions: old(self)@.sessions.remove(session_id),
                ..old(self)@
            }),
    {
        broadcast use group_hash_axioms;

        let ghost before = self.sessions@;
        let _ = self.sessions.remove(&session_id);
        proof {
            assert(self@.sessions =~= old(self)@.sessions.remove(session_id));
        }
    }

    /// Sets the stopping flag of `session_id`, if the session exists.
    pub fn mark_session_stopping(&mut self, session_id: u64)
        requires
            old(self).wf(),
        ensures
            final(self).wf(),
            final(self)@ == (DiktModel {
                sessions: with_stopping(old(self)@.sessions, session_id, true),
                ..old(self)@
            }),
    {
        self.set_stopping(session_id, true);
    }

    /// Clears the stopping flag of `session_id`, if the session exists.
    pub fn clear_session_stopping(&mut self, session_id: u64)
        requires
            old(self).wf(),
        ensures
            final(self).wf(),
            final(self)@ == (DiktModel {
                sessions: with_stopping(old(self)@.sessions, session_id, false),
                ..old(self)@
            }),
    {
        self.set_stopping(session_id, false);
    }

    fn set_stopping(&mut self, session_id: u64, stopping: bool)
        requires
            old(self).wf(),
        ensures
            final(self).wf(),
            final(self)@ == (DiktModel {
                sessions: with_stopping(old(self)@.sessions, session_id, stopping),
                ..old(self)@
            }),
    {
        broadcast use group_hash_axioms;

        let ghost before = self.sessions@;
        match self.sessions.remove(&session_id) {
            Some(session) => {
                let updated = Session {
                    target_id: session.target_id,
                    claim_token: session.claim_token,
                    status: session.status,
                    status_message: session.status_message,
                    updated_ms: session.updated_ms,
                    stopping,
                };
                self.sessions.insert(session_id, updated);
                proof {
                    assert(self.sessions@ =~= before.insert(session_id, updated));
                    assert(self@.sessions =~= with_stopping(
                        old(self)@.sessions,
                        session_id,
                        stopping,
                    ));
                }
            },
            None => {
                proof {
                    assert(self.sessions@ =~= before);
                }
            },
        }
    }

    /// Whether `session_id` exists and a requested stop of it is being
    /// carried out.
    pub fn session_is_stopping(&self, session_id: u64) -> (stopping: bool)
        ensures
            stopping == (self@.sessions.contains_key(session_id)
                && self@.sessions[session_id].stopping),
    {
        broadcast use group_hash_axioms;

        match self.sessions.get(&session_id) {
            Some(session) => session.stopping,
            None => false,
        }
    }
}

/// The sessions after the commit of `session_id` was delivered at `now_ms`:
/// a session that was ready is committed.
pub open spec fn with_delivery(sessions: Map<u64, SessionModel>, session_id: u64, now_ms: u64) -> Map<
    u64,
    SessionModel,
> {
    if sessions.contains_key(session_id) && sessions[session_id].status == SessionStatus::Ready {
        with_status(
            sessions,
            session_id,
            SessionStatus::Committed,
            "Final commit delivered"@,
            now_ms,
        )
    } else {
        sessions
    }
}

/// The pending commit that `store_pending_commit` adds for a session.
pub open spec fn commit_of(
    session_id: u64,
    session: SessionModel,
    text: Seq<char>,
    now_ms: u64,
) -> PendingCommitModel {
    PendingCommitModel { session_id, claim_token: session.claim_token, text, created_ms: now_ms }
}

impl DiktState {
    /// Removes every session whose status is final and whose last change
    /// lies more than five minutes before `now_ms`.
    pub fn cleanup_expired_sessions(&mut self, now_ms: u64)
        requires
            old(self).wf(),
        ensures
            final(self).wf(),
            final(self)@ == (DiktModel {
                sessions: swept(old(self)@.sessions, now_ms),
                ..old(self)@
            }),
    {
        broadcast use group_hash_axioms;

        let ids = self.session_ids();
        let n = ids.len();
        let mut i: usize = 0;
        while i < n
            invariant
                i <= n,
                n == ids@.len(),
                ids@.to_set() == old(self)@.sessions.dom(),
                self.wf(),
                self@ == (DiktModel { sessions: self@.sessions, ..old(self)@ }),
                forall|id: u64|
                    self@.sessions.contains_key(id) <==> old(self)@.sessions.contains_key(id) && !(
                    is_expired(old(self)@.sessions[id], now_ms) && ids@.subrange(
                        0,
                        i as int,
                    ).contains(id)),
                forall|id: u64|
                    self@.sessions.contains_key(id) ==> self@.sessions[id] == old(
                        self,
                    )@.sessions[id],
            decreases n - i,
        {
            let id = ids[i];
            let expired = match self.sessions.get(&id) {
                Some(session) => session.status.terminal() && now_ms.saturating_sub(
                    session.updated_ms,
                ) > SESSION_TTL_MS,
                None => false,
            };
            proof {
                let seen = ids@.subrange(0, i as int);
                let more = ids@.subrange(0, i + 1);
                assert(more =~= seen.push(id));
                assert(forall|other: u64| more.contains(other) <==> seen.contains(other) || other == id) by {
                    assert forall|other: u64| more.contains(other) implies seen.contains(other)
                        || other == id by {
                        let k = choose|k: int| 0 <= k < more.len() && more[k] == other;
                        if k < i {
                            assert(seen[k] == other);
                        }
                    }
                    assert forall|other: u64| seen.contains(other) || other == id implies more.contains(
                        other,
                    ) by {
                        if seen.contains(other) {
                            let k = choose|k: int| 0 <= k < seen.len() && seen[k] == other;
                            assert(more[k] == other);
                        } else {
                            assert(more[i as int] == other);
                        }
                    }
                }
                assert(ids@.to_set().contains(id));
            }
            if expired {
                self.remove_session(id);
            }
            i = i + 1;
        }
        proof {
            assert(ids@.subrange(0, n as int) =~= ids@);
            assert forall|id: u64| old(self)@.sessions.contains_key(id) implies ids@.contains(
                id,
            ) by {
                assert(ids@.to_set().contains(id));
            }
            assert(self@.sessions =~= swept(old(self)@.sessions, now_ms));
        }
    }

    /// The active session of `engine_id` at `now_ms`: its id, its claim
    /// token, and whether a live preview may be shown for it, which is so
    /// while it records. `(0, "", false)` if the target has no active
    /// session.
    ///
    /// Sessions that are due are removed first, unless `engine_id` is 0,
    /// which is no target.
    pub fn active_session_for_engine(&mut self, engine_id: u64, now_ms: u64) -> (active: (
        u64,
        String,
        bool,
    ))
        requires
            old(self).wf(),
        ensures
            final(self).wf(),
            final(self)@ == (DiktModel {
                sessions: if engine_id == 0 {
                    old(self)@.sessions
                } else {
                    swept(old(self)@.sessions, now_ms)
                },
                ..old(self)@
            }),
            ({
                let sessions = final(self)@.sessions;
                if exists|id: u64| is_candidate(sessions, engine_id, id) {
                    &&& is_active_session(sessions, engine_id, active.0)
                    &&& active.1@ == sessions[active.0].claim_token
                    &&& active.2 == (sessions[active.0].status == SessionStatus::Recording)
                } else {
                    &&& active.0 == 0
                    &&& active.1@ == Seq::<char>::empty()
                    &&& !active.2
                }
            }),
    {
        broadcast use group_hash_axioms;

        if engine_id == 0 {
            return (0, String::new(), false);
        }
        self.cleanup_expired_sessions(now_ms);
        let ghost sessions = self@.sessions;
        let ids = self.session_ids();
        let n = ids.len();
        let mut best_id: u64 = 0;
        let mut best_rank: u8 = 0;
        let mut best_updated: u64 = 0;
        let mut i: usize = 0;
        while i < n
            invariant
                i <= n,
                n == ids@.len(),
                self.wf(),
                sessions == self@.sessions,
                sessions == self.sessions@.map_values(|s: Session| s@),
                consistent(self@),
                ids@.to_set() == sessions.dom(),
                best_id == 0 ==> forall|j: int|
                    0 <= j < i ==> !is_candidate(sessions, engine_id, #[trigger] ids@[j]),
                best_id != 0 ==> {
                    &&& is_candidate(sessions, engine_id, best_id)
                    &&& best_rank == sessions[best_id].status.priority()
                    &&& best_updated == sessions[best_id].updated_ms
                    &&& forall|j: int|
                        0 <= j < i && ids@[j] != best_id && is_candidate(
                            sessions,
                            engine_id,
                            #[trigger] ids@[j],
                        ) ==> outranks(best_id, sessions[best_id], ids@[j], sessions[ids@[j]])
                },
            decreases n - i,
        {
            let id = ids[i];
            let found: Option<(u8, u64)> = match self.sessions.get(&id) {
                Some(session) => {
                    if session.target_id == engine_id && session.status.rank() > 0 {
                        Some((session.status.rank(), session.updated_ms))
                    } else {
                        None
                    }
                },
                None => None,
            };
            proof {
                assert(found.is_some() == is_candidate(sessions, engine_id, id));
                if found.is_some() {
                    assert(sessions.contains_key(id));
                    assert(id != 0);
                    assert(found.unwrap().0 == sessions[id].status.priority());
                    assert(found.unwrap().1 == sessions[id].updated_ms);
                }
            }
            match found {
                Some((rank, updated_ms)) => {
                    let better = best_id == 0 || rank > best_rank || (rank == best_rank
                        && updated_ms > best_updated) || (rank == best_rank && updated_ms
                        == best_updated && id > best_id);
                    if better {
                        best_id = id;
                        best_rank = rank;
                        best_updated = updated_ms;
                    }
                },
                None => {},
            }
            i = i + 1;
        }
        proof {
            assert forall|id: u64| is_candidate(sessions, engine_id, id) implies exists|j: int|
                0 <= j < n && ids@[j] == id by {
                assert(ids@.to_set().contains(id));
            }
        }
        if best_id == 0 {
            return (0, String::new(), false);
        }
        match self.sessions.get(&best_id) {
            Some(session) => (best_id, session.claim_token.clone(), best_rank == 3),
            None => (0, String::new(), false),
        }
    }

    /// Queues `text` as the final transcript of `session_id` at `now_ms`,
    /// under the session's claim token. Nothing is queued for a session that
    /// does not exist.
    pub fn store_pending_commit(&mut self, session_id: u64, text: String, now_ms: u64)
        requires
            old(self).wf(),
        ensures
            final(self).wf(),
            final(self)@ == if old(self)@.sessions.contains_key(session_id) {
                DiktModel {
                    pending: queue_after_store(
                        old(self)@.pending,
                        commit_of(session_id, old(self)@.sessions[session_id], text@, now_ms),
                    ),
                    dropped: dropped_after_store(old(self)@.pending, old(self)@.dropped),
                    ..old(self)@
                }
            } else {
                old(self)@
            },
    {
        match self.session_claim_token(session_id) {
            Some(claim_token) => {
                self.pending_commit.store(session_id, claim_token, text, now_ms);
                proof {
                    let was = old(self)@;
                    let now = self@;
                    let entry = commit_of(session_id, was.sessions[session_id], text@, now_ms);
                    assert(now.pending == queue_after_store(was.pending, entry));
                    self.pending_commit.lemma_bounded();
                    assert forall|i: int| 0 <= i < now.pending.len() implies (
                    #[trigger] now.pending[i]).session_id < now.upcoming_session_id && (
                    now.sessions.contains_key(now.pending[i].session_id) ==> now.pending[i].claim_token
                        == now.sessions[now.pending[i].session_id].claim_token) by {
                        if i == now.pending.len() - 1 {
                            assert(now.pending[i] == entry);
                        } else if was.pending.len() >= MAX_PENDING_COMMIT_QUEUE {
                            assert(now.pending[i] == was.pending[i + 1]);
                        } else {
                            assert(now.pending[i] == was.pending[i]);
                        }
                    }
                }
            },
            None => {},
        }
    }

    /// Takes the final transcript of `session_id` for the holder of
    /// `claim_token`, at `now_ms`.
    ///
    /// Returns `(true, text)` and removes the commit if the queue holds one
    /// under this id and token; a session that was ready is committed then.
    /// Returns `(false, "")` and changes nothing otherwise.
    pub fn take_pending_commit_for_session(
        &mut self,
        session_id: u64,
        claim_token: &str,
        now_ms: u64,
    ) -> (taken: (bool, String))
        requires
            old(self).wf(),
        ensures
            final(self).wf(),
            ({
                let queue = old(self)@.pending;
                let at = first_claimed(queue, session_id, claim_token@);
                if 0 <= at < queue.len() {
                    &&& taken.0
                    &&& taken.1@ == queue[at].text
                    &&& final(self)@ == (DiktModel {
                        pending: queue.remove(at),
                        sessions: with_delivery(old(self)@.sessions, session_id, now_ms),
                        ..old(self)@
                    })
                } else {
                    &&& !taken.0
                    &&& taken.1@ == Seq::<char>::empty()
                    &&& final(self)@ == old(self)@
                }
            }),
    {
        let taken = self.pending_commit.take_for_session(session_id, claim_token);
        if taken.0 {
            proof {
                let was = old(self)@;
                let now = self@;
                let at = first_claimed(was.pending, session_id, claim_token@);
                assert(now.pending == was.pending.remove(at));
                self.pending_commit.lemma_bounded();
                assert forall|i: int| 0 <= i < now.pending.len() implies (
                #[trigger] now.pending[i]).session_id < now.upcoming_session_id && (
                now.sessions.contains_key(now.pending[i].session_id) ==> now.pending[i].claim_token
                    == now.sessions[now.pending[i].session_id].claim_token) by {
                    if i < at {
                        assert(now.pending[i] == was.pending[i]);
                    } else {
                        assert(now.pending[i] == was.pending[i + 1]);
                    }
                }
            }
            let ready = match self.session_status(session_id) {
                Some(status) => status.0 == SessionStatus::Ready,
                None => false,
            };
            if ready {
                self.set_session_status(
                    session_id,
                    SessionStatus::Committed,
                    "Final commit delivered",
                    now_ms,
                );
            }
        }
        taken
    }

    /// The figures of the queue of pending commits at `now_ms`.
    pub fn pending_commit_stats(&self, now_ms: u64) -> (stats: PendingCommitStats)
        requires
            self.wf(),
        ensures
            stats.queue_len == self@.pending.len(),
            stats.oldest_age_ms == oldest_age(self@.pending, now_ms),
            stats.dropped_count == self@.dropped,
            forall|session_id: u64|
                stats.targets@.contains_key(session_id) <==> count_for_session(
                    self@.pending,
                    session_id,
                ) > 0,
            forall|session_id: u64| #[trigger]
                stats.targets@.contains_key(session_id) ==> stats.targets@[session_id]
                    == count_for_session(self@.pending, session_id),
    {
        self.pending_commit.stats(now_ms)
    }

    /// Issues the revision for the next write of a live preview. Revisions
    /// grow by one with each call and wrap at the end of their type.
    pub fn next_live_preedit_revision(&mut self) -> (revision: u64)
        ensures
            revision == old(self)@.upcoming_revision,
            final(self)@ == (DiktModel {
                upcoming_revision: revision_after(revision),
                ..old(self)@
            }),
            old(self).wf() ==> final(self).wf(),
    {
        let revision = self.live_preedit_revision;
        self.live_preedit_revision = revision.wrapping_add(1);
        revision
    }

    /// Shows `text` as the live preview of `session_id` at `revision`,
    /// unless a revision at or above it is stored. Session 0 has no preview.
    pub fn set_live_preedit(&mut self, session_id: u64, revision: u64, text: String)
        ensures
            final(self)@ == (DiktModel {
                previews: if session_id == 0 {
                    old(self)@.previews
                } else {
                    previews_after_write(
                        old(self)@.previews,
                        session_id,
                        (LivePreeditModel { revision, visible: true, text: text@ }),
                    )
                },
                ..old(self)@
            }),
            old(self).wf() ==> final(self).wf(),
    {
        if session_id == 0 {
            return ;
        }
        self.live_preedit.set(session_id, revision, text);
    }

    /// Hides the live preview of `session_id` and drops its text at
    /// `revision`, unless a revision at or above it is stored. Session 0 has
    /// no preview.
    pub fn clear_live_preedit(&mut self, session_id: u64, revision: u64)
        ensures
            final(self)@ == (DiktModel {
                previews: if session_id == 0 {
                    old(self)@.previews
                } else {
                    previews_after_write(
                        old(self)@.previews,
                        session_id,
                        (LivePreeditModel { revision, visible: false, text: Seq::empty() }),
                    )
                },
                ..old(self)@
            }),
            old(self).wf() ==> final(self).wf(),
    {
        if session_id == 0 {
            return ;
        }
        self.live_preedit.clear(session_id, revision);
    }

    /// The live preview of `session_id` for the holder of `claim_token`:
    /// revision, visibility and text. `(0, false, "")` if the token is not
    /// the session's, or nothing is stored.
    pub fn get_live_preedit_for_session(&self, session_id: u64, claim_token: &str) -> (shown: (
        u64,
        bool,
        String,
    ))
        ensures
            ({
                let valid = self@.sessions.contains_key(session_id)
                    && self@.sessions[session_id].claim_token == claim_token@;
                let preview = if valid {
                    preview_of(self@.previews, session_id)
                } else {
                    no_preview()
                };
                &&& shown.0 == preview.revision
                &&& shown.1 == preview.visible
                &&& shown.2@ == preview.text
            }),
    {
        if !self.validate_session_claim(session_id, claim_token) {
            return (0, false, String::new());
        }
        self.live_preedit.get_for_session(session_id)
    }

    /// Records at `now_ms` that `engine_id` gained or lost the focus.
    pub fn set_focused_engine(&mut self, engine_id: u64, focused: bool, now_ms: u64)
        ensures
            final(self)@ == (DiktModel {
                focus: FocusTracker {
                    focused_engine_id: focus_after(
                        old(self)@.focus.focused_engine_id,
                        engine_id,
                        focused,
                    ),
                    last_change_ms: if focus_after(
                        old(self)@.focus.focused_engine_id,
                        engine_id,
                        focused,
                    ) != old(self)@.focus.focused_engine_id {
                        now_ms
                    } else {
                        old(self)@.focus.last_change_ms
                    },
                },
                ..old(self)@
            }),
            old(self).wf() ==> final(self).wf(),
    {
        self.focus.set_focused_engine(engine_id, focused, now_ms);
    }

    /// The focused target and the time of its last change.
    pub fn focused_engine_status(&self) -> (status: (u64, u64))
        ensures
            status.0 == self@.focus.focused_engine_id,
            status.1 == self@.focus.last_change_ms,
    {
        self.focus.focused_engine_status()
    }
}

/// A target has at most one active session.
pub proof fn active_session_is_unique(
    sessions: Map<u64, SessionModel>,
    engine_id: u64,
    a: u64,
    b: u64,
)
    requires
        is_active_session(sessions, engine_id, a),
        is_active_session(sessions, engine_id, b),
    ensures
        a == b,
{
    if a != b {
        assert(is_candidate(sessions, engine_id, a));
        assert(is_candidate(sessions, engine_id, b));
        assert(outranks(a, sessions[a], b, sessions[b]));
        assert(outranks(b, sessions[b], a, sessions[a]));
    }
}

/// The active session of a target is in the best status that any of the
/// target's sessions has: a recording session is chosen before one that is
/// being finalized, and that one before a session that is ready.
pub proof fn active_session_has_best_status(
    sessions: Map<u64, SessionModel>,
    engine_id: u64,
    active: u64,
    other: u64,
)
    requires
        is_active_session(sessions, engine_id, active),
        sessions.contains_key(other),
        sessions[other].target_id == engine_id,
    ensures
        sessions[active].status.priority() >= sessions[other].status.priority(),
{
    if other != active && sessions[other].status.priority() > 0 {
        assert(is_candidate(sessions, engine_id, other));
    }
}

/// A claim token of another session takes nothing of this session's: the
/// take finds no commit, so it reports nothing found and changes nothing.
pub proof fn claim_isolation(state: DiktModel, session_id: u64, other_token: Seq<char>)
    requires
        consistent(state),
        state.sessions.contains_key(session_id),
        state.sessions[session_id].claim_token != other_token,
    ensures
        first_claimed(state.pending, session_id, other_token) == state.pending.len(),
{
    lemma_first_claimed_from(state.pending, session_id, other_token, 0);
    let at = first_claimed(state.pending, session_id, other_token);
    if at < state.pending.len() {
        assert(state.pending[at].session_id == session_id);
    }
}

/// A sweep keeps every session that is not in a final status.
pub proof fn sweep_keeps_live_sessions(sessions: Map<u64, SessionModel>, now_ms: u64, session_id: u64)
    requires
        sessions.contains_key(session_id),
        !sessions[session_id].status.is_terminal(),
    ensures
        swept(sessions, now_ms).contains_key(session_id),
        swept(sessions, now_ms)[session_id] == sessions[session_id],
{
}

/// An empty claim token takes nothing of any session.
pub proof fn empty_claim_finds_nothing(state: DiktModel, session_id: u64)
    requires
        consistent(state),
        state.sessions.contains_key(session_id),
    ensures
        first_claimed(state.pending, session_id, Seq::empty()) == state.pending.len(),
{
    claim_isolation(state, session_id, Seq::empty());
}

} // verus!
