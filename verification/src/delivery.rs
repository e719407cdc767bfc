//! The engine's side of the delivery: what to show and what to commit.
//!
//! The input method engine asks the daemon, tick by tick, for the active
//! session of its target, for that session's live preview and for its final
//! transcript. The calls are made outside this library; what each answer
//! leads to is decided here. What is to be done to the engine is queued as a
//! command and carried out where the engine may be touched.

use vstd::prelude::*;
use vstd::string::StringExecFns;
use crate::strings::{contains_text, str_contains, str_eq, trim, trimmed};

verus! {

/// The time between two ticks, in milliseconds.
pub const PENDING_COMMIT_POLL_MS: u64 = 60;

/// After how many failed calls in a row a new connection is tried.
pub const PENDING_COMMIT_FAILURE_RECONNECT_THRESHOLD: u64 = 5;

/// Every how many ticks the live preview is asked for.
pub const LIVE_PREEDIT_POLL_TICKS: u64 = 4;

/// After how many unchanged previews the preview is shown again.
pub const LIVE_PREEDIT_REFRESH_TICKS: u64 = 5;

/// The time between two looks at the queue of commands, in milliseconds.
pub const COMMAND_POLL_INTERVAL_MS: u32 = 60;

/// How long the last take may last when the engine is disabled, in
/// milliseconds.
pub const DISABLE_PENDING_COMMIT_TIMEOUT_MS: u64 = 80;

/// Something to be done to the engine with the id.
#[derive(Debug, Clone)]
pub enum EngineCommand {
    /// Show `text` as the preview, with the cursor at `cursor_pos`.
    UpdatePreedit { engine_id: u64, text: String, cursor_pos: u32 },
    /// Hide the preview.
    HidePreedit { engine_id: u64 },
    /// Hide the preview and commit `text`.
    CommitText { engine_id: u64, text: String },
}

/// A command, as plain values.
pub enum EngineCommandModel {
    UpdatePreedit { engine_id: u64, text: Seq<char>, cursor_pos: u32 },
    HidePreedit { engine_id: u64 },
    CommitText { engine_id: u64, text: Seq<char> },
}

impl View for EngineCommand {
    type V = EngineCommandModel;

    open spec fn view(&self) -> EngineCommandModel {
        match self {
            EngineCommand::UpdatePreedit {
                engine_id,
                text,
                cursor_pos,
            } => EngineCommandModel::UpdatePreedit {
                engine_id: *engine_id,
                text: text@,
                cursor_pos: *cursor_pos,
            },
            EngineCommand::HidePreedit { engine_id } => EngineCommandModel::HidePreedit {
                engine_id: *engine_id,
            },
            EngineCommand::CommitText { engine_id, text } => EngineCommandModel::CommitText {
                engine_id: *engine_id,
                text: text@,
            },
        }
    }
}

impl EngineCommandModel {
    /// The engine that the command is for.
    pub open spec fn target(self) -> u64 {
        match self {
            EngineCommandModel::UpdatePreedit { engine_id, .. } => engine_id,
            EngineCommandModel::HidePreedit { engine_id } => engine_id,
            EngineCommandModel::CommitText { engine_id, .. } => engine_id,
        }
    }
}

/// The commands of `commands` that are not for `engine_id`, in order.
pub open spec fn commands_of_others(commands: Seq<EngineCommandModel>, engine_id: u64) -> Seq<
    EngineCommandModel,
>
    decreases commands.len(),
{
    if commands.len() == 0 {
        Seq::empty()
    } else if commands.last().target() == engine_id {
        commands_of_others(commands.drop_last(), engine_id)
    } else {
        commands_of_others(commands.drop_last(), engine_id).push(commands.last())
    }
}

/// The texts that `commands` commit to `engine_id`, in order.
pub open spec fn queued_commits(commands: Seq<EngineCommandModel>, engine_id: u64) -> Seq<Seq<char>>
    decreases commands.len(),
{
    if commands.len() == 0 {
        Seq::empty()
    } else {
        match commands.last() {
            EngineCommandModel::CommitText { engine_id: target, text } => {
                if target == engine_id {
                    queued_commits(commands.drop_last(), engine_id).push(text)
                } else {
                    queued_commits(commands.drop_last(), engine_id)
                }
            },
            _ => queued_commits(commands.drop_last(), engine_id),
        }
    }
}

/// Whether `commands` hide the preview of `engine_id`: by a command to hide
/// it, or by a commit, which hides it too.
pub open spec fn hides_preview(commands: Seq<EngineCommandModel>, engine_id: u64) -> bool
    decreases commands.len(),
{
    if commands.len() == 0 {
        false
    } else {
        hides_preview(commands.drop_last(), engine_id) || (commands.last().target() == engine_id
            && !(commands.last() is UpdatePreedit))
    }
}

/// What is left to do for an engine that is being disabled.
pub struct DisableActions {
    /// Whether the preview is to be hidden.
    pub hide_requested: bool,
    /// The texts to commit, in order.
    pub commits: Vec<String>,
}

/// Takes the commands of the engine that is being disabled out of the
/// queue.
///
/// Its previews are dropped, its commits are kept to be carried out at once,
/// and the preview is to be hidden if a command asked for it or a commit is
/// due. The commands of other engines stay in the queue, in their order.
pub fn drain_engine_commands_for_disable(queue: &mut Vec<EngineCommand>, engine_id: u64) -> (actions:
    DisableActions)
    ensures
        final(queue)@.map_values(|c: EngineCommand| c@) == commands_of_others(
            old(queue)@.map_values(|c: EngineCommand| c@),
            engine_id,
        ),
        actions.commits@.map_values(|t: String| t@) == queued_commits(
            old(queue)@.map_values(|c: EngineCommand| c@),
            engine_id,
        ),
        actions.hide_requested == hides_preview(
            old(queue)@.map_values(|c: EngineCommand| c@),
            engine_id,
        ),
{
    let mut pending: Vec<EngineCommand> = Vec::new();
    std::mem::swap(queue, &mut pending);
    let ghost all = pending@.map_values(|c: EngineCommand| c@);
    let n = pending.len();
    let mut remaining: Vec<EngineCommand> = Vec::new();
    let mut commits: Vec<String> = Vec::new();
    let mut hide_requested = false;
    let mut i: usize = 0;
    while i < n
        invariant
            i <= n,
            n == pending@.len(),
            all == pending@.map_values(|c: EngineCommand| c@),
            remaining@.map_values(|c: EngineCommand| c@) == commands_of_others(
                all.subrange(0, i as int),
                engine_id,
            ),
            commits@.map_values(|t: String| t@) == queued_commits(
                all.subrange(0, i as int),
                engine_id,
            ),
            hide_requested == hides_preview(all.subrange(0, i as int), engine_id),
        decreases n - i,
    {
        proof {
            let shorter = all.subrange(0, i as int);
            let longer = all.subrange(0, i + 1);
            assert(longer.drop_last() =~= shorter);
            assert(longer.last() == pending@[i as int]@);
        }
        let ghost kept_before = remaining@.map_values(|c: EngineCommand| c@);
        let ghost commits_before = commits@.map_values(|t: String| t@);
        match &pending[i] {
            EngineCommand::UpdatePreedit { engine_id: target, .. } => {
                if *target != engine_id {
                    let command = pending[i].clone_command();
                    remaining.push(command);
                    assert(remaining@.map_values(|c: EngineCommand| c@) =~= kept_before.push(
                        command@,
                    ));
                }
            },
            EngineCommand::HidePreedit { engine_id: target } => {
                if *target == engine_id {
                    hide_requested = true;
                } else {
                    let command = pending[i].clone_command();
                    remaining.push(command);
                    assert(remaining@.map_values(|c: EngineCommand| c@) =~= kept_before.push(
                        command@,
                    ));
                }
            },
            EngineCommand::CommitText { engine_id: target, text } => {
                if *target == engine_id {
                    let said = text.clone();
                    commits.push(said);
                    assert(commits@.map_values(|t: String| t@) =~= commits_before.push(said@));
                    hide_requested = true;
                } else {
                    let command = pending[i].clone_command();
                    remaining.push(command);
                    assert(remaining@.map_values(|c: EngineCommand| c@) =~= kept_before.push(
                        command@,
                    ));
                }
            },
        }
        i = i + 1;
    }
    assert(all.subrange(0, n as int) =~= all);
    *queue = remaining;
    DisableActions { hide_requested, commits }
}

impl EngineCommand {
    /// A copy of the command.
    pub fn clone_command(&self) -> (copy: EngineCommand)
        ensures
            copy@ == self@,
    {
        match self {
            EngineCommand::UpdatePreedit {
                engine_id,
                text,
                cursor_pos,
            } => EngineCommand::UpdatePreedit {
                engine_id: *engine_id,
                text: text.clone(),
                cursor_pos: *cursor_pos,
            },
            EngineCommand::HidePreedit { engine_id } => EngineCommand::HidePreedit {
                engine_id: *engine_id,
            },
            EngineCommand::CommitText { engine_id, text } => EngineCommand::CommitText {
                engine_id: *engine_id,
                text: text.clone(),
            },
        }
    }

    /// Whether the command is for the engine with `engine_id`: a command
    /// for another engine is dropped when its turn comes.
    pub fn is_for(&self, engine_id: u64) -> (r: bool)
        ensures
            r == (self@.target() == engine_id),
    {
        match self {
            EngineCommand::UpdatePreedit { engine_id: target, .. } => *target == engine_id,
            EngineCommand::HidePreedit { engine_id: target } => *target == engine_id,
            EngineCommand::CommitText { engine_id: target, .. } => *target == engine_id,
        }
    }
}

/// The session and claim token that the engine takes its commit with.
#[derive(Debug, Clone)]
pub struct SessionClaim {
    pub session_id: u64,
    pub claim_token: String,
}

/// What the listener of one engine remembers between ticks.
pub struct CommitListener {
    /// The engine that the listener works for.
    pub engine_id: u64,
    /// How many calls in a row failed.
    pub failure_streak: u64,
    /// The number of the tick.
    pub poll_tick: u64,
    /// Whether the daemon knows the call for the live preview.
    pub live_preedit_supported: bool,
    /// The highest revision of a live preview that was seen.
    pub last_live_revision: u64,
    /// Whether a preview is shown.
    pub last_live_visible: bool,
    /// The preview that is shown.
    pub last_live_text: String,
    /// For how many previews in a row nothing was done.
    pub live_refresh_tick: u64,
    /// The active session, 0 if there is none.
    pub active_session_id: u64,
    /// The claim token of the active session.
    pub active_claim_token: String,
}

/// What a listener remembers, as plain values.
pub struct ListenerModel {
    pub engine_id: u64,
    pub failure_streak: u64,
    pub poll_tick: u64,
    pub live_preedit_supported: bool,
    pub last_live_revision: u64,
    pub last_live_visible: bool,
    pub last_live_text: Seq<char>,
    pub live_refresh_tick: u64,
    pub active_session_id: u64,
    pub active_claim_token: Seq<char>,
}

impl View for CommitListener {
    type V = ListenerModel;

    open spec fn view(&self) -> ListenerModel {
        ListenerModel {
            engine_id: self.engine_id,
            failure_streak: self.failure_streak,
            poll_tick: self.poll_tick,
            live_preedit_supported: self.live_preedit_supported,
            last_live_revision: self.last_live_revision,
            last_live_visible: self.last_live_visible,
            last_live_text: self.last_live_text@,
            live_refresh_tick: self.live_refresh_tick,
            active_session_id: self.active_session_id,
            active_claim_token: self.active_claim_token@,
        }
    }
}

/// What a failed call leads to.
#[derive(Clone, Copy, Debug, PartialEq, Eq, Structural)]
pub struct CallFailure {
    /// Whether the failure is worth a line in the log: the first of a
    /// streak and every tenth.
    pub report: bool,
    /// Whether a new connection is to be tried: from the fifth failure in a
    /// row on.
    pub reconnect: bool,
}

/// Which calls follow the read of the active session in this tick.
#[derive(Clone, Copy, Debug, PartialEq, Eq, Structural)]
pub enum NextCall {
    /// None: there is no active session.
    Nothing,
    /// The live preview, then the pending commit.
    LivePreeditThenCommit,
    /// The pending commit.
    Commit,
}

/// What the read of the active session leads to.
pub struct ActiveRead {
    /// Whether the preview is to be hidden.
    pub hide_preedit: bool,
    /// The claim to take the commit with when the engine is disabled.
    pub claim: Option<SessionClaim>,
    /// The calls that follow.
    pub next: NextCall,
}

/// A count after one more was counted; it stays at the end of its type.
pub open spec fn counted(count: u64) -> u64 {
    if count == u64::MAX {
        count
    } else {
        (count + 1) as u64
    }
}

/// Whether the active session that was read is another than the one
/// before.
pub open spec fn session_changed(listener: ListenerModel, session_id: u64, claim_token: Seq<char>) -> bool {
    session_id != listener.active_session_id || claim_token != listener.active_claim_token
}

/// Whether what was read names an active session.
pub open spec fn names_session(session_id: u64, claim_token: Seq<char>) -> bool {
    session_id != 0 && claim_token.len() > 0
}

/// Whether the live preview is asked for in this tick.
pub open spec fn polls_preview(listener: ListenerModel, allow_preedit: bool) -> bool {
    listener.live_preedit_supported && allow_preedit && listener.poll_tick
        % LIVE_PREEDIT_POLL_TICKS == 0
}

/// The listener after the active session was read.
pub open spec fn after_active_read(
    listener: ListenerModel,
    session_id: u64,
    claim_token: Seq<char>,
    allow_preedit: bool,
) -> ListenerModel {
    let fresh = if session_changed(listener, session_id, claim_token) {
        ListenerModel {
            last_live_visible: false,
            last_live_revision: 0,
            last_live_text: Seq::empty(),
            live_refresh_tick: 0,
            ..listener
        }
    } else {
        listener
    };
    let current = ListenerModel {
        failure_streak: 0,
        active_session_id: session_id,
        active_claim_token: claim_token,
        ..fresh
    };
    if names_session(session_id, claim_token) && !polls_preview(current, allow_preedit)
        && !allow_preedit && current.last_live_visible {
        ListenerModel {
            last_live_visible: false,
            last_live_text: Seq::empty(),
            live_refresh_tick: 0,
            ..current
        }
    } else {
        current
    }
}

/// Whether the read of the active session hides the preview: the session
/// has changed or no longer allows a preview, and one is shown.
pub open spec fn active_read_hides(
    listener: ListenerModel,
    session_id: u64,
    claim_token: Seq<char>,
    allow_preedit: bool,
) -> bool {
    listener.last_live_visible && (session_changed(listener, session_id, claim_token) || (
    names_session(session_id, claim_token) && !allow_preedit))
}

/// The preview that a read of the live preview shows: the text, trimmed, if
/// it is visible and not empty.
pub open spec fn shown_preview(visible: bool, text: Seq<char>) -> Option<Seq<char>> {
    if visible && trimmed(text).len() > 0 {
        Some(trimmed(text))
    } else {
        None
    }
}

/// Whether a preview that is to be shown is sent to the engine: it is new
/// by its revision or its text, none is shown, or it is due again.
pub open spec fn applies_preview(listener: ListenerModel, revision: u64, text: Seq<char>) -> bool {
    revision > listener.last_live_revision || !listener.last_live_visible || text
        != listener.last_live_text || listener.live_refresh_tick >= LIVE_PREEDIT_REFRESH_TICKS
}

/// Whether the engine is told to hide the preview when none is to be shown.
pub open spec fn hides_on_read(listener: ListenerModel, revision: u64) -> bool {
    listener.last_live_visible || revision > listener.last_live_revision
}

/// The position of the cursor behind a preview of `len` characters.
pub open spec fn cursor_after(len: nat) -> u32 {
    if len > u32::MAX {
        u32::MAX
    } else {
        len as u32
    }
}

/// The command that a read of the live preview leads to.
pub open spec fn preview_command(
    listener: ListenerModel,
    revision: u64,
    visible: bool,
    text: Seq<char>,
) -> Option<EngineCommandModel> {
    match shown_preview(visible, text) {
        Some(shown) => {
            if applies_preview(listener, revision, shown) {
                Some(
                    EngineCommandModel::UpdatePreedit {
                        engine_id: listener.engine_id,
                        text: shown,
                        cursor_pos: cursor_after(shown.len()),
                    },
                )
            } else {
                None
            }
        },
        None => {
            if hides_on_read(listener, revision) {
                Some(EngineCommandModel::HidePreedit { engine_id: listener.engine_id })
            } else {
                None
            }
        },
    }
}

/// The listener after a read of the live preview.
pub open spec fn after_preview_read(
    listener: ListenerModel,
    revision: u64,
    visible: bool,
    text: Seq<char>,
) -> ListenerModel {
    ListenerModel {
        live_refresh_tick: if preview_command(listener, revision, visible, text).is_some() {
            0
        } else {
            counted(listener.live_refresh_tick)
        },
        last_live_revision: if revision > listener.last_live_revision {
            revision
        } else {
            listener.last_live_revision
        },
        last_live_visible: shown_preview(visible, text).is_some(),
        last_live_text: match shown_preview(visible, text) {
            Some(shown) => shown,
            None => Seq::empty(),
        },
        ..listener
    }
}

/// The command that a take of the pending commit leads to: the commit of
/// the text, trimmed, if there is one and it is not blank.
pub open spec fn commit_command(engine_id: u64, has_text: bool, text: Seq<char>) -> Option<
    EngineCommandModel,
> {
    if has_text && trimmed(text).len() > 0 {
        Some(EngineCommandModel::CommitText { engine_id, text: trimmed(text) })
    } else {
        None
    }
}

/// A command, as plain values.
pub open spec fn command_model(command: Option<EngineCommand>) -> Option<EngineCommandModel> {
    match command {
        Some(c) => Some(c@),
        None => None,
    }
}

impl CommitListener {
    /// The listener of `engine_id` before its first tick.
    pub fn new(engine_id: u64) -> (listener: Self)
        ensures
            listener@ == (ListenerModel {
                engine_id,
                failure_streak: 0,
                poll_tick: 0,
                live_preedit_supported: true,
                last_live_revision: 0,
                last_live_visible: false,
                last_live_text: Seq::empty(),
                live_refresh_tick: 0,
                active_session_id: 0,
                active_claim_token: Seq::empty(),
            }),
    {
        CommitListener {
            engine_id,
            failure_streak: 0,
            poll_tick: 0,
            live_preedit_supported: true,
            last_live_revision: 0,
            last_live_visible: false,
            last_live_text: String::new(),
            live_refresh_tick: 0,
            active_session_id: 0,
            active_claim_token: String::new(),
        }
    }

    /// Begins a tick: ticks are counted, and the count wraps at the end of
    /// its type.
    pub fn begin_tick(&mut self)
        ensures
            final(self)@ == (ListenerModel {
                poll_tick: if old(self)@.poll_tick == u64::MAX {
                    0
                } else {
                    (old(self)@.poll_tick + 1) as u64
                },
                ..old(self)@
            }),
    {
        self.poll_tick = self.poll_tick.wrapping_add(1);
    }

    /// Takes the failure of a call for the active session or the pending
    /// commit.
    pub fn call_failed(&mut self) -> (failure: CallFailure)
        ensures
            final(self)@ == (ListenerModel {
                failure_streak: counted(old(self)@.failure_streak),
                ..old(self)@
            }),
            failure.report == (final(self)@.failure_streak == 1 || final(self)@.failure_streak % 10
                == 0),
            failure.reconnect == (final(self)@.failure_streak
                >= PENDING_COMMIT_FAILURE_RECONNECT_THRESHOLD),
    {
        self.failure_streak = self.failure_streak.saturating_add(1);
        CallFailure {
            report: self.failure_streak == 1 || self.failure_streak % 10 == 0,
            reconnect: self.failure_streak >= PENDING_COMMIT_FAILURE_RECONNECT_THRESHOLD,
        }
    }

    /// Records that a new connection stands: the streak of failures is
    /// over.
    pub fn reconnected(&mut self)
        ensures
            final(self)@ == (ListenerModel { failure_streak: 0, ..old(self)@ }),
    {
        self.failure_streak = 0;
    }

    /// Takes the daemon's answer to the question for the active session.
    ///
    /// A session other than the one before ends the preview that is shown.
    /// Without an active session nothing follows in this tick. With one,
    /// its live preview is asked for every fourth tick while the session
    /// allows one; a session that allows none has its preview hidden. The
    /// pending commit is asked for in every tick.
    pub fn active_session_read(&mut self, session_id: u64, claim_token: String, allow_preedit: bool) -> (read:
        ActiveRead)
        ensures
            final(self)@ == after_active_read(old(self)@, session_id, claim_token@, allow_preedit),
            read.hide_preedit == active_read_hides(old(self)@, session_id, claim_token@, allow_preedit),
            match read.claim {
                Some(claim) => {
                    &&& names_session(session_id, claim_token@)
                    &&& claim.session_id == session_id
                    &&& claim.claim_token@ == claim_token@
                },
                None => !names_session(session_id, claim_token@),
            },
            read.next == if !names_session(session_id, claim_token@) {
                NextCall::Nothing
            } else if polls_preview(old(self)@, allow_preedit) {
                NextCall::LivePreeditThenCommit
            } else {
                NextCall::Commit
            },
    {
        let mut hide_preedit = false;
        self.failure_streak = 0;
        if session_id != self.active_session_id || !str_eq(
            claim_token.as_str(),
            self.active_claim_token.as_str(),
        ) {
            if self.last_live_visible {
                hide_preedit = true;
                self.last_live_visible = false;
            }
            self.last_live_revision = 0;
            self.last_live_text = String::new();
            self.live_refresh_tick = 0;
        }
        self.active_session_id = session_id;
        self.active_claim_token = claim_token.clone();
        if session_id == 0 || claim_token.as_str().is_empty() {
            return ActiveRead { hide_preedit, claim: None, next: NextCall::Nothing };
        }
        let claim = Some(SessionClaim { session_id, claim_token });
        if self.live_preedit_supported && allow_preedit && self.poll_tick % LIVE_PREEDIT_POLL_TICKS
            == 0 {
            return ActiveRead { hide_preedit, claim, next: NextCall::LivePreeditThenCommit };
        }
        if !allow_preedit && self.last_live_visible {
            hide_preedit = true;
            self.last_live_visible = false;
            self.last_live_text = String::new();
            self.live_refresh_tick = 0;
        }
        ActiveRead { hide_preedit, claim, next: NextCall::Commit }
    }

    /// Takes the daemon's answer to the question for the live preview.
    ///
    /// A visible preview with text is sent to the engine if it is new by
    /// its revision or its text, if none is shown, or if the same preview
    /// has been passed over five times. Where nothing is to be shown, the
    /// engine is told to hide the preview if one is shown or the revision is
    /// new.
    pub fn live_preedit_read(&mut self, revision: u64, visible: bool, text: &str) -> (command:
        Option<EngineCommand>)
        ensures
            final(self)@ == after_preview_read(old(self)@, revision, visible, text@),
            command_model(command) == preview_command(old(self)@, revision, visible, text@),
    {
        let preedit_text = trim(text);
        let should_show = visible && !preedit_text.is_empty();
        let should_apply = should_show && (revision > self.last_live_revision
            || !self.last_live_visible || !str_eq(preedit_text, self.last_live_text.as_str())
            || self.live_refresh_tick >= LIVE_PREEDIT_REFRESH_TICKS);
        let should_hide = !should_show && (self.last_live_visible || revision
            > self.last_live_revision);
        let command = if should_apply {
            let len = preedit_text.unicode_len();
            let cursor_pos: u32 = if len > 0xffff_ffff {
                0xffff_ffff
            } else {
                len as u32
            };
            self.live_refresh_tick = 0;
            Some(
                EngineCommand::UpdatePreedit {
                    engine_id: self.engine_id,
                    text: String::from_str(preedit_text),
                    cursor_pos,
                },
            )
        } else if should_hide {
            self.live_refresh_tick = 0;
            Some(EngineCommand::HidePreedit { engine_id: self.engine_id })
        } else {
            self.live_refresh_tick = self.live_refresh_tick.saturating_add(1);
            None
        };
        if revision > self.last_live_revision {
            self.last_live_revision = revision;
        }
        self.last_live_visible = should_show;
        if should_show {
            self.last_live_text = String::from_str(preedit_text);
        } else {
            self.last_live_text = String::new();
        }
        command
    }

    /// Takes the failure of the call for the live preview, and says whether
    /// it is worth a line in the log. A daemon that does not know the call
    /// is not asked again.
    pub fn live_preedit_failed(&mut self, detail: &str) -> (report: bool)
        ensures
            final(self)@ == (ListenerModel {
                live_preedit_supported: old(self)@.live_preedit_supported && !contains_text(
                    detail@,
                    "UnknownMethod"@,
                ),
                ..old(self)@
            }),
            report == (contains_text(detail@, "UnknownMethod"@) || old(self)@.poll_tick == 1 || old(
                self,
            )@.poll_tick % 50 == 0),
    {
        if str_contains(detail, "UnknownMethod") {
            self.live_preedit_supported = false;
            true
        } else {
            self.poll_tick == 1 || self.poll_tick % 50 == 0
        }
    }

    /// Takes the daemon's answer to the take of the pending commit: a text
    /// that is not blank is committed, trimmed.
    pub fn commit_read(&mut self, has_text: bool, text: &str) -> (command: Option<EngineCommand>)
        ensures
            final(self)@ == (ListenerModel { failure_streak: 0, ..old(self)@ }),
            command_model(command) == commit_command(old(self)@.engine_id, has_text, text@),
    {
        self.failure_streak = 0;
        if !has_text {
            return None;
        }
        let final_text = trim(text);
        if final_text.is_empty() {
            return None;
        }
        Some(EngineCommand::CommitText { engine_id: self.engine_id, text: String::from_str(final_text) })
    }
}

/// What the engine tells the user when it is first enabled.
#[derive(Clone, Copy, Debug, PartialEq, Eq, Structural)]
pub enum StartupNotice {
    /// No speech model is configured.
    Model,
    /// The daemon does not run.
    Service,
}

/// The notice that the daemon's answer to the question for its state calls
/// for: none while the daemon runs with a model.
pub fn startup_notice(state: &Result<(bool, bool), String>) -> (notice: Option<StartupNotice>)
    ensures
        notice == match *state {
            Ok((_, has_model)) => if has_model {
                None
            } else {
                Some(StartupNotice::Model)
            },
            Err(_) => Some(StartupNotice::Service),
        },
{
    match state {
        Ok((_, has_model)) => {
            if *has_model {
                None
            } else {
                Some(StartupNotice::Model)
            }
        },
        Err(_) => Some(StartupNotice::Service),
    }
}

/// What the engine knows of itself between the calls of the input method
/// framework.
#[derive(Clone, Copy, Debug, PartialEq, Eq, Structural)]
pub struct DiktContext {
    /// Whether the engine has the focus.
    pub is_focused: bool,
    /// Whether the engine is enabled.
    pub is_enabled: bool,
    /// Whether the startup notice was looked into since the engine was last
    /// disabled.
    pub notification_shown: bool,
    /// Whether the listener for pending commits runs.
    pub listener_running: bool,
    /// The engine that is enabled.
    pub current_engine_id: Option<u64>,
}

/// What is to be done when the engine is enabled.
#[derive(Clone, Copy, Debug, PartialEq, Eq, Structural)]
pub struct EnableActions {
    /// The focus to report to the daemon, if the daemon can be reached.
    pub report_focus: Option<bool>,
    /// Whether the listener for pending commits is to be started.
    pub start_listener: bool,
    /// Whether the daemon is to be asked for its state, for the startup
    /// notice.
    pub check_state: bool,
}

impl DiktContext {
    /// The context of an engine that is neither enabled nor focused.
    pub fn new() -> (context: Self)
        ensures
            context == (DiktContext {
                is_focused: false,
                is_enabled: false,
                notification_shown: false,
                listener_running: false,
                current_engine_id: None,
            }),
    {
        DiktContext {
            is_focused: false,
            is_enabled: false,
            notification_shown: false,
            listener_running: false,
            current_engine_id: None,
        }
    }

    /// Takes the gain of the focus: it is to be reported to the daemon.
    pub fn focus_in(&mut self)
        ensures
            *final(self) == (DiktContext { is_focused: true, ..*old(self) }),
    {
        self.is_focused = true;
    }

    /// Takes the loss of the focus: the preview is to be hidden and the loss
    /// reported to the daemon.
    pub fn focus_out(&mut self)
        ensures
            *final(self) == (DiktContext { is_focused: false, ..*old(self) }),
    {
        self.is_focused = false;
    }

    /// Takes the enabling of the engine with `engine_id`; `connected` says
    /// whether the daemon's bus can be reached.
    ///
    /// Without the bus nothing more is done. With it, the focus is reported,
    /// the listener is started unless one runs, and the daemon is asked for
    /// its state unless it was asked since the engine was last disabled.
    pub fn enable(&mut self, engine_id: u64, connected: bool) -> (actions: EnableActions)
        ensures
            *final(self) == (DiktContext {
                is_enabled: true,
                current_engine_id: Some(engine_id),
                listener_running: old(self).listener_running || connected,
                notification_shown: old(self).notification_shown || connected,
                ..*old(self)
            }),
            actions == (EnableActions {
                report_focus: if connected {
                    Some(old(self).is_focused)
                } else {
                    None
                },
                start_listener: connected && !old(self).listener_running,
                check_state: connected && !old(self).notification_shown,
            }),
    {
        self.is_enabled = true;
        self.current_engine_id = Some(engine_id);
        if !connected {
            return EnableActions { report_focus: None, start_listener: false, check_state: false };
        }
        let start_listener = !self.listener_running;
        self.listener_running = true;
        let check_state = !self.notification_shown;
        self.notification_shown = true;
        EnableActions { report_focus: Some(self.is_focused), start_listener, check_state }
    }

    /// Takes the disabling of the engine: the listener stops, and the
    /// context is as new.
    pub fn disable(&mut self)
        ensures
            *final(self) == (DiktContext {
                is_focused: false,
                is_enabled: false,
                notification_shown: false,
                listener_running: false,
                current_engine_id: None,
            }),
    {
        self.is_enabled = false;
        self.is_focused = false;
        self.notification_shown = false;
        self.listener_running = false;
        self.current_engine_id = None;
    }
}

} // verus!
