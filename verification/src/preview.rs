//! The latest partial transcript of each session, for display while the user
//! still speaks.
//!
//! Every write carries a revision. A write takes effect only if its revision
//! is above the one stored for the session, so writes that arrive out of
//! order cannot bring an older text back.

use std::collections::HashMap;
use vstd::prelude::*;
use vstd::std_specs::hash::*;

verus! {

/// The preview stored for one session.
pub struct LivePreeditEntry {
    pub revision: u64,
    pub visible: bool,
    pub text: String,
}

/// What a preview entry holds, as plain values.
pub struct LivePreeditModel {
    pub revision: u64,
    pub visible: bool,
    pub text: Seq<char>,
}

impl View for LivePreeditEntry {
    type V = LivePreeditModel;

    open spec fn view(&self) -> LivePreeditModel {
        LivePreeditModel { revision: self.revision, visible: self.visible, text: self.text@ }
    }
}

/// What is reported for a session without a preview: revision 0, hidden, no
/// text.
pub open spec fn no_preview() -> LivePreeditModel {
    LivePreeditModel { revision: 0, visible: false, text: Seq::empty() }
}

/// Whether a write with `revision` takes effect on `session_id`.
pub open spec fn accepts_revision(
    previews: Map<u64, LivePreeditModel>,
    session_id: u64,
    revision: u64,
) -> bool {
    !previews.contains_key(session_id) || previews[session_id].revision < revision
}

/// The previews after `entry` was written for `session_id`.
pub open spec fn previews_after_write(
    previews: Map<u64, LivePreeditModel>,
    session_id: u64,
    entry: LivePreeditModel,
) -> Map<u64, LivePreeditModel> {
    if accepts_revision(previews, session_id, entry.revision) {
        previews.insert(session_id, entry)
    } else {
        previews
    }
}

/// The preview that a read of `session_id` reports.
pub open spec fn preview_of(previews: Map<u64, LivePreeditModel>, session_id: u64) -> LivePreeditModel {
    if previews.contains_key(session_id) {
        previews[session_id]
    } else {
        no_preview()
    }
}

/// The previews of all sessions.
pub struct LivePreeditStore {
    inner: HashMap<u64, LivePreeditEntry>,
}

impl Default for LivePreeditStore {
    /// A store without previews.
    fn default() -> (store: Self)
        ensures
            store.previews() == Map::<u64, LivePreeditModel>::empty(),
    {
        LivePreeditStore::new()
    }
}

impl LivePreeditStore {
    /// The stored previews, by session id.
    pub closed spec fn previews(&self) -> Map<u64, LivePreeditModel> {
        self.inner@.map_values(|e: LivePreeditEntry| e@)
    }

    /// A store without previews.
    pub fn new() -> (store: Self)
        ensures
            store.previews() == Map::<u64, LivePreeditModel>::empty(),
    {
        let store = LivePreeditStore { inner: HashMap::new() };
        assert(store.previews() =~= Map::<u64, LivePreeditModel>::empty());
        store
    }

    fn write(&mut self, session_id: u64, entry: LivePreeditEntry)
        ensures
            final(self).previews() == previews_after_write(old(self).previews(), session_id, entry@),
    {
        broadcast use group_hash_axioms;

        let stale = match self.inner.get(&session_id) {
            Some(existing) => existing.revision >= entry.revision,
            None => false,
        };
        if stale {
            return ;
        }
        let ghost before = self.inner@;
        let ghost written = entry@;
        self.inner.insert(session_id, entry);
        assert(self.inner@.map_values(|e: LivePreeditEntry| e@) =~= before.map_values(
            |e: LivePreeditEntry| e@,
        ).insert(session_id, written));
    }

    /// Shows `text` for `session_id` at `revision`, unless a revision at or
    /// above it is stored already.
    pub fn set(&mut self, session_id: u64, revision: u64, text: String)
        ensures
            final(self).previews() == previews_after_write(
                old(self).previews(),
                session_id,
                (LivePreeditModel { revision, visible: true, text: text@ }),
            ),
    {
        self.write(session_id, LivePreeditEntry { revision, visible: true, text });
    }

    /// Hides the preview of `session_id` and drops its text at `revision`,
    /// unless a revision at or above it is stored already.
    pub fn clear(&mut self, session_id: u64, revision: u64)
        ensures
            final(self).previews() == previews_after_write(
                old(self).previews(),
                session_id,
                (LivePreeditModel { revision, visible: false, text: Seq::empty() }),
            ),
    {
        self.write(session_id, LivePreeditEntry { revision, visible: false, text: String::new() });
    }

    /// The revision, visibility and text stored for `session_id`, or
    /// `(0, false, "")` if nothing is stored.
    pub fn get_for_session(&self, session_id: u64) -> (shown: (u64, bool, String))
        ensures
            shown.0 == preview_of(self.previews(), session_id).revision,
            shown.1 == preview_of(self.previews(), session_id).visible,
            shown.2@ == preview_of(self.previews(), session_id).text,
    {
        broadcast use group_hash_axioms;

        match self.inner.get(&session_id) {
            Some(entry) => (entry.revision, entry.visible, entry.text.clone()),
            None => (0, false, String::new()),
        }
    }
}

/// A write at a revision at or below the stored one changes nothing.
pub proof fn stale_write_is_ignored(
    previews: Map<u64, LivePreeditModel>,
    session_id: u64,
    entry: LivePreeditModel,
)
    requires
        previews.contains_key(session_id),
        entry.revision <= previews[session_id].revision,
    ensures
        previews_after_write(previews, session_id, entry) == previews,
{
}

/// A write for one session leaves every other session's preview as it was.
pub proof fn write_keeps_other_sessions(
    previews: Map<u64, LivePreeditModel>,
    session_id: u64,
    entry: LivePreeditModel,
    other: u64,
)
    requires
        other != session_id,
    ensures
        preview_of(previews_after_write(previews, session_id, entry), other) == preview_of(
            previews,
            other,
        ),
{
}

} // verus!
