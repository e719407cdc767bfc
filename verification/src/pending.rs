//! The bounded queue of final transcripts that wait to be delivered.
//!
//! A commit is stored under a session id and that session's claim token, and
//! only the same pair takes it out, once. The queue keeps the 32 newest
//! commits: storing into a full queue drops the oldest and counts the drop.

use std::collections::HashMap;
use std::collections::VecDeque;
use vstd::prelude::*;
use vstd::std_specs::hash::*;
use crate::strings::str_eq;

verus! {

/// The number of commits that the queue holds at most.
pub const MAX_PENDING_COMMIT_QUEUE: usize = 32;

/// A final transcript that waits for its session to take it.
pub struct PendingCommit {
    pub session_id: u64,
    pub claim_token: String,
    pub text: String,
    pub created_ms: u64,
}

/// What a pending commit holds, as plain values.
pub struct PendingCommitModel {
    pub session_id: u64,
    pub claim_token: Seq<char>,
    pub text: Seq<char>,
    pub created_ms: u64,
}

impl View for PendingCommit {
    type V = PendingCommitModel;

    open spec fn view(&self) -> PendingCommitModel {
        PendingCommitModel {
            session_id: self.session_id,
            claim_token: self.claim_token@,
            text: self.text@,
            created_ms: self.created_ms,
        }
    }
}

/// Whether `entry` was stored under this session id and claim token.
pub open spec fn claimed_by(entry: PendingCommitModel, session_id: u64, claim_token: Seq<char>) -> bool {
    entry.session_id == session_id && entry.claim_token == claim_token
}

/// The index of the oldest commit at or after `from` that this session id and
/// claim token may take, or the queue's length if there is none.
pub open spec fn first_claimed_from(
    queue: Seq<PendingCommitModel>,
    session_id: u64,
    claim_token: Seq<char>,
    from: int,
) -> int
    decreases queue.len() - from,
{
    if from < 0 || from >= queue.len() {
        queue.len() as int
    } else if claimed_by(queue[from], session_id, claim_token) {
        from
    } else {
        first_claimed_from(queue, session_id, claim_token, from + 1)
    }
}

/// The index of the oldest commit that this session id and claim token may
/// take, or the queue's length if there is none.
pub open spec fn first_claimed(
    queue: Seq<PendingCommitModel>,
    session_id: u64,
    claim_token: Seq<char>,
) -> int {
    first_claimed_from(queue, session_id, claim_token, 0)
}

/// `first_claimed_from` finds a commit that the pair may take, and passes
/// over none.
pub proof fn lemma_first_claimed_from(
    queue: Seq<PendingCommitModel>,
    session_id: u64,
    claim_token: Seq<char>,
    from: int,
)
    requires
        0 <= from <= queue.len(),
    ensures
        from <= first_claimed_from(queue, session_id, claim_token, from) <= queue.len(),
        first_claimed_from(queue, session_id, claim_token, from) < queue.len() ==> claimed_by(
            queue[first_claimed_from(queue, session_id, claim_token, from)],
            session_id,
            claim_token,
        ),
        forall|j: int|
            from <= j < first_claimed_from(queue, session_id, claim_token, from) ==> !claimed_by(
                #[trigger] queue[j],
                session_id,
                claim_token,
            ),
    decreases queue.len() - from,
{
    if from < queue.len() && !claimed_by(queue[from], session_id, claim_token) {
        lemma_first_claimed_from(queue, session_id, claim_token, from + 1);
    }
}

/// The queue after `entry` was stored: the oldest commit leaves a full queue
/// first.
pub open spec fn queue_after_store(queue: Seq<PendingCommitModel>, entry: PendingCommitModel) -> Seq<
    PendingCommitModel,
> {
    if queue.len() >= MAX_PENDING_COMMIT_QUEUE {
        queue.subrange(1, queue.len() as int).push(entry)
    } else {
        queue.push(entry)
    }
}

/// The count of dropped commits after one more was stored into `queue`. The
/// count wraps at the end of its type.
pub open spec fn dropped_after_store(queue: Seq<PendingCommitModel>, dropped: u64) -> u64 {
    if queue.len() < MAX_PENDING_COMMIT_QUEUE {
        dropped
    } else if dropped == u64::MAX {
        0
    } else {
        (dropped + 1) as u64
    }
}

/// The queue and the count of dropped commits after all of `entries` were
/// stored, in order.
pub open spec fn after_storing_all(
    queue: Seq<PendingCommitModel>,
    dropped: u64,
    entries: Seq<PendingCommitModel>,
) -> (Seq<PendingCommitModel>, u64)
    decreases entries.len(),
{
    if entries.len() == 0 {
        (queue, dropped)
    } else {
        let before = after_storing_all(queue, dropped, entries.drop_last());
        (queue_after_store(before.0, entries.last()), dropped_after_store(before.0, before.1))
    }
}

/// The number of commits in `queue` that belong to `session_id`.
pub open spec fn count_for_session(queue: Seq<PendingCommitModel>, session_id: u64) -> nat
    decreases queue.len(),
{
    if queue.len() == 0 {
        0
    } else {
        let rest = count_for_session(queue.drop_last(), session_id);
        if queue.last().session_id == session_id {
            rest + 1
        } else {
            rest
        }
    }
}

/// The queue's figures for an operator.
pub struct PendingCommitStats {
    /// How many commits wait.
    pub queue_len: usize,
    /// The age of the oldest commit, 0 for an empty queue.
    pub oldest_age_ms: u64,
    /// How many commits were dropped from a full queue so far.
    pub dropped_count: u64,
    /// For each session with waiting commits, how many wait.
    pub targets: HashMap<u64, u64>,
}

/// The age that `stats` reports for the oldest commit of `queue`.
pub open spec fn oldest_age(queue: Seq<PendingCommitModel>, now_ms: u64) -> int {
    if queue.len() == 0 || now_ms < queue[0].created_ms {
        0
    } else {
        now_ms - queue[0].created_ms
    }
}

/// The bounded queue of pending commits, with its count of dropped ones.
pub struct PendingCommitStore {
    queue: VecDeque<PendingCommit>,
    dropped_count: u64,
}

impl Default for PendingCommitStore {
    /// An empty queue that has dropped nothing.
    fn default() -> (store: Self)
        ensures
            store.wf(),
            store.entries() == Seq::<PendingCommitModel>::empty(),
            store.dropped() == 0,
    {
        PendingCommitStore::new()
    }
}

impl PendingCommitStore {
    /// The waiting commits, oldest first.
    pub closed spec fn entries(&self) -> Seq<PendingCommitModel> {
        self.queue@.map_values(|e: PendingCommit| e@)
    }

    /// How many commits were dropped so far.
    pub closed spec fn dropped(&self) -> u64 {
        self.dropped_count
    }

    /// The queue never holds more than its capacity.
    pub closed spec fn wf(&self) -> bool {
        self.queue@.len() <= MAX_PENDING_COMMIT_QUEUE
    }

    /// A well-formed queue holds at most 32 commits.
    pub proof fn lemma_bounded(&self)
        requires
            self.wf(),
        ensures
            self.entries().len() <= MAX_PENDING_COMMIT_QUEUE,
    {
    }

    /// An empty queue that has dropped nothing.
    pub fn new() -> (store: Self)
        ensures
            store.wf(),
            store.entries() == Seq::<PendingCommitModel>::empty(),
            store.dropped() == 0,
    {
        let store = PendingCommitStore { queue: VecDeque::new(), dropped_count: 0 };
        assert(store.entries() =~= Seq::<PendingCommitModel>::empty());
        store
    }

    /// The number of waiting commits.
    pub fn len(&self) -> (n: usize)
        requires
            self.wf(),
        ensures
            n == self.entries().len(),
    {
        self.queue.len()
    }

    /// The number of commits dropped so far.
    pub fn dropped_count(&self) -> (n: u64)
        ensures
            n == self.dropped(),
    {
        self.dropped_count
    }

    /// Stores a commit at time `now_ms`. A full queue drops its oldest commit
    /// first and counts it; the count wraps at the end of its type.
    pub fn store(&mut self, session_id: u64, claim_token: String, text: String, now_ms: u64)
        requires
            old(self).wf(),
        ensures
            final(self).wf(),
            final(self).entries() == queue_after_store(
                old(self).entries(),
                (PendingCommitModel {
                    session_id,
                    claim_token: claim_token@,
                    text: text@,
                    created_ms: now_ms,
                }),
            ),
            final(self).dropped() == dropped_after_store(old(self).entries(), old(self).dropped()),
    {
        let ghost before = self.queue@;
        if self.queue.len() >= MAX_PENDING_COMMIT_QUEUE {
            let _ = self.queue.pop_front();
            self.dropped_count = self.dropped_count.wrapping_add(1);
        }
        let entry = PendingCommit { session_id, claim_token, text, created_ms: now_ms };
        self.queue.push_back(entry);
        proof {
            let f = |e: PendingCommit| e@;
            if before.len() >= MAX_PENDING_COMMIT_QUEUE {
                assert(self.queue@ == before.subrange(1, before.len() as int).push(entry));
                assert(self.queue@.map_values(f) =~= before.map_values(f).subrange(
                    1,
                    before.len() as int,
                ).push(entry@));
            } else {
                assert(self.queue@.map_values(f) =~= before.map_values(f).push(entry@));
            }
        }
    }

    /// Takes the oldest commit stored under this session id and claim token.
    ///
    /// Returns `(true, text)` and removes the commit if there is one; returns
    /// `(false, "")` and leaves the queue as it is otherwise.
    pub fn take_for_session(&mut self, session_id: u64, claim_token: &str) -> (taken: (bool, String))
        requires
            old(self).wf(),
        ensures
            final(self).wf(),
            final(self).dropped() == old(self).dropped(),
            ({
                let queue = old(self).entries();
                let at = first_claimed(queue, session_id, claim_token@);
                if 0 <= at < queue.len() {
                    &&& taken.0
                    &&& taken.1@ == queue[at].text
                    &&& final(self).entries() == queue.remove(at)
                } else {
                    &&& !taken.0
                    &&& taken.1@ == Seq::<char>::empty()
                    &&& final(self).entries() == queue
                }
            }),
    {
        let ghost before = self.queue@;
        let ghost queue = self.entries();
        let n = self.queue.len();
        let mut i: usize = 0;
        proof {
            lemma_first_claimed_from(queue, session_id, claim_token@, 0);
        }
        while i < n
            invariant
                i <= n,
                n == self.queue@.len(),
                n <= MAX_PENDING_COMMIT_QUEUE,
                self.queue@ == before,
                before == old(self).queue@,
                self.dropped_count == old(self).dropped_count,
                queue == before.map_values(|e: PendingCommit| e@),
                first_claimed_from(queue, session_id, claim_token@, i as int) == first_claimed(
                    queue,
                    session_id,
                    claim_token@,
                ),
            decreases n - i,
        {
            let hit = self.queue[i].session_id == session_id && str_eq(
                self.queue[i].claim_token.as_str(),
                claim_token,
            );
            if hit {
                proof {
                    assert(queue[i as int] == before[i as int]@);
                    assert(claimed_by(queue[i as int], session_id, claim_token@));
                }
                let removed = self.queue.remove(i);
                proof {
                    assert(self.queue@.map_values(|e: PendingCommit| e@) =~= queue.remove(i as int));
                }
                match removed {
                    Some(entry) => {
                        return (true, entry.text);
                    },
                    None => {
                        return (false, String::new());
                    },
                }
            }
            i = i + 1;
        }
        (false, String::new())
    }

    /// The queue's figures at time `now_ms`. Reading them changes nothing.
    pub fn stats(&self, now_ms: u64) -> (stats: PendingCommitStats)
        requires
            self.wf(),
        ensures
            stats.queue_len == self.entries().len(),
            stats.oldest_age_ms == oldest_age(self.entries(), now_ms),
            stats.dropped_count == self.dropped(),
            forall|session_id: u64|
                stats.targets@.contains_key(session_id) <==> count_for_session(
                    self.entries(),
                    session_id,
                ) > 0,
            forall|session_id: u64| #[trigger]
                stats.targets@.contains_key(session_id) ==> stats.targets@[session_id]
                    == count_for_session(self.entries(), session_id),
    {
        broadcast use group_hash_axioms;

        let ghost queue = self.entries();
        let n = self.queue.len();
        let oldest_age_ms = if n == 0 {
            0
        } else {
            now_ms.saturating_sub(self.queue[0].created_ms)
        };
        let mut targets: HashMap<u64, u64> = HashMap::new();
        let mut i: usize = 0;
        while i < n
            invariant
                i <= n,
                n == self.queue@.len(),
                n <= MAX_PENDING_COMMIT_QUEUE,
                queue == self.queue@.map_values(|e: PendingCommit| e@),
                forall|session_id: u64|
                    targets@.contains_key(session_id) <==> count_for_session(
                        queue.subrange(0, i as int),
                        session_id,
                    ) > 0,
                forall|session_id: u64| #[trigger]
                    targets@.contains_key(session_id) ==> targets@[session_id]
                        == count_for_session(queue.subrange(0, i as int), session_id),
                forall|session_id: u64|
                    count_for_session(queue.subrange(0, i as int), session_id) <= i,
            decreases n - i,
        {
            let session_id = self.queue[i].session_id;
            let seen: u64 = match targets.get(&session_id) {
                Some(count) => *count,
                None => 0,
            };
            proof {
                let shorter = queue.subrange(0, i as int);
                let longer = queue.subrange(0, i + 1);
                assert(longer.drop_last() =~= shorter);
                assert(longer.last() == queue[i as int]);
                assert(forall|other: u64|
                    count_for_session(longer, other) == count_for_session(shorter, other) + (if other
                        == session_id {
                        1nat
                    } else {
                        0nat
                    }));
            }
            targets.insert(session_id, seen + 1);
            i = i + 1;
        }
        assert(queue.subrange(0, n as int) =~= queue);
        PendingCommitStats {
            queue_len: n,
            oldest_age_ms,
            dropped_count: self.dropped_count,
            targets,
        }
    }
}

/// A claim token other than the one under which a session's commits were
/// stored finds none of them: such a take reports nothing found and leaves
/// the queue as it is.
pub proof fn wrong_claim_finds_nothing(
    queue: Seq<PendingCommitModel>,
    session_id: u64,
    stored_token: Seq<char>,
    other_token: Seq<char>,
)
    requires
        stored_token != other_token,
        forall|i: int|
            0 <= i < queue.len() && (#[trigger] queue[i]).session_id == session_id
                ==> queue[i].claim_token == stored_token,
    ensures
        first_claimed(queue, session_id, other_token) == queue.len(),
{
    lemma_first_claimed_from(queue, session_id, other_token, 0);
}

/// A commit stored under a pair that claims nothing in the queue is taken by
/// the first take of that pair, with its text, and by no later one.
pub proof fn stored_commit_is_taken_once(queue: Seq<PendingCommitModel>, entry: PendingCommitModel)
    requires
        first_claimed(queue, entry.session_id, entry.claim_token) == queue.len(),
    ensures
        ({
            let stored = queue_after_store(queue, entry);
            let at = first_claimed(stored, entry.session_id, entry.claim_token);
            &&& at == stored.len() - 1
            &&& stored[at] == entry
            &&& first_claimed(stored.remove(at), entry.session_id, entry.claim_token)
                == stored.remove(at).len()
        }),
{
    let stored = queue_after_store(queue, entry);
    let rest = stored.drop_last();
    lemma_first_claimed_from(queue, entry.session_id, entry.claim_token, 0);
    lemma_first_claimed_from(stored, entry.session_id, entry.claim_token, 0);
    assert(forall|j: int| 0 <= j < rest.len() ==> !claimed_by(#[trigger] stored[j], entry.session_id, entry.claim_token)) by {
        assert forall|j: int| 0 <= j < rest.len() implies !claimed_by(
            #[trigger] stored[j],
            entry.session_id,
            entry.claim_token,
        ) by {
            if queue.len() >= MAX_PENDING_COMMIT_QUEUE {
                assert(stored[j] == queue[j + 1]);
            } else {
                assert(stored[j] == queue[j]);
            }
        }
    }
    let at = first_claimed(stored, entry.session_id, entry.claim_token);
    assert(claimed_by(stored[stored.len() - 1], entry.session_id, entry.claim_token));
    assert(at == stored.len() - 1);
    let left = stored.remove(at);
    assert(left =~= rest);
    lemma_first_claimed_from(left, entry.session_id, entry.claim_token, 0);
    let again = first_claimed(left, entry.session_id, entry.claim_token);
    if again < left.len() {
        assert(left[again] == stored[again]);
    }
}

/// Storing any number of commits into an empty queue leaves the newest 32 of
/// them, in the order in which they were stored, and counts the others as
/// dropped.
pub proof fn queue_keeps_newest(entries: Seq<PendingCommitModel>)
    requires
        entries.len() <= u64::MAX,
    ensures
        ({
            let after = after_storing_all(Seq::empty(), 0, entries);
            let lost = if entries.len() <= MAX_PENDING_COMMIT_QUEUE {
                0
            } else {
                entries.len() - MAX_PENDING_COMMIT_QUEUE
            };
            &&& after.0 == entries.subrange(lost, entries.len() as int)
            &&& after.1 == lost
        }),
    decreases entries.len(),
{
    let after = after_storing_all(Seq::empty(), 0, entries);
    if entries.len() == 0 {
        assert(after.0 =~= entries.subrange(0, 0));
    } else {
        let shorter = entries.drop_last();
        queue_keeps_newest(shorter);
        let before = after_storing_all(Seq::empty(), 0, shorter);
        let lost_before = if shorter.len() <= MAX_PENDING_COMMIT_QUEUE {
            0
        } else {
            shorter.len() - MAX_PENDING_COMMIT_QUEUE
        };
        let lost = if entries.len() <= MAX_PENDING_COMMIT_QUEUE {
            0
        } else {
            entries.len() - MAX_PENDING_COMMIT_QUEUE
        };
        assert(before.0 == shorter.subrange(lost_before, shorter.len() as int));
        assert(after.0 =~= entries.subrange(lost, entries.len() as int));
    }
}

} // verus!
