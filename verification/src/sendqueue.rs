//! Send-queue retry accounting: consumes the engine's per-room lifecycle
//! updates for outgoing messages and derives per-transaction status
//! notifications with attempt counts. An attempt record is created on the
//! first lifecycle event for a transaction, bumped on every retry or
//! recoverable error, and removed on terminal success or cancellation;
//! absence means "never seen" or "terminally resolved", indistinguishably.

use vstd::prelude::*;

use crate::util::eq_str;

verus! {

use vstd::string::StringExecFns;

/// The status of one outgoing message, as delivered to an observer.
#[derive(Clone, Copy, Debug, PartialEq, Eq, Structural)]
pub enum SendState {
    Enqueued,
    Sending,
    Sent,
    Retrying,
    Failed,
}

/// One status notification for an outgoing message.
#[derive(Clone, Debug)]
pub struct SendUpdate {
    pub room_id: String,
    pub txn_id: String,
    pub attempts: u32,
    pub state: SendState,
    pub event_id: Option<String>,
    pub error: Option<String>,
}

/// The callback a consumer registers to receive send-queue notifications.
pub trait SendObserver {
    fn on_update(&self, update: SendUpdate);
}

/// One lifecycle event from the engine's send queue, reduced to the plain
/// values the accounting reads.
#[derive(Clone, Debug)]
pub enum QueueUpdate {
    NewLocalEvent { transaction_id: String },
    RetryEvent { transaction_id: String },
    SentEvent { transaction_id: String, event_id: String },
    SendError { transaction_id: String, error: String, is_recoverable: bool },
    CancelledLocalEvent { transaction_id: String },
    ReplacedLocalEvent { transaction_id: String },
    MediaUpload { transaction_id: String },
}

/// The attempt count tracked for one in-flight transaction.
pub struct AttemptRecord {
    pub room_id: String,
    pub txn_id: String,
    pub attempts: u32,
}

/// Whether a record tracks the given room and transaction.
pub open spec fn key_matches(r: AttemptRecord, room: Seq<char>, txn: Seq<char>) -> bool {
    r.room_id@ == room && r.txn_id@ == txn
}

/// Whether a field-wise description fits a notification.
pub open spec fn update_matches(
    u: SendUpdate,
    room: Seq<char>,
    txn: Seq<char>,
    attempts: u32,
    state: SendState,
    event_id: Option<Seq<char>>,
    error: Option<Seq<char>>,
) -> bool {
    &&& u.room_id@ == room
    &&& u.txn_id@ == txn
    &&& u.attempts == attempts
    &&& u.state == state
    &&& match (u.event_id, event_id) {
        (Some(a), Some(b)) => a@ == b,
        (None, None) => true,
        _ => false,
    }
    &&& match (u.error, error) {
        (Some(a), Some(b)) => a@ == b,
        (None, None) => true,
        _ => false,
    }
}

/// The message reported with a failed send attempt.
pub open spec fn send_error_text(error: Seq<char>, is_recoverable: bool) -> Seq<char> {
    error + " (recoverable="@ + (if is_recoverable {
        "true"@
    } else {
        "false"@
    }) + ")"@
}

/// The message reported when a whole room's send queue is disabled.
pub open spec fn queue_error_text(error: Seq<char>, is_recoverable: bool) -> Seq<char> {
    "Room send queue disabled (recoverable="@ + (if is_recoverable {
        "true"@
    } else {
        "false"@
    }) + "): "@ + error
}

/// Tracks attempt counts per (room, transaction) pair.
pub struct AttemptTracker {
    records: Vec<AttemptRecord>,
}

impl View for AttemptTracker {
    type V = Seq<AttemptRecord>;

    closed spec fn view(&self) -> Seq<AttemptRecord> {
        self.records@
    }
}

/// Whether some record in the sequence tracks the given key.
pub open spec fn contains_key(s: Seq<AttemptRecord>, room: Seq<char>, txn: Seq<char>) -> bool {
    exists|i: int| 0 <= i < s.len() && key_matches(#[trigger] s[i], room, txn)
}

/// Whether the key is tracked with exactly this attempt count.
pub open spec fn has_attempts(
    s: Seq<AttemptRecord>,
    room: Seq<char>,
    txn: Seq<char>,
    n: u32,
) -> bool {
    exists|i: int| 0 <= i < s.len() && key_matches(#[trigger] s[i], room, txn) && s[i].attempts == n
}

/// What creating an entry does: a missing key is recorded with zero
/// attempts; a present key is left alone.
pub open spec fn ensure_step(
    pre: Seq<AttemptRecord>,
    room: Seq<char>,
    txn: Seq<char>,
    post: Seq<AttemptRecord>,
) -> bool {
    if contains_key(pre, room, txn) {
        post == pre
    } else {
        &&& post.len() == pre.len() + 1
        &&& forall|i: int| 0 <= i < pre.len() ==> post[i] == pre[i]
        &&& key_matches(post[pre.len() as int], room, txn)
        &&& post[pre.len() as int].attempts == 0
    }
}

/// What one retry (or recoverable failure) does to the records: the key's
/// count grows by one, or starts at one if the key was untracked; nothing
/// else moves. `n` is the count after the bump.
pub open spec fn bump_step(
    pre: Seq<AttemptRecord>,
    room: Seq<char>,
    txn: Seq<char>,
    post: Seq<AttemptRecord>,
    n: u32,
) -> bool {
    if contains_key(pre, room, txn) {
        exists|j: int|
            {
                &&& 0 <= j < pre.len()
                &&& key_matches(#[trigger] pre[j], room, txn)
                &&& n == pre[j].attempts + 1
                &&& post.len() == pre.len()
                &&& key_matches(post[j], room, txn)
                &&& post[j].attempts == n
                &&& forall|i: int| 0 <= i < pre.len() && i != j ==> post[i] == pre[i]
            }
    } else {
        &&& n == 1
        &&& post.len() == pre.len() + 1
        &&& forall|i: int| 0 <= i < pre.len() ==> post[i] == pre[i]
        &&& key_matches(post[pre.len() as int], room, txn)
        &&& post[pre.len() as int].attempts == 1
    }
}

/// What terminal resolution does: the key's record (if any) disappears and
/// `n` reports its final count (zero if the key was untracked); nothing
/// else moves.
pub open spec fn resolve_step(
    pre: Seq<AttemptRecord>,
    room: Seq<char>,
    txn: Seq<char>,
    post: Seq<AttemptRecord>,
    n: u32,
) -> bool {
    if contains_key(pre, room, txn) {
        exists|j: int|
            {
                &&& 0 <= j < pre.len()
                &&& key_matches(#[trigger] pre[j], room, txn)
                &&& n == pre[j].attempts
                &&& post == pre.remove(j)
            }
    } else {
        n == 0 && post == pre
    }
}

impl AttemptTracker {
    /// Well-formedness: at most one record per (room, transaction) pair.
    pub open spec fn wf(&self) -> bool {
        forall|i: int, j: int|
            0 <= i < j < self@.len() ==> !((#[trigger] self@[i]).room_id@ == (
            #[trigger] self@[j]).room_id@ && self@[i].txn_id@ == self@[j].txn_id@)
    }

    /// The attempt count currently tracked for this key, if any.
    pub open spec fn spec_attempts(&self, room: Seq<char>, txn: Seq<char>) -> Option<u32> {
        if contains_key(self@, room, txn) {
            Some(choose|n: u32| has_attempts(self@, room, txn, n))
        } else {
            None
        }
    }

    pub fn new() -> (t: AttemptTracker)
        ensures
            t.wf(),
            t@ == Seq::<AttemptRecord>::empty(),
    {
        AttemptTracker { records: Vec::new() }
    }

    /// How many transactions are tracked right now.
    pub fn tracked_count(&self) -> (n: usize)
        ensures
            n == self@.len(),
    {
        self.records.len()
    }

    /// Looks the key up without changing anything.
    pub fn attempts(&self, room_id: &str, txn_id: &str) -> (r: Option<u32>)
        requires
            self.wf(),
        ensures
            match r {
                Some(n) => contains_key(self@, room_id@, txn_id@) && has_attempts(
                    self@,
                    room_id@,
                    txn_id@,
                    n,
                ),
                None => !contains_key(self@, room_id@, txn_id@),
            },
    {
        let n: usize = self.records.len();
        let mut i: usize = 0;
        while i < n
            invariant
                n == self.records.len(),
                i <= n,
                forall|j: int|
                    0 <= j < i ==> !key_matches(#[trigger] self@[j], room_id@, txn_id@),
            decreases n - i,
        {
            if eq_str(self.records[i].room_id.as_str(), room_id) && eq_str(
                self.records[i].txn_id.as_str(),
                txn_id,
            ) {
                proof {
                    assert(key_matches(self@[i as int], room_id@, txn_id@));
                }
                return Some(self.records[i].attempts);
            }
            i = i + 1;
        }
        None
    }

    /// Records the key with zero attempts if it is not yet tracked.
    fn ensure_present(&mut self, room_id: &str, txn_id: &str)
        requires
            old(self).wf(),
        ensures
            final(self).wf(),
            ensure_step(old(self)@, room_id@, txn_id@, final(self)@),
            contains_key(final(self)@, room_id@, txn_id@),
    {
        let ghost pre = *old(self);
        let n: usize = self.records.len();
        let mut i: usize = 0;
        while i < n
            invariant
                pre == *old(self),
                pre.wf(),
                *self == pre,
                n == self.records.len(),
                i <= n,
                forall|j: int|
                    0 <= j < i ==> !key_matches(#[trigger] self@[j], room_id@, txn_id@),
            decreases n - i,
        {
            if eq_str(self.records[i].room_id.as_str(), room_id) && eq_str(
                self.records[i].txn_id.as_str(),
                txn_id,
            ) {
                proof {
                    assert(key_matches(self@[i as int], room_id@, txn_id@));
                }
                return ;
            }
            i = i + 1;
        }
        self.records.push(
            AttemptRecord {
                room_id: room_id.to_owned(),
                txn_id: txn_id.to_owned(),
                attempts: 0,
            },
        );
        proof {
            assert(self@[pre@.len() as int].room_id@ == room_id@);
            assert forall|a: int, b: int| 0 <= a < b < self@.len() implies !((
            #[trigger] self@[a]).room_id@ == (#[trigger] self@[b]).room_id@ && self@[a].txn_id@
                == self@[b].txn_id@) by {
                if b < self@.len() - 1 {
                    assert(self@[a] == pre@[a]);
                    assert(self@[b] == pre@[b]);
                } else {
                    assert(self@[a] == pre@[a]);
                }
            }
        }
    }

    /// Bumps the key's attempt count (starting it at one if untracked) and
    /// reports the new count.
    fn bump(&mut self, room_id: &str, txn_id: &str) -> (n: u32)
        requires
            old(self).wf(),
            forall|c: u32|
                has_attempts(old(self)@, room_id@, txn_id@, c) ==> c < u32::MAX,
        ensures
            final(self).wf(),
            bump_step(old(self)@, room_id@, txn_id@, final(self)@, n),
            has_attempts(final(self)@, room_id@, txn_id@, n),
    {
        let ghost pre = *old(self);
        let n: usize = self.records.len();
        let mut i: usize = 0;
        while i < n
            invariant
                pre == *old(self),
                pre.wf(),
                forall|c: u32| has_attempts(pre@, room_id@, txn_id@, c) ==> c < u32::MAX,
                *self == pre,
                n == self.records.len(),
                i <= n,
                forall|j: int|
                    0 <= j < i ==> !key_matches(#[trigger] self@[j], room_id@, txn_id@),
            decreases n - i,
        {
            if eq_str(self.records[i].room_id.as_str(), room_id) && eq_str(
                self.records[i].txn_id.as_str(),
                txn_id,
            ) {
                proof {
                    assert(key_matches(pre@[i as int], room_id@, txn_id@));
                    assert(has_attempts(pre@, room_id@, txn_id@, pre@[i as int].attempts));
                }
                let bumped: u32 = self.records[i].attempts + 1;
                let room = self.records[i].room_id.clone();
                let txn = self.records[i].txn_id.clone();
                self.records.set(i, AttemptRecord { room_id: room, txn_id: txn, attempts: bumped });
                proof {
                    assert(key_matches(self@[i as int], room_id@, txn_id@));
                    assert(self@[i as int].attempts == bumped);
                    assert(forall|w: int| 0 <= w < self@.len() && w != i ==> self@[w] == pre@[w]);
                }
                return bumped;
            }
            i = i + 1;
        }
        self.records.push(
            AttemptRecord {
                room_id: room_id.to_owned(),
                txn_id: txn_id.to_owned(),
                attempts: 1,
            },
        );
        proof {
            assert(self@[pre@.len() as int].room_id@ == room_id@);
            assert forall|a: int, b: int| 0 <= a < b < self@.len() implies !((
            #[trigger] self@[a]).room_id@ == (#[trigger] self@[b]).room_id@ && self@[a].txn_id@
                == self@[b].txn_id@) by {
                if b < self@.len() - 1 {
                    assert(self@[a] == pre@[a]);
                    assert(self@[b] == pre@[b]);
                } else {
                    assert(self@[a] == pre@[a]);
                }
            }
        }
        1
    }

    /// Removes the key's record and reports the count it held (zero if the
    /// key was untracked).
    fn resolve(&mut self, room_id: &str, txn_id: &str) -> (n: u32)
        requires
            old(self).wf(),
        ensures
            final(self).wf(),
            resolve_step(old(self)@, room_id@, txn_id@, final(self)@, n),
            !contains_key(final(self)@, room_id@, txn_id@),
    {
        let ghost pre = *old(self);
        let n: usize = self.records.len();
        let mut i: usize = 0;
        while i < n
            invariant
                pre == *old(self),
                pre.wf(),
                *self == pre,
                n == self.records.len(),
                i <= n,
                forall|j: int|
                    0 <= j < i ==> !key_matches(#[trigger] self@[j], room_id@, txn_id@),
            decreases n - i,
        {
            if eq_str(self.records[i].room_id.as_str(), room_id) && eq_str(
                self.records[i].txn_id.as_str(),
                txn_id,
            ) {
                let count = self.records[i].attempts;
                self.records.remove(i);
                proof {
                    assert(key_matches(pre@[i as int], room_id@, txn_id@));
                    assert(self@ == pre@.remove(i as int));
                    assert forall|w: int|
                        0 <= w < self@.len() implies !key_matches(
                        #[trigger] self@[w],
                        room_id@,
                        txn_id@,
                    ) by {
                        if w < i {
                            assert(self@[w] == pre@[w]);
                        } else {
                            assert(self@[w] == pre@[w + 1]);
                        }
                    }
                    assert forall|a: int, b: int| 0 <= a < b < self@.len() implies !((
                    #[trigger] self@[a]).room_id@ == (#[trigger] self@[b]).room_id@
                        && self@[a].txn_id@ == self@[b].txn_id@) by {
                        if a < i {
                            assert(self@[a] == pre@[a]);
                        } else {
                            assert(self@[a] == pre@[a + 1]);
                        }
                        if b < i {
                            assert(self@[b] == pre@[b]);
                        } else {
                            assert(self@[b] == pre@[b + 1]);
                        }
                    }
                }
                return count;
            }
            i = i + 1;
        }
        0
    }

    /// Feeds one engine lifecycle event through the accounting and returns
    /// the notification to deliver, if the event warrants one. Replaced
    /// local events and media-upload progress produce no notification.
    pub fn handle_update(&mut self, room_id: &str, upd: &QueueUpdate) -> (out: Option<SendUpdate>)
        requires
            old(self).wf(),
            match upd {
                QueueUpdate::RetryEvent { transaction_id } => forall|c: u32|
                    has_attempts(old(self)@, room_id@, transaction_id@, c) ==> c < u32::MAX,
                QueueUpdate::SendError { transaction_id, .. } => forall|c: u32|
                    has_attempts(old(self)@, room_id@, transaction_id@, c) ==> c < u32::MAX,
                _ => true,
            },
        ensures
            final(self).wf(),
            match upd {
                QueueUpdate::NewLocalEvent { transaction_id } => {
                    &&& ensure_step(old(self)@, room_id@, transaction_id@, final(self)@)
                    &&& out matches Some(u) && update_matches(
                        u,
                        room_id@,
                        transaction_id@,
                        0,
                        SendState::Enqueued,
                        None,
                        None,
                    )
                },
                QueueUpdate::RetryEvent { transaction_id } => {
                    exists|n: u32|
                        {
                            &&& #[trigger] bump_step(
                                old(self)@,
                                room_id@,
                                transaction_id@,
                                final(self)@,
                                n,
                            )
                            &&& out matches Some(u) && update_matches(
                                u,
                                room_id@,
                                transaction_id@,
                                n,
                                SendState::Retrying,
                                None,
                                None,
                            )
                        }
                },
                QueueUpdate::SentEvent { transaction_id, event_id } => {
                    &&& !contains_key(final(self)@, room_id@, transaction_id@)
                    &&& exists|n: u32|
                        {
                            &&& #[trigger] resolve_step(
                                old(self)@,
                                room_id@,
                                transaction_id@,
                                final(self)@,
                                n,
                            )
                            &&& out matches Some(u) && update_matches(
                                u,
                                room_id@,
                                transaction_id@,
                                n,
                                SendState::Sent,
                                Some(event_id@),
                                None,
                            )
                        }
                },
                QueueUpdate::SendError { transaction_id, error, is_recoverable } => {
                    exists|n: u32|
                        {
                            &&& #[trigger] bump_step(
                                old(self)@,
                                room_id@,
                                transaction_id@,
                                final(self)@,
                                n,
                            )
                            &&& out matches Some(u) && update_matches(
                                u,
                                room_id@,
                                transaction_id@,
                                n,
                                SendState::Failed,
                                None,
                                Some(send_error_text(error@, *is_recoverable)),
                            )
                        }
                },
                QueueUpdate::CancelledLocalEvent { transaction_id } => {
                    &&& !contains_key(final(self)@, room_id@, transaction_id@)
                    &&& exists|n: u32|
                        #[trigger] resolve_step(
                            old(self)@,
                            room_id@,
                            transaction_id@,
                            final(self)@,
                            n,
                        )
                    &&& out matches Some(u) && update_matches(
                        u,
                        room_id@,
                        transaction_id@,
                        0,
                        SendState::Failed,
                        None,
                        Some("Cancelled before sending"@),
                    )
                },
                QueueUpdate::ReplacedLocalEvent { .. } => {
                    final(self)@ == old(self)@ && out is None
                },
                QueueUpdate::MediaUpload { .. } => {
                    final(self)@ == old(self)@ && out is None
                },
            },
    {
        match upd {
            QueueUpdate::NewLocalEvent { transaction_id } => {
                self.ensure_present(room_id, transaction_id.as_str());
                Some(
                    SendUpdate {
                        room_id: room_id.to_owned(),
                        txn_id: transaction_id.clone(),
                        attempts: 0,
                        state: SendState::Enqueued,
                        event_id: None,
                        error: None,
                    },
                )
            },
            QueueUpdate::RetryEvent { transaction_id } => {
                let n = self.bump(room_id, transaction_id.as_str());
                Some(
                    SendUpdate {
                        room_id: room_id.to_owned(),
                        txn_id: transaction_id.clone(),
                        attempts: n,
                        state: SendState::Retrying,
                        event_id: None,
                        error: None,
                    },
                )
            },
            QueueUpdate::SentEvent { transaction_id, event_id } => {
                let n = self.resolve(room_id, transaction_id.as_str());
                Some(
                    SendUpdate {
                        room_id: room_id.to_owned(),
                        txn_id: transaction_id.clone(),
                        attempts: n,
                        state: SendState::Sent,
                        event_id: Some(event_id.clone()),
                        error: None,
                    },
                )
            },
            QueueUpdate::SendError { transaction_id, error, is_recoverable } => {
                let n = self.bump(room_id, transaction_id.as_str());
                let mut text = error.clone();
                text.append(" (recoverable=");
                text.append(if *is_recoverable {
                    "true"
                } else {
                    "false"
                });
                text.append(")");
                Some(
                    SendUpdate {
                        room_id: room_id.to_owned(),
                        txn_id: transaction_id.clone(),
                        attempts: n,
                        state: SendState::Failed,
                        event_id: None,
                        error: Some(text),
                    },
                )
            },
            QueueUpdate::CancelledLocalEvent { transaction_id } => {
                let _ = self.resolve(room_id, transaction_id.as_str());
                Some(
                    SendUpdate {
                        room_id: room_id.to_owned(),
                        txn_id: transaction_id.clone(),
                        attempts: 0,
                        state: SendState::Failed,
                        event_id: None,
                        error: Some("Cancelled before sending".to_owned()),
                    },
                )
            },
            QueueUpdate::ReplacedLocalEvent { .. } => None,
            QueueUpdate::MediaUpload { .. } => None,
        }
    }
}

/// The room-scoped side channel: a hard queue-disabled error carries no
/// transaction, so it is surfaced as a failure with an empty transaction
/// identifier and touches no attempt record.
pub fn queue_error_update(room_id: &str, error: &str, is_recoverable: bool) -> (u: SendUpdate)
    ensures
        update_matches(
            u,
            room_id@,
            Seq::<char>::empty(),
            0,
            SendState::Failed,
            None,
            Some(queue_error_text(error@, is_recoverable)),
        ),
{
    let mut text = "Room send queue disabled (recoverable=".to_owned();
    text.append(if is_recoverable {
        "true"
    } else {
        "false"
    });
    text.append("): ");
    text.append(error);
    SendUpdate {
        room_id: room_id.to_owned(),
        txn_id: String::new(),
        attempts: 0,
        state: SendState::Failed,
        event_id: None,
        error: Some(text),
    }
}

/// Law: the attempt count strictly increases across successive retries or
/// recoverable failures of one transaction: each bump reports a count one
/// above the tracked count, so two bumps in a row report strictly
/// increasing counts.
pub proof fn lemma_attempts_strictly_increase(
    s0: Seq<AttemptRecord>,
    s1: Seq<AttemptRecord>,
    s2: Seq<AttemptRecord>,
    room: Seq<char>,
    txn: Seq<char>,
    n1: u32,
    n2: u32,
)
    requires
        bump_step(s0, room, txn, s1, n1),
        has_attempts(s1, room, txn, n1),
        forall|i: int, j: int|
            0 <= i < j < s1.len() ==> !((#[trigger] s1[i]).room_id@ == (
            #[trigger] s1[j]).room_id@ && s1[i].txn_id@ == s1[j].txn_id@),
        bump_step(s1, room, txn, s2, n2),
    ensures
        n2 == n1 + 1,
        n2 > n1,
{
    let w = choose|w: int| 0 <= w < s1.len() && key_matches(#[trigger] s1[w], room, txn)
        && s1[w].attempts == n1;
    assert(contains_key(s1, room, txn));
    let j = choose|j: int|
        {
            &&& 0 <= j < s1.len()
            &&& key_matches(#[trigger] s1[j], room, txn)
            &&& n2 == s1[j].attempts + 1
            &&& s2.len() == s1.len()
            &&& key_matches(s2[j], room, txn)
            &&& s2[j].attempts == n2
            &&& forall|i: int| 0 <= i < s1.len() && i != j ==> s2[i] == s1[i]
        };
    assert(j == w);
}

/// Law: a transaction is absent from the tracking the moment it is sent or
/// cancelled: terminal resolution leaves no record for its key behind.
pub proof fn lemma_absent_after_resolution(
    s0: Seq<AttemptRecord>,
    s1: Seq<AttemptRecord>,
    room: Seq<char>,
    txn: Seq<char>,
    n: u32,
)
    requires
        forall|i: int, j: int|
            0 <= i < j < s0.len() ==> !((#[trigger] s0[i]).room_id@ == (
            #[trigger] s0[j]).room_id@ && s0[i].txn_id@ == s0[j].txn_id@),
        resolve_step(s0, room, txn, s1, n),
    ensures
        !contains_key(s1, room, txn),
{
    if contains_key(s0, room, txn) {
        let j = choose|j: int|
            {
                &&& 0 <= j < s0.len()
                &&& key_matches(#[trigger] s0[j], room, txn)
                &&& n == s0[j].attempts
                &&& s1 == s0.remove(j)
            };
        assert forall|w: int| 0 <= w < s1.len() implies !key_matches(
            #[trigger] s1[w],
            room,
            txn,
        ) by {
            if w < j {
                assert(s1[w] == s0[w]);
            } else {
                assert(s1[w] == s0[w + 1]);
            }
        }
    }
}


/// The outcome of one wait on a broadcast stream, reduced to plain values:
/// an item, a lag (the receiver fell behind and intermediate values were
/// dropped), or a closed channel.
#[derive(Clone, Debug)]
pub enum RecvOutcome<T> {
    Received(T),
    Lagged(u64),
    Closed,
}

/// What a supervising loop must do with one wait's outcome.
#[derive(Clone, Copy, Debug, PartialEq, Eq, Structural)]
pub enum ChannelPolicy {
    Handle,
    SkipAndContinue,
    StopCleanly,
}

/// The backpressure policy of every supervising loop: an item is handled;
/// a lag is recoverable — skip and continue, accepting the documented
/// silent loss of intermediate values — never fatal; a closed channel ends
/// the task cleanly, with no notification and no restart.
pub fn channel_decision<T>(outcome: &RecvOutcome<T>) -> (r: ChannelPolicy)
    ensures
        r == (match outcome {
            RecvOutcome::Received(_) => ChannelPolicy::Handle,
            RecvOutcome::Lagged(_) => ChannelPolicy::SkipAndContinue,
            RecvOutcome::Closed => ChannelPolicy::StopCleanly,
        }),
{
    match outcome {
        RecvOutcome::Received(_) => ChannelPolicy::Handle,
        RecvOutcome::Lagged(_) => ChannelPolicy::SkipAndContinue,
        RecvOutcome::Closed => ChannelPolicy::StopCleanly,
    }
}

} // verus!
