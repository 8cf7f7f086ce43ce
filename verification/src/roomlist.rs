//! Room-list snapshotting: maintains a local ordered mirror of the user's
//! rooms, updated by the full diff algebra from the live query. Whenever
//! an applied batch changes the mirror, the whole mirror is flattened into
//! a snapshot of per-room summaries under the active filter and delivered
//! as a full reset (never an incremental diff). A side command can swap
//! the filter without tearing the subscription down.

use vstd::prelude::*;

use crate::diff::ListDiff;
use crate::diff::apply_batch;
use crate::diff::lemma_replay_matches_reference;
use crate::diff::spec_apply_batch;
use crate::diff::spec_replay;
use crate::util::clone_opt_string;
use crate::util::eq_str;

verus! {

/// The rendering of a room's latest event, as persisted and delivered.
#[derive(Clone, Debug)]
pub struct LatestRoomEvent {
    pub event_id: String,
    pub sender: String,
    pub body: Option<String>,
    pub msgtype: Option<String>,
    pub event_type: String,
    pub timestamp: i64,
    pub is_redacted: bool,
    pub is_encrypted: bool,
}

/// One room's summary in a delivered snapshot.
#[derive(Clone, Debug)]
pub struct RoomListEntry {
    pub room_id: String,
    pub name: String,
    pub last_ts: u64,
    pub notifications: u64,
    pub messages: u64,
    pub mentions: u64,
    pub marked_unread: bool,
    pub is_favourite: bool,
    pub is_low_priority: bool,
    pub avatar_url: Option<String>,
    pub is_dm: bool,
    pub is_encrypted: bool,
    pub member_count: u32,
    pub topic: Option<String>,
    pub latest_event: Option<LatestRoomEvent>,
}

/// The callback a consumer registers to receive room-list snapshots.
pub trait RoomListObserver {
    fn on_reset(&self, items: Vec<RoomListEntry>);
    fn on_update(&self, item: RoomListEntry);
}

/// One room of the mirror: the plain values the flattening reads, as the
/// engine reports them for a live room-list item.
#[derive(Clone, Debug)]
pub struct RoomData {
    pub room_id: String,
    /// The cached display name, if the engine has one.
    pub display_name: Option<String>,
    pub last_ts: u64,
    pub notifications: u64,
    pub messages: u64,
    pub mentions: u64,
    pub marked_unread: bool,
    pub is_favourite: bool,
    pub is_low_priority: bool,
    pub avatar_url: Option<String>,
    /// The direct-message peer's avatar, used when the room has none.
    pub dm_peer_avatar_url: Option<String>,
    pub is_dm: bool,
    pub is_encrypted: bool,
    pub member_count: u64,
    pub topic: Option<String>,
    pub latest_event: Option<LatestRoomEvent>,
    /// Whether the user has left the room; such rooms never appear in a
    /// snapshot.
    pub is_left: bool,
}

/// The side command a consumer can send to a live room-list subscription.
#[derive(Clone, Copy, Debug, PartialEq, Eq, Structural)]
pub enum RoomListCmd {
    SetUnreadOnly(bool),
}

/// The active filter predicate of a room-list subscription.
#[derive(Clone, Copy, Debug, PartialEq, Eq, Structural)]
pub struct RoomListFilter {
    pub unread_only: bool,
}

/// Whether a room counts as unread for the unread-only filter.
pub open spec fn spec_unread(d: RoomData) -> bool {
    d.notifications > 0 || d.messages > 0 || d.mentions > 0 || d.marked_unread
}

/// Whether a room passes the filter: left rooms never do; with the
/// unread-only filter active, only unread rooms do.
pub open spec fn spec_passes(f: RoomListFilter, d: RoomData) -> bool {
    !d.is_left && (!f.unread_only || spec_unread(d))
}

/// The summary a mirror room flattens to: the display name falls back to
/// the room identifier, a missing avatar falls back to the direct-message
/// peer's, and the member count is clamped to its field width.
pub open spec fn spec_entry_of(d: RoomData) -> RoomListEntry {
    RoomListEntry {
        room_id: d.room_id,
        name: match d.display_name {
            Some(n) => n,
            None => d.room_id,
        },
        last_ts: d.last_ts,
        notifications: d.notifications,
        messages: d.messages,
        mentions: d.mentions,
        marked_unread: d.marked_unread,
        is_favourite: d.is_favourite,
        is_low_priority: d.is_low_priority,
        avatar_url: match d.avatar_url {
            Some(a) => Some(a),
            None => {
                if d.is_dm {
                    d.dm_peer_avatar_url
                } else {
                    None
                }
            },
        },
        is_dm: d.is_dm,
        is_encrypted: d.is_encrypted,
        member_count: if d.member_count > 0xffff_ffff {
            0xffff_ffffu32
        } else {
            d.member_count as u32
        },
        topic: d.topic,
        latest_event: d.latest_event,
    }
}

/// The snapshot a mirror flattens to under a filter: the entries of the
/// rooms that pass, in mirror order.
pub open spec fn spec_snapshot(s: Seq<RoomData>, f: RoomListFilter) -> Seq<RoomListEntry>
    decreases s.len(),
{
    if s.len() == 0 {
        Seq::empty()
    } else {
        let rest = spec_snapshot(s.drop_first(), f);
        if spec_passes(f, s[0]) {
            seq![spec_entry_of(s[0])] + rest
        } else {
            rest
        }
    }
}

/// Copies a latest-event rendering.
fn clone_latest(e: &LatestRoomEvent) -> (r: LatestRoomEvent)
    ensures
        r == *e,
{
    LatestRoomEvent {
        event_id: e.event_id.clone(),
        sender: e.sender.clone(),
        body: clone_opt_string(&e.body),
        msgtype: clone_opt_string(&e.msgtype),
        event_type: e.event_type.clone(),
        timestamp: e.timestamp,
        is_redacted: e.is_redacted,
        is_encrypted: e.is_encrypted,
    }
}

/// Whether a room counts as unread for the unread-only filter.
pub fn is_unread(d: &RoomData) -> (r: bool)
    ensures
        r == spec_unread(*d),
{
    d.notifications > 0 || d.messages > 0 || d.mentions > 0 || d.marked_unread
}

/// Whether a room passes the filter.
pub fn passes(f: &RoomListFilter, d: &RoomData) -> (r: bool)
    ensures
        r == spec_passes(*f, *d),
{
    !d.is_left && (!f.unread_only || is_unread(d))
}

/// Flattens one mirror room into its summary.
pub fn entry_of(d: &RoomData) -> (e: RoomListEntry)
    ensures
        e == spec_entry_of(*d),
{
    let name = match &d.display_name {
        Some(n) => n.clone(),
        None => d.room_id.clone(),
    };
    let avatar_url = match &d.avatar_url {
        Some(a) => Some(a.clone()),
        None => {
            if d.is_dm {
                clone_opt_string(&d.dm_peer_avatar_url)
            } else {
                None
            }
        },
    };
    let member_count: u32 = if d.member_count > 0xffff_ffff {
        0xffff_ffffu32
    } else {
        d.member_count as u32
    };
    let latest_event = match &d.latest_event {
        Some(e) => Some(clone_latest(e)),
        None => None,
    };
    RoomListEntry {
        room_id: d.room_id.clone(),
        name,
        last_ts: d.last_ts,
        notifications: d.notifications,
        messages: d.messages,
        mentions: d.mentions,
        marked_unread: d.marked_unread,
        is_favourite: d.is_favourite,
        is_low_priority: d.is_low_priority,
        avatar_url,
        is_dm: d.is_dm,
        is_encrypted: d.is_encrypted,
        member_count,
        topic: clone_opt_string(&d.topic),
        latest_event,
    }
}

/// Flattens the whole mirror under the filter.
pub fn snapshot(mirror: &Vec<RoomData>, f: &RoomListFilter) -> (out: Vec<RoomListEntry>)
    ensures
        out@ == spec_snapshot(mirror@, *f),
{
    let mut out: Vec<RoomListEntry> = Vec::new();
    let n: usize = mirror.len();
    let mut i: usize = 0;
    proof {
        assert(mirror@.skip(0) =~= mirror@);
    }
    while i < n
        invariant
            n == mirror.len(),
            i <= n,
            spec_snapshot(mirror@, *f) == out@ + spec_snapshot(mirror@.skip(i as int), *f),
        decreases n - i,
    {
        let ghost pre = out@;
        if passes(f, &mirror[i]) {
            out.push(entry_of(&mirror[i]));
        }
        proof {
            assert(mirror@.skip(i as int).drop_first() =~= mirror@.skip(i + 1));
            assert(mirror@.skip(i as int)[0] == mirror@[i as int]);
            if spec_passes(*f, mirror@[i as int]) {
                assert(out@ + spec_snapshot(mirror@.skip(i + 1), *f) =~= pre + (seq![
                    spec_entry_of(mirror@[i as int]),
                ] + spec_snapshot(mirror@.skip(i + 1), *f)));
            }
        }
        i = i + 1;
    }
    proof {
        assert(spec_snapshot(mirror@.skip(n as int), *f) =~= Seq::<RoomListEntry>::empty());
        assert(out@ + Seq::<RoomListEntry>::empty() =~= out@);
    }
    out
}

/// The live room-list projection: the mirror and the active filter.
pub struct RoomListProjector {
    mirror: Vec<RoomData>,
    filter: RoomListFilter,
}

impl RoomListProjector {
    /// The mirror as the reference list the diffs have built.
    pub closed spec fn mirror_view(&self) -> Seq<RoomData> {
        self.mirror@
    }

    /// The active filter.
    pub closed spec fn filter_view(&self) -> RoomListFilter {
        self.filter
    }

    /// A fresh projection: empty mirror, no unread-only filter.
    pub fn new() -> (p: RoomListProjector)
        ensures
            p.mirror_view() == Seq::<RoomData>::empty(),
            p.filter_view() == (RoomListFilter { unread_only: false }),
    {
        RoomListProjector { mirror: Vec::new(), filter: RoomListFilter { unread_only: false } }
    }

    /// Applies a side command: swapping the filter touches neither the
    /// mirror nor the subscription.
    pub fn apply_command(&mut self, cmd: RoomListCmd)
        ensures
            final(self).mirror_view() == old(self).mirror_view(),
            final(self).filter_view() == (match cmd {
                RoomListCmd::SetUnreadOnly(u) => RoomListFilter { unread_only: u },
            }),
    {
        match cmd {
            RoomListCmd::SetUnreadOnly(u) => {
                self.filter = RoomListFilter { unread_only: u };
            },
        }
    }

    /// Applies one diff batch to the mirror; when anything changed, the
    /// whole mirror is flattened under the active filter and handed back
    /// for persisting and a full-reset delivery. An unchanged batch hands
    /// back nothing.
    pub fn on_diffs(&mut self, diffs: Vec<ListDiff<RoomData>>) -> (out: Option<
        Vec<RoomListEntry>,
    >)
        ensures
            final(self).filter_view() == old(self).filter_view(),
            final(self).mirror_view() == spec_apply_batch(old(self).mirror_view(), diffs@).0,
            match out {
                Some(snap) => spec_apply_batch(old(self).mirror_view(), diffs@).1 && snap@
                    == spec_snapshot(final(self).mirror_view(), final(self).filter_view()),
                None => !spec_apply_batch(old(self).mirror_view(), diffs@).1,
            },
    {
        let changed = apply_batch(&mut self.mirror, diffs);
        if changed {
            Some(snapshot(&self.mirror, &self.filter))
        } else {
            None
        }
    }
}

/// The direct-message peer: the first direct target that is not the user
/// themselves (any target, when the user is unknown).
pub open spec fn spec_dm_peer(targets: Seq<String>, me: Option<Seq<char>>) -> Option<String>
    decreases targets.len(),
{
    if targets.len() == 0 {
        None
    } else if (match me {
        Some(m) => targets[0]@ != m,
        None => true,
    }) {
        Some(targets[0])
    } else {
        spec_dm_peer(targets.drop_first(), me)
    }
}

/// Picks the direct-message peer out of a room's direct targets.
pub fn dm_peer(targets: &Vec<String>, me: Option<&String>) -> (r: Option<String>)
    ensures
        r == spec_dm_peer(
            targets@,
            match me {
                Some(m) => Some(m@),
                None => None,
            },
        ),
{
    let ghost me_view: Option<Seq<char>> = match me {
        Some(m) => Some(m@),
        None => None,
    };
    let n: usize = targets.len();
    let mut i: usize = 0;
    proof {
        assert(targets@.skip(0) =~= targets@);
    }
    while i < n
        invariant
            n == targets.len(),
            i <= n,
            me_view == (match me {
                Some(m) => Some(m@),
                None => None,
            }),
            spec_dm_peer(targets@, me_view) == spec_dm_peer(targets@.skip(i as int), me_view),
        decreases n - i,
    {
        let is_me = match me {
            Some(m) => eq_str(targets[i].as_str(), m.as_str()),
            None => false,
        };
        proof {
            assert(targets@.skip(i as int)[0] == targets@[i as int]);
            assert(targets@.skip(i as int).drop_first() =~= targets@.skip(i + 1));
        }
        if !is_me {
            return Some(targets[i].clone());
        }
        i = i + 1;
    }
    None
}

/// Law: with the unread-only filter active, every room of a delivered
/// snapshot is unread: it has unread messages, notifications or mentions,
/// or is marked unread.
pub proof fn lemma_unread_only_snapshot(s: Seq<RoomData>, f: RoomListFilter, i: int)
    requires
        f.unread_only,
        0 <= i < spec_snapshot(s, f).len(),
    ensures
        spec_snapshot(s, f)[i].notifications > 0 || spec_snapshot(s, f)[i].messages > 0
            || spec_snapshot(s, f)[i].mentions > 0 || spec_snapshot(s, f)[i].marked_unread,
    decreases s.len(),
{
    if s.len() > 0 {
        if spec_passes(f, s[0]) {
            if i > 0 {
                lemma_unread_only_snapshot(s.drop_first(), f, i - 1);
            }
        } else {
            lemma_unread_only_snapshot(s.drop_first(), f, i);
        }
    }
}


/// Law: replaying an arbitrary sequence of diff batches, a mirror
/// maintained batch by batch equals the reference in-memory list after
/// every prefix, so the two flatten to identical snapshots under any
/// filter after every batch (the changed ones included).
pub proof fn lemma_projector_matches_reference(
    states: Seq<Seq<RoomData>>,
    batches: Seq<Seq<ListDiff<RoomData>>>,
    changes: Seq<bool>,
    k: int,
    f: RoomListFilter,
)
    requires
        states.len() == batches.len() + 1,
        changes.len() == batches.len(),
        forall|i: int|
            0 <= i < batches.len() ==> (#[trigger] states[i + 1], changes[i]) == spec_apply_batch(
                states[i],
                batches[i],
            ),
        0 <= k <= batches.len(),
    ensures
        states[k] == spec_replay(states[0], batches.take(k)),
        spec_snapshot(states[k], f) == spec_snapshot(spec_replay(states[0], batches.take(k)), f),
{
    lemma_replay_matches_reference(states, batches, changes, k);
}

} // verus!
