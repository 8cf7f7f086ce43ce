use mages_bridge::ListDiff;
use mages_bridge::RoomData;
use mages_bridge::RoomListCmd;
use mages_bridge::RoomListFilter;
use mages_bridge::RoomListProjector;
use mages_bridge::apply_batch;
use mages_bridge::dm_peer;
use mages_bridge::entry_of;
use mages_bridge::snapshot;

fn room(id: &str, messages: u64) -> RoomData {
    RoomData {
        room_id: id.to_string(),
        display_name: Some(format!("Room {id}")),
        last_ts: 10,
        notifications: 0,
        messages,
        mentions: 0,
        marked_unread: false,
        is_favourite: false,
        is_low_priority: false,
        avatar_url: None,
        dm_peer_avatar_url: None,
        is_dm: false,
        is_encrypted: false,
        member_count: 2,
        topic: None,
        latest_event: None,
        is_left: false,
    }
}

#[test]
fn replaying_batches_keeps_mirror_and_reference_identical() {
    // The reference list is maintained by hand; the projector's mirror is
    // maintained by the library. Their flattened snapshots agree after
    // every changed batch.
    let all = RoomListFilter { unread_only: false };
    let batches: Vec<Vec<ListDiff<RoomData>>> = vec![
        vec![ListDiff::Reset { values: vec![room("!a", 0), room("!b", 1)] }],
        vec![
            ListDiff::PushBack { value: room("!c", 2) },
            ListDiff::PushFront { value: room("!z", 0) },
        ],
        vec![ListDiff::SetIndex { index: 1, value: room("!a2", 5) }],
        vec![ListDiff::Remove { index: 0 }, ListDiff::PopBack],
        vec![ListDiff::Insert { index: 1, value: room("!m", 0) }],
        vec![ListDiff::Truncate { length: 1 }],
    ];

    let mut projector = RoomListProjector::new();
    let mut reference: Vec<RoomData> = Vec::new();

    for batch in batches {
        let reference_batch: Vec<ListDiff<RoomData>> = batch.clone();
        let changed_ref = apply_batch(&mut reference, reference_batch);
        let out = projector.on_diffs(batch);
        match out {
            Some(snap) => {
                assert!(changed_ref);
                let expect = snapshot(&reference, &all);
                assert_eq!(snap.len(), expect.len());
                for (a, b) in snap.iter().zip(expect.iter()) {
                    assert_eq!(a.room_id, b.room_id);
                    assert_eq!(a.name, b.name);
                    assert_eq!(a.messages, b.messages);
                }
            }
            None => assert!(!changed_ref),
        }
    }
}

#[test]
fn unchanged_batch_emits_no_snapshot() {
    let mut projector = RoomListProjector::new();
    // Popping the front of an empty mirror changes nothing.
    let out = projector.on_diffs(vec![ListDiff::PopFront]);
    assert!(out.is_none());
    // An out-of-range insert changes nothing either.
    let out = projector.on_diffs(vec![ListDiff::Insert { index: 5, value: room("!x", 0) }]);
    assert!(out.is_none());
}

#[test]
fn unread_only_filter_swap_takes_effect_on_next_snapshot() {
    let mut projector = RoomListProjector::new();
    let out = projector.on_diffs(vec![ListDiff::Reset {
        values: vec![room("!quiet", 0), room("!busy", 3)],
    }]);
    let snap = out.unwrap();
    assert_eq!(snap.len(), 2);

    // The side command swaps the filter without tearing anything down.
    projector.apply_command(RoomListCmd::SetUnreadOnly(true));
    let out = projector.on_diffs(vec![ListDiff::PushBack { value: room("!alsoquiet", 0) }]);
    let snap = out.unwrap();
    assert_eq!(snap.len(), 1);
    assert_eq!(snap[0].room_id, "!busy");
    assert!(snap[0].messages > 0);

    projector.apply_command(RoomListCmd::SetUnreadOnly(false));
    let out = projector.on_diffs(vec![ListDiff::PopBack]);
    let snap = out.unwrap();
    assert_eq!(snap.len(), 2);
}

#[test]
fn left_rooms_never_appear_in_a_snapshot() {
    let mut left = room("!gone", 9);
    left.is_left = true;
    let mirror = vec![room("!here", 1), left];
    let snap = snapshot(&mirror, &RoomListFilter { unread_only: false });
    assert_eq!(snap.len(), 1);
    assert_eq!(snap[0].room_id, "!here");
}

#[test]
fn entry_fallbacks_and_clamping() {
    let mut d = room("!dm", 0);
    d.display_name = None;
    d.is_dm = true;
    d.avatar_url = None;
    d.dm_peer_avatar_url = Some("mxc://x/peer".to_string());
    d.member_count = 6_000_000_000;
    let e = entry_of(&d);
    // The name falls back to the room identifier.
    assert_eq!(e.name, "!dm");
    // A missing avatar falls back to the direct-message peer's.
    assert_eq!(e.avatar_url.as_deref(), Some("mxc://x/peer"));
    // The member count is clamped to its field width.
    assert_eq!(e.member_count, u32::MAX);
}

#[test]
fn entry_keeps_room_avatar_when_present() {
    let mut d = room("!r", 0);
    d.avatar_url = Some("mxc://x/own".to_string());
    d.is_dm = true;
    d.dm_peer_avatar_url = Some("mxc://x/peer".to_string());
    let e = entry_of(&d);
    assert_eq!(e.avatar_url.as_deref(), Some("mxc://x/own"));
}

#[test]
fn dm_peer_skips_the_user_themselves() {
    let me = "@me:x".to_string();
    let targets = vec!["@me:x".to_string(), "@peer:x".to_string()];
    assert_eq!(dm_peer(&targets, Some(&me)).as_deref(), Some("@peer:x"));
    let only_me = vec!["@me:x".to_string()];
    assert!(dm_peer(&only_me, Some(&me)).is_none());
    assert_eq!(dm_peer(&targets, None).as_deref(), Some("@me:x"));
    assert!(dm_peer(&Vec::new(), Some(&me)).is_none());
}
