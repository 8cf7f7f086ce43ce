use mages_bridge::DisplayNameChange;
use mages_bridge::ItemContent;
use mages_bridge::MembershipChangeData;
use mages_bridge::MembershipKind;
use mages_bridge::MsgLikeData;
use mages_bridge::OtherStateData;
use mages_bridge::PollAnswerData;
use mages_bridge::PollDefinition;
use mages_bridge::PollKind;
use mages_bridge::PollStateData;
use mages_bridge::ProfileChangeData;
use mages_bridge::ProfileData;
use mages_bridge::TimelineItemData;
use mages_bridge::VoteData;
use mages_bridge::build_poll_answers;
use mages_bridge::latest_room_event_for;
use mages_bridge::map_poll_state;
use mages_bridge::poll_max_selections;
use mages_bridge::render_membership_change;
use mages_bridge::render_message_text;
use mages_bridge::render_other_state;
use mages_bridge::render_profile_change;

#[test]
fn membership_changes_render_to_exact_texts() {
    let joined = MembershipChangeData {
        user_id: "@bob:x".to_string(),
        change: Some(MembershipKind::Joined),
    };
    assert_eq!(render_membership_change("@alice:x", &joined), "@bob:x joined the room");
    let invited = MembershipChangeData {
        user_id: "@bob:x".to_string(),
        change: Some(MembershipKind::Invited),
    };
    assert_eq!(render_membership_change("@alice:x", &invited), "@alice:x invited @bob:x");
    let unknown = MembershipChangeData { user_id: "@bob:x".to_string(), change: None };
    assert_eq!(render_membership_change("@alice:x", &unknown), "@bob:x updated membership");
}

#[test]
fn profile_changes_render_to_exact_texts() {
    let set = ProfileChangeData {
        user_id: "@bob:x".to_string(),
        displayname_change: Some(DisplayNameChange {
            old_name: None,
            new_name: Some("Bob".to_string()),
        }),
        avatar_changed: false,
    };
    assert_eq!(render_profile_change(&set), "@bob:x set their display name to “Bob”");
    let changed = ProfileChangeData {
        user_id: "@bob:x".to_string(),
        displayname_change: Some(DisplayNameChange {
            old_name: Some("Bob".to_string()),
            new_name: Some("Bobby".to_string()),
        }),
        avatar_changed: false,
    };
    assert_eq!(
        render_profile_change(&changed),
        "@bob:x changed their display name from “Bob” to “Bobby”"
    );
    let same = ProfileChangeData {
        user_id: "@bob:x".to_string(),
        displayname_change: Some(DisplayNameChange {
            old_name: Some("Bob".to_string()),
            new_name: Some("Bob".to_string()),
        }),
        avatar_changed: true,
    };
    assert_eq!(render_profile_change(&same), "@bob:x updated their avatar");
    let nothing = ProfileChangeData {
        user_id: "@bob:x".to_string(),
        displayname_change: None,
        avatar_changed: false,
    };
    assert_eq!(render_profile_change(&nothing), "@bob:x updated their profile");
}

#[test]
fn other_state_renders_to_exact_texts() {
    assert_eq!(
        render_other_state("@a:x", &OtherStateData::RoomName { name: "Ops".to_string() }),
        "@a:x changed the room name to Ops"
    );
    assert_eq!(
        render_other_state("@a:x", &OtherStateData::RoomEncryption),
        "Encryption enabled for this room"
    );
    assert_eq!(
        render_other_state("@a:x", &OtherStateData::Other { event_type: "m.space.child".to_string() }),
        "@a:x updated state: m.space.child"
    );
}

#[test]
fn empty_message_bodies_get_the_placeholder() {
    assert_eq!(render_message_text("hi"), "hi");
    assert_eq!(
        render_message_text("  \t "),
        "Encrypted or unsupported message. Verify this session or restore keys to view."
    );
}

#[test]
fn poll_projection_counts_votes_selections_and_winners() {
    let state = PollStateData {
        question: "Lunch?".to_string(),
        answers: vec![
            PollAnswerData { id: "a".to_string(), text: "Pizza".to_string() },
            PollAnswerData { id: "b".to_string(), text: "Sushi".to_string() },
            PollAnswerData { id: "c".to_string(), text: "Salad".to_string() },
        ],
        votes: vec![
            VoteData {
                answer_id: "a".to_string(),
                voters: vec!["@me:x".to_string(), "@bob:x".to_string()],
            },
            VoteData { answer_id: "b".to_string(), voters: vec!["@carol:x".to_string()] },
        ],
        is_ended: true,
        kind: PollKind::Disclosed,
        max_selections: 1,
    };
    let d = map_poll_state(&state, "@me:x");
    assert_eq!(d.question, "Lunch?");
    assert_eq!(d.kind, PollKind::Disclosed);
    assert_eq!(d.max_selections, 1);
    assert!(d.is_ended);
    assert_eq!(d.total_votes, 3);
    assert_eq!(d.options.len(), 3);
    assert_eq!(d.options[0].votes, 2);
    assert!(d.options[0].is_selected);
    assert!(d.options[0].is_winner);
    assert_eq!(d.options[1].votes, 1);
    assert!(!d.options[1].is_selected);
    assert!(!d.options[1].is_winner);
    assert_eq!(d.options[2].votes, 0);
    assert!(!d.options[2].is_winner);
}

#[test]
fn open_poll_has_no_winners() {
    let state = PollStateData {
        question: "Q".to_string(),
        answers: vec![PollAnswerData { id: "a".to_string(), text: "A".to_string() }],
        votes: vec![VoteData { answer_id: "a".to_string(), voters: vec!["@v:x".to_string()] }],
        is_ended: false,
        kind: PollKind::Undisclosed,
        max_selections: 2,
    };
    let d = map_poll_state(&state, "@me:x");
    assert!(!d.options[0].is_winner);
    assert_eq!(d.options[0].votes, 1);
}

#[test]
fn poll_answer_ids_run_from_a_onward() {
    let def = PollDefinition {
        question: "Q".to_string(),
        answers: vec!["one".to_string(), "two".to_string(), "three".to_string()],
        kind: PollKind::Disclosed,
        max_selections: 0,
    };
    let answers = build_poll_answers(&def);
    assert_eq!(answers.len(), 3);
    assert_eq!(answers[0].id, "a");
    assert_eq!(answers[1].id, "b");
    assert_eq!(answers[2].id, "c");
    assert_eq!(answers[2].text, "three");
    // At least one selection is always allowed.
    assert_eq!(poll_max_selections(&def), 1);
}

#[test]
fn latest_event_renders_types_and_flags() {
    let redacted = TimelineItemData {
        event_id: Some("$r:x".to_string()),
        txn_id: None,
        timestamp_ms: 42,
        sender: "@a:x".to_string(),
        sender_profile: ProfileData::Unavailable,
        send_state: None,
        content: ItemContent::MsgLike { in_reply_to: None, kind: MsgLikeData::Redacted },
        thread_root_event_id: None,
    };
    let e = latest_room_event_for(&redacted);
    assert!(e.is_redacted);
    assert!(!e.is_encrypted);
    assert!(e.body.is_none());
    assert_eq!(e.event_type, "m.room.message");
    assert_eq!(e.timestamp, 42);

    let undecryptable = TimelineItemData {
        content: ItemContent::MsgLike { in_reply_to: None, kind: MsgLikeData::UnableToDecrypt },
        ..redacted.clone()
    };
    let e = latest_room_event_for(&undecryptable);
    assert!(e.is_encrypted);
    assert!(!e.is_redacted);

    let call = TimelineItemData { content: ItemContent::CallInvite, ..redacted };
    let e = latest_room_event_for(&call);
    assert_eq!(e.event_type, "m.call.invite");
    assert!(e.body.is_none());
}
