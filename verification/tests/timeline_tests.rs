use mages_bridge::AttachmentKind;
use mages_bridge::ItemContent;
use mages_bridge::ItemSendState;
use mages_bridge::ListDiff;
use mages_bridge::MediaInfoData;
use mages_bridge::MediaSourceData;
use mages_bridge::MessageData;
use mages_bridge::MessageKind;
use mages_bridge::MsgLikeData;
use mages_bridge::ProfileData;
use mages_bridge::ReplyDetails;
use mages_bridge::SendState;
use mages_bridge::TimelineDiffKind;
use mages_bridge::TimelineItemData;
use mages_bridge::TimelineSourceItem;
use mages_bridge::map_timeline_event;
use mages_bridge::map_vec_diff;
use mages_bridge::strip_reply_fallback;

fn text_item(id: &str, body: &str) -> TimelineSourceItem {
    TimelineSourceItem {
        unique_id: id.to_string(),
        event: Some(TimelineItemData {
            event_id: Some(format!("${id}:x")),
            txn_id: None,
            timestamp_ms: 1_700_000_000_000,
            sender: "@alice:x".to_string(),
            sender_profile: ProfileData::Ready {
                display_name: Some("Alice".to_string()),
                avatar_url: None,
            },
            send_state: None,
            content: ItemContent::MsgLike {
                in_reply_to: None,
                kind: MsgLikeData::Message(MessageData {
                    body: body.to_string(),
                    is_edited: false,
                    kind: MessageKind::Text,
                }),
            },
            thread_root_event_id: None,
        }),
    }
}

fn virtual_item(id: &str) -> TimelineSourceItem {
    TimelineSourceItem { unique_id: id.to_string(), event: None }
}

#[test]
fn insert_projects_to_upsert_by_item_id() {
    // The backing list may hold any number of items; an interior insert
    // never projects to a positional insert.
    let item = text_item("X", "hello");
    let (out, _) = map_vec_diff(
        ListDiff::Insert { index: 2, value: item },
        "!room:x",
        "@me:x",
    );
    match out.unwrap() {
        TimelineDiffKind::UpsertByItemId { item_id, value } => {
            assert_eq!(item_id, "X");
            assert_eq!(value.item_id, "X");
            assert_eq!(value.body, "hello");
            assert_eq!(value.room_id, "!room:x");
        }
        other => panic!("expected an upsert by item id, got {other:?}"),
    }
}

#[test]
fn set_projects_to_upsert_by_item_id() {
    // Set-at-index and insert-at-index both project to an upsert by item
    // identity: the external store keys by identity and cannot trust
    // positions.
    let item = text_item("Y", "edited");
    let (out, _) = map_vec_diff(
        ListDiff::SetIndex { index: 0, value: item },
        "!room:x",
        "@me:x",
    );
    match out.unwrap() {
        TimelineDiffKind::UpsertByItemId { item_id, value } => {
            assert_eq!(item_id, "Y");
            assert_eq!(value.body, "edited");
        }
        other => panic!("expected an upsert by item id, got {other:?}"),
    }
}

#[test]
fn interior_remove_is_intentionally_dropped() {
    // No notification is emitted for a lone positional removal; the
    // observer's view goes stale until the next reset, by design.
    let (out, fetches) = map_vec_diff(
        ListDiff::<TimelineSourceItem>::Remove { index: 3 },
        "!room:x",
        "@me:x",
    );
    assert!(out.is_none());
    assert!(fetches.is_empty());
}

#[test]
fn reset_renders_all_event_items_and_skips_virtual_ones() {
    let (out, _) = map_vec_diff(
        ListDiff::Reset {
            values: vec![text_item("a", "one"), virtual_item("divider"), text_item("b", "two")],
        },
        "!room:x",
        "@me:x",
    );
    match out.unwrap() {
        TimelineDiffKind::Reset { values } => {
            assert_eq!(values.len(), 2);
            assert_eq!(values[0].item_id, "a");
            assert_eq!(values[0].body, "one");
            assert_eq!(values[1].item_id, "b");
        }
        other => panic!("expected a reset, got {other:?}"),
    }
}

#[test]
fn append_of_only_virtual_items_is_dropped() {
    let (out, _) = map_vec_diff(
        ListDiff::Append { values: vec![virtual_item("v1"), virtual_item("v2")] },
        "!room:x",
        "@me:x",
    );
    assert!(out.is_none());
}

#[test]
fn unresolved_reply_requests_a_detail_fetch() {
    let mut item = text_item("r", "> quoted\n\nanswer");
    if let Some(ev) = item.event.as_mut() {
        ev.content = ItemContent::MsgLike {
            in_reply_to: Some(ReplyDetails {
                event_id: "$orig:x".to_string(),
                embedded: None,
            }),
            kind: MsgLikeData::Message(MessageData {
                body: "> quoted\n\nanswer".to_string(),
                is_edited: false,
                kind: MessageKind::Text,
            }),
        };
    }
    let (out, fetches) = map_vec_diff(
        ListDiff::PushBack { value: item },
        "!room:x",
        "@me:x",
    );
    assert_eq!(fetches, vec!["$orig:x".to_string()]);
    match out.unwrap() {
        TimelineDiffKind::PushBack { value } => {
            // The reply fallback is stripped from the body.
            assert_eq!(value.body, "answer");
            assert_eq!(value.reply_to_event_id.as_deref(), Some("$orig:x"));
            assert!(value.reply_to_sender.is_none());
        }
        other => panic!("expected a push-back, got {other:?}"),
    }
}

#[test]
fn pop_and_clear_and_truncate_pass_through() {
    let (out, _) = map_vec_diff(
        ListDiff::<TimelineSourceItem>::PopBack,
        "!r:x",
        "@me:x",
    );
    assert!(matches!(out.unwrap(), TimelineDiffKind::PopBack));
    let (out, _) = map_vec_diff(
        ListDiff::<TimelineSourceItem>::PopFront,
        "!r:x",
        "@me:x",
    );
    assert!(matches!(out.unwrap(), TimelineDiffKind::PopFront));
    let (out, _) = map_vec_diff(
        ListDiff::<TimelineSourceItem>::Clear,
        "!r:x",
        "@me:x",
    );
    assert!(matches!(out.unwrap(), TimelineDiffKind::Clear));
    let (out, _) = map_vec_diff(
        ListDiff::<TimelineSourceItem>::Truncate { length: 7 },
        "!r:x",
        "@me:x",
    );
    match out.unwrap() {
        TimelineDiffKind::Truncate { length } => assert_eq!(length, 7),
        other => panic!("expected a truncate, got {other:?}"),
    }
}

#[test]
fn local_echo_derives_sending_state_and_txn_item_id() {
    let ev = TimelineItemData {
        event_id: None,
        txn_id: Some("txn-7".to_string()),
        timestamp_ms: 5,
        sender: "@me:x".to_string(),
        sender_profile: ProfileData::Unavailable,
        send_state: Some(ItemSendState::NotSentYet),
        content: ItemContent::MsgLike {
            in_reply_to: None,
            kind: MsgLikeData::Message(MessageData {
                body: "hi".to_string(),
                is_edited: false,
                kind: MessageKind::Text,
            }),
        },
        thread_root_event_id: None,
    };
    let m = map_timeline_event(&ev, "!r:x", None, "@me:x").unwrap();
    assert_eq!(m.send_state, Some(SendState::Sending));
    assert_eq!(m.item_id, "txn-7");
    assert_eq!(m.event_id, "");
    assert_eq!(m.txn_id.as_deref(), Some("txn-7"));
}

#[test]
fn sent_state_carries_its_event_id() {
    let ev = TimelineItemData {
        event_id: None,
        txn_id: Some("txn-8".to_string()),
        timestamp_ms: 5,
        sender: "@me:x".to_string(),
        sender_profile: ProfileData::Unavailable,
        send_state: Some(ItemSendState::SentWith { event_id: "$sent:x".to_string() }),
        content: ItemContent::MsgLike {
            in_reply_to: None,
            kind: MsgLikeData::Message(MessageData {
                body: "hi".to_string(),
                is_edited: false,
                kind: MessageKind::Text,
            }),
        },
        thread_root_event_id: None,
    };
    let m = map_timeline_event(&ev, "!r:x", Some("item-8"), "@me:x").unwrap();
    assert_eq!(m.send_state, Some(SendState::Sent));
    assert_eq!(m.event_id, "$sent:x");
    assert_eq!(m.item_id, "item-8");
}

#[test]
fn video_attachment_falls_back_to_full_video_thumbnail() {
    let ev = TimelineItemData {
        event_id: Some("$v:x".to_string()),
        txn_id: None,
        timestamp_ms: 5,
        sender: "@a:x".to_string(),
        sender_profile: ProfileData::Unavailable,
        send_state: None,
        content: ItemContent::MsgLike {
            in_reply_to: None,
            kind: MsgLikeData::Message(MessageData {
                body: "clip.mp4".to_string(),
                is_edited: false,
                kind: MessageKind::Video {
                    source: MediaSourceData {
                        url: "mxc://x/vid".to_string(),
                        encrypted_json: None,
                    },
                    info: Some(MediaInfoData {
                        mimetype: Some("video/mp4".to_string()),
                        size: Some(1024),
                        width: Some(640),
                        height: Some(480),
                        duration_ms: Some(9000),
                        thumbnail_source: None,
                    }),
                },
            }),
        },
        thread_root_event_id: None,
    };
    let m = map_timeline_event(&ev, "!r:x", None, "@me:x").unwrap();
    let att = m.attachment.unwrap();
    assert_eq!(att.kind, AttachmentKind::Video);
    assert_eq!(att.mxc_uri, "mxc://x/vid");
    assert_eq!(att.thumbnail_mxc_uri.as_deref(), Some("mxc://x/vid"));
    assert_eq!(att.duration_ms, Some(9000));
    assert!(att.encrypted.is_none());
}

#[test]
fn strip_reply_fallback_cases() {
    assert_eq!(strip_reply_fallback("> a\n> b\n\nhello"), "hello");
    assert_eq!(strip_reply_fallback("> a\nhello"), "hello");
    assert_eq!(strip_reply_fallback("no quotes\nat all"), "no quotes\nat all");
    // A body left all-whitespace stands whole.
    assert_eq!(strip_reply_fallback("> only a quote\n"), "> only a quote\n");
    assert_eq!(strip_reply_fallback(""), "");
    // The kept lines come back joined: a trailing line ending is dropped
    // and CR-LF endings are normalized, as the platform's line splitting
    // has it.
    assert_eq!(strip_reply_fallback("> q\nx\n"), "x");
    assert_eq!(strip_reply_fallback("> q\r\nx\r\ny"), "x\ny");
    assert_eq!(strip_reply_fallback("no quotes\nat all\n"), "no quotes\nat all");
}
