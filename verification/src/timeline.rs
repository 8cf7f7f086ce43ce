//! Timeline-diff projection: consumes the ordered-list diffs of a room's
//! live timeline and projects them into an identity-keyed diff model for a
//! keyed external store. Positional inserts and sets become upserts by
//! item identity; an interior removal is intentionally dropped (consistency
//! is restored by the next full reset, since a safe incremental removal
//! would need an identity-to-index map). Items whose reply details are not
//! yet resolved are reported so the caller can fire a detail fetch without
//! waiting on it.

use vstd::prelude::*;

use crate::diff::ListDiff;
use crate::poll::PollData;
use crate::poll::PollStateData;
use crate::poll::map_poll_state;
use crate::poll::poll_data_matches;
use crate::poll::poll_state_wf;
use crate::render::MembershipChangeData;
use crate::render::OtherStateData;
use crate::render::ProfileChangeData;
use crate::render::render_membership_change;
use crate::render::render_other_state;
use crate::render::render_profile_change;
use crate::render::spec_render_membership;
use crate::render::spec_render_message;
use crate::render::spec_render_other_state;
use crate::render::spec_render_profile;
use crate::reply::spec_strip_reply;
use crate::reply::strip_reply_fallback;
use crate::roomlist::LatestRoomEvent;
use crate::sendqueue::SendState;
use crate::util::clone_opt_string;
use crate::util::concat2;

verus! {

use vstd::string::StringExecFns;

/// What kind of attachment a message carries.
#[derive(Clone, Copy, Debug, PartialEq, Eq, Structural)]
pub enum AttachmentKind {
    Image,
    Video,
    File,
}

/// An encrypted media file: its location and its full encryption details,
/// serialized for the consumer.
#[derive(Clone, Debug)]
pub struct EncFile {
    pub url: String,
    pub json: String,
}

/// A message's attachment, in the external item model.
#[derive(Clone, Debug)]
pub struct AttachmentInfo {
    pub kind: AttachmentKind,
    pub mxc_uri: String,
    pub mime: Option<String>,
    pub size_bytes: Option<u64>,
    pub width: Option<u32>,
    pub height: Option<u32>,
    pub duration_ms: Option<u64>,
    pub thumbnail_mxc_uri: Option<String>,
    pub encrypted: Option<EncFile>,
    pub thumbnail_encrypted: Option<EncFile>,
}

/// One message in the external item model.
#[derive(Clone, Debug)]
pub struct MessageEvent {
    pub item_id: String,
    pub event_id: String,
    pub room_id: String,
    pub sender: String,
    pub sender_display_name: Option<String>,
    pub sender_avatar_url: Option<String>,
    pub body: String,
    pub timestamp_ms: u64,
    pub send_state: Option<SendState>,
    pub txn_id: Option<String>,
    pub reply_to_event_id: Option<String>,
    pub reply_to_sender: Option<String>,
    pub reply_to_sender_display_name: Option<String>,
    pub reply_to_body: Option<String>,
    pub attachment: Option<AttachmentInfo>,
    pub thread_root_event_id: Option<String>,
    pub is_edited: bool,
    pub poll_data: Option<PollData>,
}

/// One projected diff, keyed by item identity where position is unsafe.
#[derive(Clone, Debug)]
pub enum TimelineDiffKind {
    Append { values: Vec<MessageEvent> },
    PushBack { value: MessageEvent },
    PushFront { value: MessageEvent },
    PopBack,
    PopFront,
    Truncate { length: u32 },
    Clear,
    Reset { values: Vec<MessageEvent> },
    UpdateByItemId { item_id: String, value: MessageEvent },
    RemoveByItemId { item_id: String },
    UpsertByItemId { item_id: String, value: MessageEvent },
}

/// The callback a consumer registers to receive timeline diffs.
pub trait TimelineObserver {
    fn on_diff(&self, diff: TimelineDiffKind);
    fn on_error(&self, message: String);
}

/// A sender profile, as the engine reports it: resolved details, or
/// nothing yet.
#[derive(Clone, Debug)]
pub enum ProfileData {
    Ready { display_name: Option<String>, avatar_url: Option<String> },
    Unavailable,
}

/// The engine's send state of a local echo, reduced to plain values.
#[derive(Clone, Debug)]
pub enum ItemSendState {
    NotSentYet,
    SendingFailed,
    SentWith { event_id: String },
}

/// One side of a media source: where the bytes live, and the serialized
/// encryption details when the media is encrypted.
#[derive(Clone, Debug)]
pub struct MediaSourceData {
    pub url: String,
    pub encrypted_json: Option<String>,
}

/// The metadata a media message carries.
#[derive(Clone, Debug)]
pub struct MediaInfoData {
    pub mimetype: Option<String>,
    pub size: Option<u64>,
    pub width: Option<u32>,
    pub height: Option<u32>,
    pub duration_ms: Option<u64>,
    pub thumbnail_source: Option<MediaSourceData>,
}

/// What type of message a message event is, with what the projection
/// reads of it.
#[derive(Clone, Debug)]
pub enum MessageKind {
    Text,
    Notice,
    Emote,
    Audio,
    Location,
    Image { source: MediaSourceData, info: Option<MediaInfoData> },
    Video { source: MediaSourceData, info: Option<MediaInfoData> },
    File { source: MediaSourceData, info: Option<MediaInfoData> },
    OtherMessage,
}

/// An ordinary message, reduced to plain values.
#[derive(Clone, Debug)]
pub struct MessageData {
    pub body: String,
    pub is_edited: bool,
    pub kind: MessageKind,
}

/// The embedded original of a reply, once its details are resolved.
#[derive(Clone, Debug)]
pub struct EmbeddedReply {
    pub sender: String,
    pub sender_display_name: Option<String>,
    pub body: Option<String>,
}

/// A reply's reference to the event it replies to; the embedded details
/// may still be unresolved.
#[derive(Clone, Debug)]
pub struct ReplyDetails {
    pub event_id: String,
    pub embedded: Option<EmbeddedReply>,
}

/// A message-like item's payload.
#[derive(Clone, Debug)]
pub enum MsgLikeData {
    Message(MessageData),
    Poll(PollStateData),
    Sticker,
    Redacted,
    UnableToDecrypt,
    Other,
}

/// A timeline item's content, reduced to plain values.
#[derive(Clone, Debug)]
pub enum ItemContent {
    MsgLike { in_reply_to: Option<ReplyDetails>, kind: MsgLikeData },
    MembershipChange(MembershipChangeData),
    ProfileChange(ProfileChangeData),
    OtherState(OtherStateData),
    FailedToParseMessageLike { event_type: String },
    FailedToParseState { event_type: String },
    CallInvite,
    RtcNotification,
}

/// One event item of the timeline, reduced to the plain values the
/// projection reads.
#[derive(Clone, Debug)]
pub struct TimelineItemData {
    pub event_id: Option<String>,
    pub txn_id: Option<String>,
    pub timestamp_ms: u64,
    pub sender: String,
    pub sender_profile: ProfileData,
    pub send_state: Option<ItemSendState>,
    pub content: ItemContent,
    pub thread_root_event_id: Option<String>,
}

/// One item of the timeline's list: its stable identity, and its event
/// payload — absent for virtual items (day dividers, read markers), which
/// never render.
#[derive(Clone, Debug)]
pub struct TimelineSourceItem {
    pub unique_id: String,
    pub event: Option<TimelineItemData>,
}

/// The external send state of an item: an explicit engine state maps
/// directly; without one, an item with an event identifier has been sent
/// and anything else is still sending.
pub open spec fn spec_send_state(ev: TimelineItemData) -> Option<SendState> {
    match ev.send_state {
        Some(ItemSendState::NotSentYet) => Some(SendState::Sending),
        Some(ItemSendState::SendingFailed) => Some(SendState::Failed),
        Some(ItemSendState::SentWith { .. }) => Some(SendState::Sent),
        None => {
            if ev.event_id is Some {
                Some(SendState::Sent)
            } else {
                Some(SendState::Sending)
            }
        },
    }
}

/// The event identifier reported for an item: the direct one, else the one
/// the sent state carries, else empty.
pub open spec fn spec_event_id_view(ev: TimelineItemData) -> Seq<char> {
    match ev.event_id {
        Some(e) => e@,
        None => match ev.send_state {
            Some(ItemSendState::SentWith { event_id }) => event_id@,
            _ => Seq::empty(),
        },
    }
}

/// The item identity reported for an item: the given one, else the event
/// identifier, else the transaction identifier.
pub open spec fn spec_item_id_view(ev: TimelineItemData, item_id: Option<Seq<char>>) -> Seq<char> {
    match item_id {
        Some(s) => s,
        None => match ev.event_id {
            Some(e) => e@,
            None => match ev.txn_id {
                Some(t) => t@,
                None => Seq::empty(),
            },
        },
    }
}

/// The resolved display name of a profile, if any.
pub open spec fn spec_profile_name(p: ProfileData) -> Option<String> {
    match p {
        ProfileData::Ready { display_name, .. } => display_name,
        ProfileData::Unavailable => None,
    }
}

/// The resolved avatar of a profile, if any.
pub open spec fn spec_profile_avatar(p: ProfileData) -> Option<String> {
    match p {
        ProfileData::Ready { avatar_url, .. } => avatar_url,
        ProfileData::Unavailable => None,
    }
}

/// The reply details of a message-like item, if any.
pub open spec fn spec_reply_of(ev: TimelineItemData) -> Option<ReplyDetails> {
    match ev.content {
        ItemContent::MsgLike { in_reply_to, .. } => in_reply_to,
        _ => None,
    }
}

/// The replied-to event, if the item is a reply.
pub open spec fn spec_reply_event_id(ev: TimelineItemData) -> Option<String> {
    match spec_reply_of(ev) {
        Some(d) => Some(d.event_id),
        None => None,
    }
}

/// The replied-to sender, once the reply details are resolved.
pub open spec fn spec_reply_sender(ev: TimelineItemData) -> Option<String> {
    match spec_reply_of(ev) {
        Some(d) => match d.embedded {
            Some(e) => Some(e.sender),
            None => None,
        },
        None => None,
    }
}

/// The replied-to sender's display name, once resolved.
pub open spec fn spec_reply_display_name(ev: TimelineItemData) -> Option<String> {
    match spec_reply_of(ev) {
        Some(d) => match d.embedded {
            Some(e) => e.sender_display_name,
            None => None,
        },
        None => None,
    }
}

/// The replied-to body, once resolved and when the original was a message.
pub open spec fn spec_reply_body(ev: TimelineItemData) -> Option<String> {
    match spec_reply_of(ev) {
        Some(d) => match d.embedded {
            Some(e) => e.body,
            None => None,
        },
        None => None,
    }
}

/// The encryption record of a media source, when it is encrypted.
pub open spec fn spec_enc_of(s: MediaSourceData) -> Option<EncFile> {
    match s.encrypted_json {
        Some(j) => Some(EncFile { url: s.url, json: j }),
        None => None,
    }
}

/// The location of an optional thumbnail source.
pub open spec fn spec_thumb_url(t: Option<MediaSourceData>) -> Option<String> {
    match t {
        Some(s) => Some(s.url),
        None => None,
    }
}

/// The encryption record of an optional thumbnail source.
pub open spec fn spec_thumb_enc(t: Option<MediaSourceData>) -> Option<EncFile> {
    match t {
        Some(s) => spec_enc_of(s),
        None => None,
    }
}

/// The attachment a message projects to: images, videos and files carry
/// one; a video without an explicit thumbnail falls back to the full
/// video as its thumbnail.
pub open spec fn spec_attachment_of_kind(k: MessageKind) -> Option<AttachmentInfo> {
    match k {
        MessageKind::Image { source, info } => Some(
            AttachmentInfo {
                kind: AttachmentKind::Image,
                mxc_uri: source.url,
                mime: match info {
                    Some(i) => i.mimetype,
                    None => None,
                },
                size_bytes: match info {
                    Some(i) => i.size,
                    None => None,
                },
                width: match info {
                    Some(i) => i.width,
                    None => None,
                },
                height: match info {
                    Some(i) => i.height,
                    None => None,
                },
                duration_ms: None,
                thumbnail_mxc_uri: match info {
                    Some(i) => spec_thumb_url(i.thumbnail_source),
                    None => None,
                },
                encrypted: spec_enc_of(source),
                thumbnail_encrypted: match info {
                    Some(i) => spec_thumb_enc(i.thumbnail_source),
                    None => None,
                },
            },
        ),
        MessageKind::Video { source, info } => Some(
            AttachmentInfo {
                kind: AttachmentKind::Video,
                mxc_uri: source.url,
                mime: match info {
                    Some(i) => i.mimetype,
                    None => None,
                },
                size_bytes: match info {
                    Some(i) => i.size,
                    None => None,
                },
                width: match info {
                    Some(i) => i.width,
                    None => None,
                },
                height: match info {
                    Some(i) => i.height,
                    None => None,
                },
                duration_ms: match info {
                    Some(i) => i.duration_ms,
                    None => None,
                },
                thumbnail_mxc_uri: match (match info {
                    Some(i) => spec_thumb_url(i.thumbnail_source),
                    None => None,
                }) {
                    Some(t) => Some(t),
                    None => Some(source.url),
                },
                encrypted: spec_enc_of(source),
                thumbnail_encrypted: match info {
                    Some(i) => spec_thumb_enc(i.thumbnail_source),
                    None => None,
                },
            },
        ),
        MessageKind::File { source, info } => Some(
            AttachmentInfo {
                kind: AttachmentKind::File,
                mxc_uri: source.url,
                mime: match info {
                    Some(i) => i.mimetype,
                    None => None,
                },
                size_bytes: match info {
                    Some(i) => i.size,
                    None => None,
                },
                width: None,
                height: None,
                duration_ms: None,
                thumbnail_mxc_uri: match info {
                    Some(i) => spec_thumb_url(i.thumbnail_source),
                    None => None,
                },
                encrypted: spec_enc_of(source),
                thumbnail_encrypted: match info {
                    Some(i) => spec_thumb_enc(i.thumbnail_source),
                    None => None,
                },
            },
        ),
        _ => None,
    }
}

/// The attachment an item projects to.
pub open spec fn spec_attachment_of(ev: TimelineItemData) -> Option<AttachmentInfo> {
    match ev.content {
        ItemContent::MsgLike { kind: MsgLikeData::Message(m), .. } => spec_attachment_of_kind(
            m.kind,
        ),
        _ => None,
    }
}

/// The text a message-like item renders to outside of the body rules for
/// plain messages.
pub open spec fn spec_msg_like_text(ev: TimelineItemData, kind: MsgLikeData) -> Seq<char> {
    match kind {
        MsgLikeData::Message(m) => spec_render_message(m.body@),
        MsgLikeData::Poll(_) => "started a poll"@,
        MsgLikeData::Sticker => "sent a sticker"@,
        MsgLikeData::Redacted => "Message deleted"@,
        MsgLikeData::UnableToDecrypt => "Unable to decrypt this message"@,
        MsgLikeData::Other => "Custom message"@,
    }
}

/// The fallback text any timeline item renders to.
pub open spec fn spec_timeline_text(ev: TimelineItemData) -> Seq<char> {
    match ev.content {
        ItemContent::MsgLike { kind, .. } => spec_msg_like_text(ev, kind),
        ItemContent::MembershipChange(ch) => spec_render_membership(ev.sender@, ch),
        ItemContent::ProfileChange(pc) => spec_render_profile(pc),
        ItemContent::OtherState(st) => spec_render_other_state(ev.sender@, st),
        ItemContent::FailedToParseMessageLike { event_type } => "Unsupported message-like event: "@
            + event_type@,
        ItemContent::FailedToParseState { event_type } => "Unsupported state event: "@
            + event_type@,
        ItemContent::CallInvite => "Started a call"@,
        ItemContent::RtcNotification => "Call notification"@,
    }
}

/// The body of a projected message event: a plain message's body (with the
/// reply fallback stripped when the item is a reply), a poll's question,
/// and the rendered text otherwise.
pub open spec fn spec_body(ev: TimelineItemData) -> Seq<char> {
    match ev.content {
        ItemContent::MsgLike { in_reply_to, kind } => match kind {
            MsgLikeData::Message(m) => {
                if in_reply_to is Some {
                    spec_strip_reply(m.body@)
                } else {
                    m.body@
                }
            },
            MsgLikeData::Poll(p) => p.question@,
            _ => spec_msg_like_text(ev, kind),
        },
        _ => spec_timeline_text(ev),
    }
}

/// Whether the item is an edited message.
pub open spec fn spec_is_edited(ev: TimelineItemData) -> bool {
    match ev.content {
        ItemContent::MsgLike { kind: MsgLikeData::Message(m), .. } => m.is_edited,
        _ => false,
    }
}

/// The poll state an item carries, if it is a poll.
pub open spec fn spec_poll_of(ev: TimelineItemData) -> Option<PollStateData> {
    match ev.content {
        ItemContent::MsgLike { kind: MsgLikeData::Poll(p), .. } => Some(p),
        _ => None,
    }
}

/// Whether a projected message event is the projection of an item.
pub open spec fn message_event_matches(
    m: MessageEvent,
    ev: TimelineItemData,
    room: Seq<char>,
    item_id: Option<Seq<char>>,
    me: Seq<char>,
) -> bool {
    &&& m.item_id@ == spec_item_id_view(ev, item_id)
    &&& m.event_id@ == spec_event_id_view(ev)
    &&& m.room_id@ == room
    &&& m.sender@ == ev.sender@
    &&& m.sender_display_name == spec_profile_name(ev.sender_profile)
    &&& m.sender_avatar_url == spec_profile_avatar(ev.sender_profile)
    &&& m.body@ == spec_body(ev)
    &&& m.timestamp_ms == ev.timestamp_ms
    &&& m.send_state == spec_send_state(ev)
    &&& m.txn_id == ev.txn_id
    &&& m.reply_to_event_id == spec_reply_event_id(ev)
    &&& m.reply_to_sender == spec_reply_sender(ev)
    &&& m.reply_to_sender_display_name == spec_reply_display_name(ev)
    &&& m.reply_to_body == spec_reply_body(ev)
    &&& m.attachment == spec_attachment_of(ev)
    &&& m.thread_root_event_id == ev.thread_root_event_id
    &&& m.is_edited == spec_is_edited(ev)
    &&& match (m.poll_data, spec_poll_of(ev)) {
        (Some(d), Some(p)) => poll_data_matches(d, p, me),
        (None, None) => true,
        _ => false,
    }
}

/// Well-formedness of an item for projection: a poll's state must satisfy
/// the poll bounds.
pub open spec fn item_wf(ev: TimelineItemData) -> bool {
    match spec_poll_of(ev) {
        Some(p) => poll_state_wf(p),
        None => true,
    }
}


/// The event identifier whose reply details still need fetching: the item
/// is a reply and its embedded original is not yet resolved.
pub open spec fn spec_missing_reply(ev: TimelineItemData) -> Option<String> {
    match ev.content {
        ItemContent::MsgLike { in_reply_to: Some(d), .. } => {
            if d.embedded is None {
                Some(d.event_id)
            } else {
                None
            }
        },
        _ => None,
    }
}

/// The items of a list that render: the ones carrying an event.
pub open spec fn spec_rendered(vs: Seq<TimelineSourceItem>) -> Seq<TimelineSourceItem>
    decreases vs.len(),
{
    if vs.len() == 0 {
        Seq::empty()
    } else {
        let rest = spec_rendered(vs.drop_first());
        if vs[0].event is Some {
            seq![vs[0]] + rest
        } else {
            rest
        }
    }
}

/// The reply-detail fetches a list of items calls for, in order.
pub open spec fn spec_fetches(vs: Seq<TimelineSourceItem>) -> Seq<String>
    decreases vs.len(),
{
    if vs.len() == 0 {
        Seq::empty()
    } else {
        let rest = spec_fetches(vs.drop_first());
        match vs[0].event {
            Some(ev) => match spec_missing_reply(ev) {
                Some(id) => seq![id] + rest,
                None => rest,
            },
            None => rest,
        }
    }
}

/// Well-formedness of a whole source list: every present event is
/// well-formed.
pub open spec fn items_wf(vs: Seq<TimelineSourceItem>) -> bool {
    forall|i: int|
        0 <= i < vs.len() ==> ((#[trigger] vs[i]).event matches Some(e) ==> item_wf(e))
}

/// The sender's resolved display name and avatar, if any.
pub fn map_sender_profile(details: &ProfileData) -> (r: (Option<String>, Option<String>))
    ensures
        r.0 == spec_profile_name(*details),
        r.1 == spec_profile_avatar(*details),
{
    match details {
        ProfileData::Ready { display_name, avatar_url } => (
            clone_opt_string(display_name),
            clone_opt_string(avatar_url),
        ),
        ProfileData::Unavailable => (None, None),
    }
}

/// The encryption record of a media source, when it is encrypted.
pub fn enc_to_record(s: &MediaSourceData) -> (r: Option<EncFile>)
    ensures
        r == spec_enc_of(*s),
{
    match &s.encrypted_json {
        Some(j) => Some(EncFile { url: s.url.clone(), json: j.clone() }),
        None => None,
    }
}

/// The location and encryption record of an optional thumbnail.
fn split_thumb(t: &Option<MediaSourceData>) -> (r: (Option<String>, Option<EncFile>))
    ensures
        r.0 == spec_thumb_url(*t),
        r.1 == spec_thumb_enc(*t),
{
    match t {
        Some(s) => (Some(s.url.clone()), enc_to_record(s)),
        None => (None, None),
    }
}

/// The attachment a message carries, in the external item model.
pub fn extract_attachment(kind: &MessageKind) -> (r: Option<AttachmentInfo>)
    ensures
        r == spec_attachment_of_kind(*kind),
{
    match kind {
        MessageKind::Image { source, info } => {
            let (thumb_url, thumb_enc) = match info {
                Some(i) => split_thumb(&i.thumbnail_source),
                None => (None, None),
            };
            Some(
                AttachmentInfo {
                    kind: AttachmentKind::Image,
                    mxc_uri: source.url.clone(),
                    mime: match info {
                        Some(i) => clone_opt_string(&i.mimetype),
                        None => None,
                    },
                    size_bytes: match info {
                        Some(i) => i.size,
                        None => None,
                    },
                    width: match info {
                        Some(i) => i.width,
                        None => None,
                    },
                    height: match info {
                        Some(i) => i.height,
                        None => None,
                    },
                    duration_ms: None,
                    thumbnail_mxc_uri: thumb_url,
                    encrypted: enc_to_record(source),
                    thumbnail_encrypted: thumb_enc,
                },
            )
        },
        MessageKind::Video { source, info } => {
            let (thumb_url, thumb_enc) = match info {
                Some(i) => split_thumb(&i.thumbnail_source),
                None => (None, None),
            };
            Some(
                AttachmentInfo {
                    kind: AttachmentKind::Video,
                    mxc_uri: source.url.clone(),
                    mime: match info {
                        Some(i) => clone_opt_string(&i.mimetype),
                        None => None,
                    },
                    size_bytes: match info {
                        Some(i) => i.size,
                        None => None,
                    },
                    width: match info {
                        Some(i) => i.width,
                        None => None,
                    },
                    height: match info {
                        Some(i) => i.height,
                        None => None,
                    },
                    duration_ms: match info {
                        Some(i) => i.duration_ms,
                        None => None,
                    },
                    thumbnail_mxc_uri: match thumb_url {
                        Some(t) => Some(t),
                        None => Some(source.url.clone()),
                    },
                    encrypted: enc_to_record(source),
                    thumbnail_encrypted: thumb_enc,
                },
            )
        },
        MessageKind::File { source, info } => {
            let (thumb_url, thumb_enc) = match info {
                Some(i) => split_thumb(&i.thumbnail_source),
                None => (None, None),
            };
            Some(
                AttachmentInfo {
                    kind: AttachmentKind::File,
                    mxc_uri: source.url.clone(),
                    mime: match info {
                        Some(i) => clone_opt_string(&i.mimetype),
                        None => None,
                    },
                    size_bytes: match info {
                        Some(i) => i.size,
                        None => None,
                    },
                    width: None,
                    height: None,
                    duration_ms: None,
                    thumbnail_mxc_uri: thumb_url,
                    encrypted: enc_to_record(source),
                    thumbnail_encrypted: thumb_enc,
                },
            )
        },
        _ => None,
    }
}

/// Renders a message-like item that is not an ordinary message or poll.
pub fn render_msg_like(ev: &TimelineItemData, kind: &MsgLikeData) -> (r: String)
    ensures
        r@ == spec_msg_like_text(*ev, *kind),
{
    match kind {
        MsgLikeData::Message(m) => crate::render::render_message_text(m.body.as_str()),
        MsgLikeData::Poll(_) => "started a poll".to_owned(),
        MsgLikeData::Sticker => "sent a sticker".to_owned(),
        MsgLikeData::Redacted => "Message deleted".to_owned(),
        MsgLikeData::UnableToDecrypt => "Unable to decrypt this message".to_owned(),
        MsgLikeData::Other => "Custom message".to_owned(),
    }
}

/// Renders the fallback text of any timeline item.
pub fn render_timeline_text(ev: &TimelineItemData) -> (r: String)
    ensures
        r@ == spec_timeline_text(*ev),
{
    match &ev.content {
        ItemContent::MsgLike { kind, .. } => render_msg_like(ev, kind),
        ItemContent::MembershipChange(ch) => render_membership_change(ev.sender.as_str(), ch),
        ItemContent::ProfileChange(pc) => render_profile_change(pc),
        ItemContent::OtherState(st) => render_other_state(ev.sender.as_str(), st),
        ItemContent::FailedToParseMessageLike { event_type } => concat2(
            "Unsupported message-like event: ",
            event_type.as_str(),
        ),
        ItemContent::FailedToParseState { event_type } => concat2(
            "Unsupported state event: ",
            event_type.as_str(),
        ),
        ItemContent::CallInvite => "Started a call".to_owned(),
        ItemContent::RtcNotification => "Call notification".to_owned(),
    }
}

/// The event identifier whose reply details still need fetching, if any.
pub fn missing_reply_event_id(ev: &TimelineItemData) -> (r: Option<String>)
    ensures
        r == spec_missing_reply(*ev),
{
    match &ev.content {
        ItemContent::MsgLike { in_reply_to: Some(d), .. } => {
            match &d.embedded {
                None => Some(d.event_id.clone()),
                Some(_) => None,
            }
        },
        _ => None,
    }
}

/// Projects one timeline item into the external item model. The item
/// identity is the given one, or is derived from the item itself.
pub fn map_timeline_event(
    ev: &TimelineItemData,
    room_id: &str,
    item_id: Option<&str>,
    me: &str,
) -> (r: Option<MessageEvent>)
    requires
        item_wf(*ev),
    ensures
        r matches Some(m) && message_event_matches(
            m,
            *ev,
            room_id@,
            match item_id {
                Some(s) => Some(s@),
                None => None,
            },
            me@,
        ),
{
    let item_id_str: String = match item_id {
        Some(s) => s.to_owned(),
        None => match &ev.event_id {
            Some(e) => e.clone(),
            None => match &ev.txn_id {
                Some(t) => t.clone(),
                None => String::new(),
            },
        },
    };
    let event_id: String = match &ev.event_id {
        Some(e) => e.clone(),
        None => match &ev.send_state {
            Some(ItemSendState::SentWith { event_id }) => event_id.clone(),
            _ => String::new(),
        },
    };
    let send_state: Option<SendState> = match &ev.send_state {
        Some(ItemSendState::NotSentYet) => Some(SendState::Sending),
        Some(ItemSendState::SendingFailed) => Some(SendState::Failed),
        Some(ItemSendState::SentWith { .. }) => Some(SendState::Sent),
        None => {
            if ev.event_id.is_some() {
                Some(SendState::Sent)
            } else {
                Some(SendState::Sending)
            }
        },
    };
    let profile = map_sender_profile(&ev.sender_profile);

    let mut reply_to_event_id: Option<String> = None;
    let mut reply_to_sender: Option<String> = None;
    let mut reply_to_sender_display_name: Option<String> = None;
    let mut reply_to_body: Option<String> = None;
    let mut attachment: Option<AttachmentInfo> = None;
    let mut is_edited = false;
    let mut poll_data: Option<PollData> = None;
    let body: String;

    match &ev.content {
        ItemContent::MsgLike { in_reply_to, kind } => {
            match in_reply_to {
                Some(d) => {
                    reply_to_event_id = Some(d.event_id.clone());
                    match &d.embedded {
                        Some(e) => {
                            reply_to_sender = Some(e.sender.clone());
                            reply_to_sender_display_name = clone_opt_string(
                                &e.sender_display_name,
                            );
                            reply_to_body = clone_opt_string(&e.body);
                        },
                        None => {},
                    }
                },
                None => {},
            }
            match kind {
                MsgLikeData::Message(m) => {
                    attachment = extract_attachment(&m.kind);
                    is_edited = m.is_edited;
                    body = match in_reply_to {
                        Some(_) => strip_reply_fallback(m.body.as_str()),
                        None => m.body.clone(),
                    };
                },
                MsgLikeData::Poll(p) => {
                    let data = map_poll_state(p, me);
                    body = data.question.clone();
                    poll_data = Some(data);
                },
                _ => {
                    body = render_msg_like(ev, kind);
                },
            }
        },
        _ => {
            body = render_timeline_text(ev);
        },
    }

    Some(
        MessageEvent {
            item_id: item_id_str,
            event_id,
            room_id: room_id.to_owned(),
            sender: ev.sender.clone(),
            sender_display_name: profile.0,
            sender_avatar_url: profile.1,
            body,
            timestamp_ms: ev.timestamp_ms,
            send_state,
            txn_id: clone_opt_string(&ev.txn_id),
            reply_to_event_id,
            reply_to_sender,
            reply_to_sender_display_name,
            reply_to_body,
            attachment,
            thread_root_event_id: clone_opt_string(&ev.thread_root_event_id),
            is_edited,
            poll_data,
        },
    )
}


/// Projects the rendering items of a source list, collecting the
/// reply-detail fetches they call for.
fn render_items(values: &Vec<TimelineSourceItem>, room_id: &str, me: &str) -> (r: (
    Vec<MessageEvent>,
    Vec<String>,
))
    requires
        items_wf(values@),
    ensures
        r.0@.len() == spec_rendered(values@).len(),
        forall|j: int|
            0 <= j < r.0@.len() ==> message_event_matches(
                #[trigger] r.0@[j],
                spec_rendered(values@)[j].event->Some_0,
                room_id@,
                Some(spec_rendered(values@)[j].unique_id@),
                me@,
            ),
        r.1@ == spec_fetches(values@),
{
    let mut out: Vec<MessageEvent> = Vec::new();
    let mut fetches: Vec<String> = Vec::new();
    let ghost mut done: Seq<TimelineSourceItem> = Seq::empty();
    let n: usize = values.len();
    let mut i: usize = 0;
    proof {
        assert(values@.skip(0) =~= values@);
        assert(done + spec_rendered(values@.skip(0)) =~= spec_rendered(values@));
        assert(fetches@ + spec_fetches(values@.skip(0)) =~= spec_fetches(values@));
    }
    while i < n
        invariant
            items_wf(values@),
            n == values.len(),
            i <= n,
            out@.len() == done.len(),
            done + spec_rendered(values@.skip(i as int)) == spec_rendered(values@),
            fetches@ + spec_fetches(values@.skip(i as int)) == spec_fetches(values@),
            forall|j: int|
                0 <= j < done.len() ==> (#[trigger] done[j]).event is Some,
            forall|j: int|
                0 <= j < done.len() ==> message_event_matches(
                    #[trigger] out@[j],
                    done[j].event->Some_0,
                    room_id@,
                    Some(done[j].unique_id@),
                    me@,
                ),
        decreases n - i,
    {
        proof {
            assert(values@.skip(i as int)[0] == values@[i as int]);
            assert(values@.skip(i as int).drop_first() =~= values@.skip(i + 1));
        }
        let ghost pre_done = done;
        let ghost pre_fetches = fetches@;
        match &values[i].event {
            Some(ev) => {
                proof {
                    assert(values@[i as int].event matches Some(e) ==> item_wf(e));
                }
                match missing_reply_event_id(ev) {
                    Some(id) => {
                        fetches.push(id);
                    },
                    None => {},
                }
                match map_timeline_event(ev, room_id, Some(values[i].unique_id.as_str()), me) {
                    Some(m) => {
                        out.push(m);
                        proof {
                            done = done.push(values@[i as int]);
                        }
                    },
                    None => {},
                }
                proof {
                    assert(done =~= pre_done + seq![values@[i as int]]);
                    assert(done + spec_rendered(values@.skip(i + 1)) =~= pre_done + (seq![
                        values@[i as int],
                    ] + spec_rendered(values@.skip(i + 1))));
                    match spec_missing_reply(values@[i as int].event->Some_0) {
                        Some(id) => {
                            assert(fetches@ =~= pre_fetches + seq![id]);
                            assert(fetches@ + spec_fetches(values@.skip(i + 1)) =~= pre_fetches
                                + (seq![id] + spec_fetches(values@.skip(i + 1))));
                        },
                        None => {},
                    }
                }
            },
            None => {},
        }
        i = i + 1;
    }
    proof {
        assert(spec_rendered(values@.skip(n as int)) =~= Seq::<TimelineSourceItem>::empty());
        assert(done =~= done + spec_rendered(values@.skip(n as int)));
        assert(spec_fetches(values@.skip(n as int)) =~= Seq::<String>::empty());
        assert(fetches@ =~= fetches@ + spec_fetches(values@.skip(n as int)));
    }
    (out, fetches)
}

/// Whether the projection of one whole source diff is right: which output
/// diff (if any) it becomes, and which reply-detail fetches it fires.
pub open spec fn vec_diff_matches(
    diff: ListDiff<TimelineSourceItem>,
    room: Seq<char>,
    me: Seq<char>,
    out: Option<TimelineDiffKind>,
    fetches: Seq<String>,
) -> bool {
    match diff {
        ListDiff::Append { values } => {
            &&& fetches == spec_fetches(values@)
            &&& if spec_rendered(values@).len() == 0 {
                out is None
            } else {
                &&& out matches Some(TimelineDiffKind::Append { values: vals })
                &&& vals@.len() == spec_rendered(values@).len()
                &&& forall|j: int|
                    0 <= j < vals@.len() ==> message_event_matches(
                        #[trigger] vals@[j],
                        spec_rendered(values@)[j].event->Some_0,
                        room,
                        Some(spec_rendered(values@)[j].unique_id@),
                        me,
                    )
            }
        },
        ListDiff::Reset { values } => {
            &&& fetches == spec_fetches(values@)
            &&& out matches Some(TimelineDiffKind::Reset { values: vals })
            &&& vals@.len() == spec_rendered(values@).len()
            &&& forall|j: int|
                0 <= j < vals@.len() ==> message_event_matches(
                    #[trigger] vals@[j],
                    spec_rendered(values@)[j].event->Some_0,
                    room,
                    Some(spec_rendered(values@)[j].unique_id@),
                    me,
                )
        },
        ListDiff::PushBack { value } => {
            &&& fetches == spec_fetches(seq![value])
            &&& match value.event {
                Some(ev) => out matches Some(TimelineDiffKind::PushBack { value: m })
                    && message_event_matches(m, ev, room, Some(value.unique_id@), me),
                None => out is None,
            }
        },
        ListDiff::PushFront { value } => {
            &&& fetches == spec_fetches(seq![value])
            &&& match value.event {
                Some(ev) => out matches Some(TimelineDiffKind::PushFront { value: m })
                    && message_event_matches(m, ev, room, Some(value.unique_id@), me),
                None => out is None,
            }
        },
        ListDiff::SetIndex { value, .. } => {
            &&& fetches == spec_fetches(seq![value])
            &&& match value.event {
                Some(ev) => out matches Some(
                    TimelineDiffKind::UpsertByItemId { item_id, value: m },
                ) && item_id@ == value.unique_id@ && message_event_matches(
                    m,
                    ev,
                    room,
                    Some(value.unique_id@),
                    me,
                ),
                None => out is None,
            }
        },
        ListDiff::Insert { value, .. } => {
            &&& fetches == spec_fetches(seq![value])
            &&& match value.event {
                Some(ev) => out matches Some(
                    TimelineDiffKind::UpsertByItemId { item_id, value: m },
                ) && item_id@ == value.unique_id@ && message_event_matches(
                    m,
                    ev,
                    room,
                    Some(value.unique_id@),
                    me,
                ),
                None => out is None,
            }
        },
        ListDiff::Remove { .. } => out is None && fetches.len() == 0,
        ListDiff::PopBack => out matches Some(TimelineDiffKind::PopBack) && fetches.len() == 0,
        ListDiff::PopFront => out matches Some(TimelineDiffKind::PopFront) && fetches.len() == 0,
        ListDiff::Truncate { length } => out matches Some(TimelineDiffKind::Truncate { length: l })
            && l == length as u32 && fetches.len() == 0,
        ListDiff::Clear => out matches Some(TimelineDiffKind::Clear) && fetches.len() == 0,
    }
}

/// Projects one source diff into the identity-keyed output model, handing
/// back the diff to deliver (if any) and the reply-detail fetches to fire.
/// A positional set or insert becomes an upsert by item identity; an
/// interior removal is dropped on purpose: the next full reset restores
/// consistency.
pub fn map_vec_diff(diff: ListDiff<TimelineSourceItem>, room_id: &str, me: &str) -> (r: (
    Option<TimelineDiffKind>,
    Vec<String>,
))
    requires
        match diff {
            ListDiff::Append { values } => items_wf(values@),
            ListDiff::Reset { values } => items_wf(values@),
            ListDiff::PushBack { value } => value.event matches Some(e) ==> item_wf(e),
            ListDiff::PushFront { value } => value.event matches Some(e) ==> item_wf(e),
            ListDiff::SetIndex { value, .. } => value.event matches Some(e) ==> item_wf(e),
            ListDiff::Insert { value, .. } => value.event matches Some(e) ==> item_wf(e),
            ListDiff::Truncate { length } => length <= u32::MAX,
            _ => true,
        },
    ensures
        vec_diff_matches(diff, room_id@, me@, r.0, r.1@),
{
    match diff {
        ListDiff::Append { values } => {
            let (vals, fetches) = render_items(&values, room_id, me);
            if vals.len() == 0 {
                (None, fetches)
            } else {
                (Some(TimelineDiffKind::Append { values: vals }), fetches)
            }
        },
        ListDiff::Reset { values } => {
            let (vals, fetches) = render_items(&values, room_id, me);
            (Some(TimelineDiffKind::Reset { values: vals }), fetches)
        },
        ListDiff::PushBack { value } => {
            let (m, fetches) = map_single(&value, room_id, me);
            match m {
                Some(m) => (Some(TimelineDiffKind::PushBack { value: m }), fetches),
                None => (None, fetches),
            }
        },
        ListDiff::PushFront { value } => {
            let (m, fetches) = map_single(&value, room_id, me);
            match m {
                Some(m) => (Some(TimelineDiffKind::PushFront { value: m }), fetches),
                None => (None, fetches),
            }
        },
        ListDiff::SetIndex { index: _, value } => {
            let (m, fetches) = map_single(&value, room_id, me);
            match m {
                Some(m) => (
                    Some(
                        TimelineDiffKind::UpsertByItemId {
                            item_id: value.unique_id.clone(),
                            value: m,
                        },
                    ),
                    fetches,
                ),
                None => (None, fetches),
            }
        },
        ListDiff::Insert { index: _, value } => {
            let (m, fetches) = map_single(&value, room_id, me);
            match m {
                Some(m) => (
                    Some(
                        TimelineDiffKind::UpsertByItemId {
                            item_id: value.unique_id.clone(),
                            value: m,
                        },
                    ),
                    fetches,
                ),
                None => (None, fetches),
            }
        },
        ListDiff::Remove { index: _ } => (None, Vec::new()),
        ListDiff::PopBack => (Some(TimelineDiffKind::PopBack), Vec::new()),
        ListDiff::PopFront => (Some(TimelineDiffKind::PopFront), Vec::new()),
        ListDiff::Truncate { length } => (
            Some(TimelineDiffKind::Truncate { length: length as u32 }),
            Vec::new(),
        ),
        ListDiff::Clear => (Some(TimelineDiffKind::Clear), Vec::new()),
    }
}

/// Projects one source item, collecting its reply-detail fetch.
fn map_single(value: &TimelineSourceItem, room_id: &str, me: &str) -> (r: (
    Option<MessageEvent>,
    Vec<String>,
))
    requires
        value.event matches Some(e) ==> item_wf(e),
    ensures
        r.1@ == spec_fetches(seq![*value]),
        match value.event {
            Some(ev) => r.0 matches Some(m) && message_event_matches(
                m,
                ev,
                room_id@,
                Some(value.unique_id@),
                me@,
            ),
            None => r.0 is None,
        },
{
    proof {
        assert(seq![*value].drop_first() =~= Seq::<TimelineSourceItem>::empty());
        assert(spec_fetches(Seq::<TimelineSourceItem>::empty()) =~= Seq::<String>::empty());
        assert(seq![*value][0] == *value);
    }
    let mut fetches: Vec<String> = Vec::new();
    match &value.event {
        Some(ev) => {
            match missing_reply_event_id(ev) {
                Some(id) => {
                    fetches.push(id);
                    proof {
                        assert(fetches@ =~= spec_fetches(seq![*value]));
                    }
                },
                None => {
                    proof {
                        assert(fetches@ =~= spec_fetches(seq![*value]));
                    }
                },
            }
            let m = map_timeline_event(ev, room_id, Some(value.unique_id.as_str()), me);
            (m, fetches)
        },
        None => {
            proof {
                assert(fetches@ =~= spec_fetches(seq![*value]));
            }
            (None, fetches)
        },
    }
}

/// The message type reported for a room's latest event, if any.
pub open spec fn spec_latest_msgtype(ev: TimelineItemData) -> Option<Seq<char>> {
    match ev.content {
        ItemContent::MsgLike { kind: MsgLikeData::Message(m), .. } => match m.kind {
            MessageKind::Image { .. } => Some("m.image"@),
            MessageKind::Video { .. } => Some("m.video"@),
            MessageKind::Audio => Some("m.audio"@),
            MessageKind::File { .. } => Some("m.file"@),
            MessageKind::Location => Some("m.location"@),
            MessageKind::Notice => Some("m.notice"@),
            MessageKind::Emote => Some("m.emote"@),
            MessageKind::Text => Some("m.text"@),
            MessageKind::OtherMessage => None,
        },
        ItemContent::MsgLike { kind: MsgLikeData::Sticker, .. } => Some("m.sticker"@),
        _ => None,
    }
}

/// The event type reported for a room's latest event.
pub open spec fn spec_latest_event_type(ev: TimelineItemData) -> Seq<char> {
    match ev.content {
        ItemContent::MsgLike { kind: MsgLikeData::Poll(_), .. } => "m.poll.start"@,
        ItemContent::CallInvite => "m.call.invite"@,
        ItemContent::RtcNotification => "m.rtc.notification"@,
        _ => "m.room.message"@,
    }
}

/// The body reported for a room's latest event, as a character sequence;
/// nothing for stickers, polls, redactions and undecryptable events.
pub open spec fn spec_latest_body(ev: TimelineItemData) -> Option<Seq<char>> {
    match ev.content {
        ItemContent::MsgLike { kind, .. } => match kind {
            MsgLikeData::Message(m) => Some(spec_render_message(m.body@)),
            MsgLikeData::Other => Some("Custom event"@),
            _ => None,
        },
        ItemContent::CallInvite => None,
        ItemContent::RtcNotification => None,
        _ => Some(spec_timeline_text(ev)),
    }
}

/// Whether a latest-event rendering is the projection of an item.
pub open spec fn latest_event_matches(r: LatestRoomEvent, ev: TimelineItemData) -> bool {
    &&& r.event_id@ == (match ev.event_id {
        Some(e) => e@,
        None => Seq::<char>::empty(),
    })
    &&& r.sender@ == ev.sender@
    &&& match (r.body, spec_latest_body(ev)) {
        (Some(a), Some(b)) => a@ == b,
        (None, None) => true,
        _ => false,
    }
    &&& match (r.msgtype, spec_latest_msgtype(ev)) {
        (Some(a), Some(b)) => a@ == b,
        (None, None) => true,
        _ => false,
    }
    &&& r.event_type@ == spec_latest_event_type(ev)
    &&& r.timestamp == ev.timestamp_ms as i64
    &&& r.is_redacted == (ev.content matches ItemContent::MsgLike {
        kind: MsgLikeData::Redacted,
        ..
    })
    &&& r.is_encrypted == (ev.content matches ItemContent::MsgLike {
        kind: MsgLikeData::UnableToDecrypt,
        ..
    })
}

/// Renders a room's latest event for the room-list snapshot.
pub fn latest_room_event_for(ev: &TimelineItemData) -> (r: LatestRoomEvent)
    requires
        ev.timestamp_ms <= i64::MAX as u64,
    ensures
        latest_event_matches(r, *ev),
{
    let event_id: String = match &ev.event_id {
        Some(e) => e.clone(),
        None => String::new(),
    };
    let sender = ev.sender.clone();
    let mut msgtype: Option<String> = None;
    let mut event_type: String = "m.room.message".to_owned();
    let mut is_redacted = false;
    let mut is_encrypted = false;
    let body: Option<String>;

    match &ev.content {
        ItemContent::MsgLike { kind, .. } => {
            match kind {
                MsgLikeData::Message(m) => {
                    body = Some(crate::render::render_message_text(m.body.as_str()));
                    match &m.kind {
                        MessageKind::Image { .. } => {
                            msgtype = Some("m.image".to_owned());
                        },
                        MessageKind::Video { .. } => {
                            msgtype = Some("m.video".to_owned());
                        },
                        MessageKind::Audio => {
                            msgtype = Some("m.audio".to_owned());
                        },
                        MessageKind::File { .. } => {
                            msgtype = Some("m.file".to_owned());
                        },
                        MessageKind::Location => {
                            msgtype = Some("m.location".to_owned());
                        },
                        MessageKind::Notice => {
                            msgtype = Some("m.notice".to_owned());
                        },
                        MessageKind::Emote => {
                            msgtype = Some("m.emote".to_owned());
                        },
                        MessageKind::Text => {
                            msgtype = Some("m.text".to_owned());
                        },
                        MessageKind::OtherMessage => {},
                    }
                },
                MsgLikeData::Sticker => {
                    msgtype = Some("m.sticker".to_owned());
                    body = None;
                },
                MsgLikeData::Poll(_) => {
                    event_type = "m.poll.start".to_owned();
                    body = None;
                },
                MsgLikeData::Redacted => {
                    is_redacted = true;
                    body = None;
                },
                MsgLikeData::UnableToDecrypt => {
                    is_encrypted = true;
                    body = None;
                },
                MsgLikeData::Other => {
                    body = Some("Custom event".to_owned());
                },
            }
        },
        ItemContent::CallInvite => {
            event_type = "m.call.invite".to_owned();
            body = None;
        },
        ItemContent::RtcNotification => {
            event_type = "m.rtc.notification".to_owned();
            body = None;
        },
        _ => {
            body = Some(render_timeline_text(ev));
        },
    }

    LatestRoomEvent {
        event_id,
        sender,
        body,
        msgtype,
        event_type,
        timestamp: ev.timestamp_ms as i64,
        is_redacted,
        is_encrypted,
    }
}


/// Whether one item satisfies the projection's bounds, so an unverified
/// caller can test before projecting.
pub fn item_ok(ev: &TimelineItemData) -> (r: bool)
    ensures
        r == item_wf(*ev),
{
    match &ev.content {
        ItemContent::MsgLike { kind: MsgLikeData::Poll(p), .. } => crate::poll::poll_state_ok(p),
        _ => true,
    }
}

/// Whether every present item of a source list satisfies the projection's
/// bounds.
pub fn items_ok(values: &Vec<TimelineSourceItem>) -> (r: bool)
    ensures
        r == items_wf(values@),
{
    let n: usize = values.len();
    let mut i: usize = 0;
    while i < n
        invariant
            n == values.len(),
            i <= n,
            forall|j: int|
                0 <= j < i ==> ((#[trigger] values@[j]).event matches Some(e) ==> item_wf(e)),
        decreases n - i,
    {
        match &values[i].event {
            Some(ev) => {
                if !item_ok(ev) {
                    return false;
                }
            },
            None => {},
        }
        i = i + 1;
    }
    true
}

/// Whether a whole source diff satisfies the projection's bounds, so an
/// unverified caller can test before projecting.
pub fn diff_ok(diff: &ListDiff<TimelineSourceItem>) -> (r: bool)
    ensures
        r == match *diff {
            ListDiff::Append { values } => items_wf(values@),
            ListDiff::Reset { values } => items_wf(values@),
            ListDiff::PushBack { value } => (value.event matches Some(e) ==> item_wf(e)),
            ListDiff::PushFront { value } => (value.event matches Some(e) ==> item_wf(e)),
            ListDiff::SetIndex { value, .. } => (value.event matches Some(e) ==> item_wf(e)),
            ListDiff::Insert { value, .. } => (value.event matches Some(e) ==> item_wf(e)),
            ListDiff::Truncate { length } => length <= u32::MAX,
            _ => true,
        },
{
    match diff {
        ListDiff::Append { values } => items_ok(values),
        ListDiff::Reset { values } => items_ok(values),
        ListDiff::PushBack { value } => match &value.event {
            Some(e) => item_ok(e),
            None => true,
        },
        ListDiff::PushFront { value } => match &value.event {
            Some(e) => item_ok(e),
            None => true,
        },
        ListDiff::SetIndex { index: _, value } => match &value.event {
            Some(e) => item_ok(e),
            None => true,
        },
        ListDiff::Insert { index: _, value } => match &value.event {
            Some(e) => item_ok(e),
            None => true,
        },
        ListDiff::Truncate { length } => *length <= u32::MAX as usize,
        _ => true,
    }
}

} // verus!
