//! The remaining plain data types and callback interfaces of the public
//! surface: per-room summaries, receipts, devices, live locations, call
//! invites and the library's error type. They carry values between the
//! engine's side and the consumer; the projections that fill them live in
//! the other modules.

use vstd::prelude::*;

verus! {

/// A room identifier and display name.
#[derive(Clone, Debug)]
pub struct RoomSummary {
    pub id: String,
    pub name: String,
}

/// The callback a consumer registers to receive typing updates.
pub trait TypingObserver {
    fn on_update(&self, names: Vec<String>);
}

/// The callback a consumer registers to be poked on receipt changes.
pub trait ReceiptsObserver {
    fn on_changed(&self);
}

/// One incoming call invitation.
#[derive(Clone, Debug)]
pub struct CallInvite {
    pub room_id: String,
    pub sender: String,
    pub call_id: String,
    pub is_video: bool,
    pub ts_ms: u64,
}

/// The callback a consumer registers for call invitations.
pub trait CallObserver {
    fn on_invite(&self, invite: CallInvite);
}

/// The callback a consumer registers to follow a transfer's progress.
pub trait ProgressObserver {
    fn on_progress(&self, sent: u64, total: Option<u64>);
}

/// Where a download landed and how large it is.
#[derive(Clone, Debug)]
pub struct DownloadResult {
    pub path: String,
    pub bytes: u64,
}

/// A room's unread counters.
#[derive(Clone, Copy, Debug, PartialEq, Eq, Structural)]
pub struct UnreadStats {
    pub messages: u64,
    pub notifications: u64,
    pub mentions: u64,
}

/// A room's profile, as shown in a room header.
#[derive(Clone, Debug)]
pub struct RoomProfile {
    pub room_id: String,
    pub name: String,
    pub topic: Option<String>,
    pub member_count: u64,
    pub is_encrypted: bool,
    pub is_dm: bool,
    pub avatar_url: Option<String>,
}

/// One member of a room.
#[derive(Clone, Debug)]
pub struct MemberSummary {
    pub user_id: String,
    pub display_name: Option<String>,
    pub avatar_url: Option<String>,
    pub is_me: bool,
    pub membership: String,
}

/// A room's favourite and low-priority flags.
#[derive(Clone, Copy, Debug, PartialEq, Eq, Structural)]
pub struct RoomTags {
    pub is_favourite: bool,
    pub is_low_priority: bool,
}

/// The user's own read receipt in a room.
#[derive(Clone, Debug)]
pub struct OwnReceipt {
    pub event_id: Option<String>,
    pub ts_ms: Option<u64>,
}

/// One reader of an event.
#[derive(Clone, Debug)]
pub struct SeenByEntry {
    pub user_id: String,
    pub display_name: Option<String>,
    pub avatar_url: Option<String>,
    pub ts_ms: Option<u64>,
}

/// One device of a user.
#[derive(Clone, Debug)]
pub struct DeviceSummary {
    pub device_id: String,
    pub display_name: String,
    pub ed25519: String,
    pub is_own: bool,
    pub verified: bool,
}

/// One live location share.
#[derive(Clone, Debug)]
pub struct LiveLocationShareInfo {
    pub user_id: String,
    pub geo_uri: String,
    pub ts_ms: u64,
    pub is_live: bool,
}

/// The callback a consumer registers for live location updates.
pub trait LiveLocationObserver {
    fn on_update(&self, shares: Vec<LiveLocationShareInfo>);
}

/// The callback a consumer provides for opening an address externally.
pub trait UrlOpener {
    fn open(&self, url: String) -> bool;
}

/// The library's error type: a human-readable message.
#[derive(Clone, Debug)]
pub enum FfiError {
    Msg(String),
}

impl FfiError {
    /// The message the error carries.
    pub fn message(&self) -> (r: String)
        ensures
            r@ == (match self {
                FfiError::Msg(m) => m@,
            }),
    {
        match self {
            FfiError::Msg(m) => m.clone(),
        }
    }
}

} // verus!
