//! Plain-text rendering of timeline items that are not ordinary messages:
//! membership changes, profile changes, other state events, and the
//! placeholder texts for stickers, polls, redactions and undecryptable
//! events.

use vstd::prelude::*;

use crate::reply::spec_all_space;
use crate::util::concat2;
use crate::util::concat3;
use crate::util::concat5;

verus! {

use vstd::string::StringExecFns;

/// A membership transition, as the engine classifies it.
#[derive(Clone, Copy, Debug, PartialEq, Eq, Structural)]
pub enum MembershipKind {
    Joined,
    Left,
    Invited,
    Kicked,
    Banned,
    Unbanned,
    InvitationAccepted,
    InvitationRejected,
    InvitationRevoked,
    KickedAndBanned,
    Knocked,
    KnockAccepted,
    KnockDenied,
    OtherChange,
}

/// A room-membership change of one user, reduced to plain values.
#[derive(Clone, Debug)]
pub struct MembershipChangeData {
    pub user_id: String,
    pub change: Option<MembershipKind>,
}

/// A display-name change: the old and the new name, either possibly
/// absent.
#[derive(Clone, Debug)]
pub struct DisplayNameChange {
    pub old_name: Option<String>,
    pub new_name: Option<String>,
}

/// A member-profile change, reduced to plain values.
#[derive(Clone, Debug)]
pub struct ProfileChangeData {
    pub user_id: String,
    pub displayname_change: Option<DisplayNameChange>,
    pub avatar_changed: bool,
}

/// Any other state event, reduced to what its rendering reads.
#[derive(Clone, Debug)]
pub enum OtherStateData {
    RoomName { name: String },
    RoomTopic { topic: String },
    RoomAvatar,
    RoomEncryption,
    RoomPinnedEvents,
    RoomPowerLevels,
    RoomCanonicalAlias,
    Other { event_type: String },
}

/// The text a membership change renders to.
pub open spec fn spec_render_membership(actor: Seq<char>, ch: MembershipChangeData) -> Seq<char> {
    let subject = ch.user_id@;
    match ch.change {
        Some(MembershipKind::Joined) => subject + " joined the room"@,
        Some(MembershipKind::Left) => subject + " left the room"@,
        Some(MembershipKind::Invited) => actor + " invited "@ + subject,
        Some(MembershipKind::Kicked) => actor + " removed "@ + subject,
        Some(MembershipKind::Banned) => actor + " banned "@ + subject,
        Some(MembershipKind::Unbanned) => actor + " unbanned "@ + subject,
        Some(MembershipKind::InvitationAccepted) => subject + " accepted the invite"@,
        Some(MembershipKind::InvitationRejected) => subject + " rejected the invite"@,
        Some(MembershipKind::InvitationRevoked) => actor + " revoked the invite for "@ + subject,
        Some(MembershipKind::KickedAndBanned) => actor + " removed and banned "@ + subject,
        Some(MembershipKind::Knocked) => subject + " knocked"@,
        Some(MembershipKind::KnockAccepted) => actor + " accepted "@ + subject,
        Some(MembershipKind::KnockDenied) => actor + " denied "@ + subject,
        _ => subject + " updated membership"@,
    }
}

/// The text a profile change renders to when the display name is
/// untouched: the avatar or the profile at large was updated.
pub open spec fn spec_render_profile_fallback(pc: ProfileChangeData) -> Seq<char> {
    if pc.avatar_changed {
        pc.user_id@ + " updated their avatar"@
    } else {
        pc.user_id@ + " updated their profile"@
    }
}

/// The text a profile change renders to.
pub open spec fn spec_render_profile(pc: ProfileChangeData) -> Seq<char> {
    let subject = pc.user_id@;
    match pc.displayname_change {
        Some(ch) => match (ch.old_name, ch.new_name) {
            (None, Some(n)) => subject + " set their display name to “"@ + n@ + "”"@,
            (Some(o), Some(n)) => {
                if o@ != n@ {
                    subject + " changed their display name from “"@ + o@ + "” to “"@ + n@ + "”"@
                } else {
                    spec_render_profile_fallback(pc)
                }
            },
            (Some(_), None) => subject + " removed their display name"@,
            (None, None) => spec_render_profile_fallback(pc),
        },
        None => spec_render_profile_fallback(pc),
    }
}

/// The text another state event renders to.
pub open spec fn spec_render_other_state(actor: Seq<char>, st: OtherStateData) -> Seq<char> {
    match st {
        OtherStateData::RoomName { name } => actor + " changed the room name to "@ + name@,
        OtherStateData::RoomTopic { topic } => actor + " changed the topic to "@ + topic@,
        OtherStateData::RoomAvatar => actor + " changed the room avatar"@,
        OtherStateData::RoomEncryption => "Encryption enabled for this room"@,
        OtherStateData::RoomPinnedEvents => actor + " updated pinned events"@,
        OtherStateData::RoomPowerLevels => actor + " changed power levels"@,
        OtherStateData::RoomCanonicalAlias => actor + " changed the main address"@,
        OtherStateData::Other { event_type } => actor + " updated state: "@ + event_type@,
    }
}

/// The placeholder shown for a message whose body is empty or whitespace.
pub open spec fn spec_empty_body_placeholder() -> Seq<char> {
    "Encrypted or unsupported message. Verify this session or restore keys to view."@
}

/// The text an ordinary message renders to: its body, or the placeholder
/// when the body is all whitespace.
pub open spec fn spec_render_message(body: Seq<char>) -> Seq<char> {
    if spec_all_space(body) {
        spec_empty_body_placeholder()
    } else {
        body
    }
}

/// Renders a membership change.
pub fn render_membership_change(actor: &str, ch: &MembershipChangeData) -> (r: String)
    ensures
        r@ == spec_render_membership(actor@, *ch),
{
    let subject = ch.user_id.as_str();
    match ch.change {
        Some(MembershipKind::Joined) => concat2(subject, " joined the room"),
        Some(MembershipKind::Left) => concat2(subject, " left the room"),
        Some(MembershipKind::Invited) => concat3(actor, " invited ", subject),
        Some(MembershipKind::Kicked) => concat3(actor, " removed ", subject),
        Some(MembershipKind::Banned) => concat3(actor, " banned ", subject),
        Some(MembershipKind::Unbanned) => concat3(actor, " unbanned ", subject),
        Some(MembershipKind::InvitationAccepted) => concat2(subject, " accepted the invite"),
        Some(MembershipKind::InvitationRejected) => concat2(subject, " rejected the invite"),
        Some(MembershipKind::InvitationRevoked) => concat3(
            actor,
            " revoked the invite for ",
            subject,
        ),
        Some(MembershipKind::KickedAndBanned) => concat3(actor, " removed and banned ", subject),
        Some(MembershipKind::Knocked) => concat2(subject, " knocked"),
        Some(MembershipKind::KnockAccepted) => concat3(actor, " accepted ", subject),
        Some(MembershipKind::KnockDenied) => concat3(actor, " denied ", subject),
        Some(MembershipKind::OtherChange) => concat2(subject, " updated membership"),
        None => concat2(subject, " updated membership"),
    }
}

/// Renders a profile change.
pub fn render_profile_change(pc: &ProfileChangeData) -> (r: String)
    ensures
        r@ == spec_render_profile(*pc),
{
    let subject = pc.user_id.as_str();
    match &pc.displayname_change {
        Some(ch) => {
            match (&ch.old_name, &ch.new_name) {
                (None, Some(n)) => {
                    return concat3(subject, " set their display name to “", n.as_str()).concat(
                        "”",
                    );
                },
                (Some(o), Some(n)) => {
                    if !crate::util::eq_str(o.as_str(), n.as_str()) {
                        return concat5(
                            subject,
                            " changed their display name from “",
                            o.as_str(),
                            "” to “",
                            n.as_str(),
                        ).concat("”");
                    }
                },
                (Some(_), None) => {
                    return concat2(subject, " removed their display name");
                },
                (None, None) => {},
            }
        },
        None => {},
    }
    if pc.avatar_changed {
        concat2(subject, " updated their avatar")
    } else {
        concat2(subject, " updated their profile")
    }
}

/// Renders another state event.
pub fn render_other_state(actor: &str, st: &OtherStateData) -> (r: String)
    ensures
        r@ == spec_render_other_state(actor@, *st),
{
    match st {
        OtherStateData::RoomName { name } => concat3(
            actor,
            " changed the room name to ",
            name.as_str(),
        ),
        OtherStateData::RoomTopic { topic } => concat3(
            actor,
            " changed the topic to ",
            topic.as_str(),
        ),
        OtherStateData::RoomAvatar => concat2(actor, " changed the room avatar"),
        OtherStateData::RoomEncryption => "Encryption enabled for this room".to_owned(),
        OtherStateData::RoomPinnedEvents => concat2(actor, " updated pinned events"),
        OtherStateData::RoomPowerLevels => concat2(actor, " changed power levels"),
        OtherStateData::RoomCanonicalAlias => concat2(actor, " changed the main address"),
        OtherStateData::Other { event_type } => concat3(
            actor,
            " updated state: ",
            event_type.as_str(),
        ),
    }
}

/// Whether every character of the string is whitespace.
pub fn str_all_space(s: &str) -> (r: bool)
    ensures
        r == spec_all_space(s@),
{
    let n: usize = s.unicode_len();
    let mut i: usize = 0;
    while i < n
        invariant
            n == s@.len(),
            i <= n,
            forall|j: int| 0 <= j < i ==> crate::reply::is_space_char(#[trigger] s@[j]),
        decreases n - i,
    {
        let c = s.get_char(i);
        if !(c == ' ' || c == '\t' || c == '\r' || c == '\n') {
            return false;
        }
        i = i + 1;
    }
    true
}

/// Renders an ordinary message: its body, or the placeholder when the
/// body is all whitespace.
pub fn render_message_text(body: &str) -> (r: String)
    ensures
        r@ == spec_render_message(body@),
{
    if str_all_space(body) {
        "Encrypted or unsupported message. Verify this session or restore keys to view.".to_owned()
    } else {
        body.to_owned()
    }
}

} // verus!
