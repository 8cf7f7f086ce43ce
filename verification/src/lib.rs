//! A bridging layer between a remote messaging session engine and a
//! callback-based consumer: subscription bookkeeping, observer dispatch
//! models, and the derived finite-state projections built on top of them
//! (timeline-diff projection, send-queue retry accounting, interactive
//! device-verification, room-list snapshotting, connectivity coalescing).

use vstd::prelude::*;

mod connection;
mod diff;
mod poll;
mod registry;
mod reply;
mod roomlist;
mod render;
mod sendqueue;
mod store;
mod sync;
mod timeline;
mod types;
mod util;
mod verification;

pub use diff::ListDiff;
pub use diff::apply_batch;
pub use diff::apply_diff;
pub use diff::lemma_replay_matches_reference;
pub use diff::spec_apply;
pub use diff::spec_apply_batch;
pub use diff::spec_replay;
pub use connection::CoarseState;
pub use connection::ConnectionObserver;
pub use connection::ConnectionEvent;
pub use connection::ConnectionMonitor;
pub use connection::ConnectionState;
pub use connection::SessionChange;
pub use connection::coarse_of;
pub use connection::lemma_no_duplicate_coarse_delivery;
pub use connection::raw_state_of;
pub use connection::run_last;
pub use connection::run_outputs;
pub use connection::step_last;
pub use connection::step_output;
pub use poll::PollAnswerData;
pub use poll::PollDefinition;
pub use poll::build_poll_answers;
pub use poll::poll_max_selections;
pub use poll::spec_answer_id;
pub use poll::PollData;
pub use poll::PollKind;
pub use poll::PollOption;
pub use poll::PollStateData;
pub use poll::VoteData;
pub use poll::map_poll_state;
pub use poll::poll_data_matches;
pub use poll::poll_state_ok;
pub use poll::poll_state_wf;
pub use poll::spec_max_votes;
pub use poll::spec_option_of;
pub use poll::spec_total_votes;
pub use poll::spec_voted_for;
pub use poll::spec_votes_for;
pub use poll::spec_winning_count;
pub use render::DisplayNameChange;
pub use render::MembershipChangeData;
pub use render::MembershipKind;
pub use render::OtherStateData;
pub use render::ProfileChangeData;
pub use render::render_membership_change;
pub use render::render_message_text;
pub use render::render_other_state;
pub use render::render_profile_change;
pub use render::spec_empty_body_placeholder;
pub use render::spec_render_membership;
pub use render::spec_render_message;
pub use render::spec_render_other_state;
pub use render::spec_render_profile;
pub use render::spec_render_profile_fallback;
pub use render::str_all_space;
pub use reply::is_blank_char;
pub use reply::is_space_char;
pub use reply::spec_all_space;
pub use reply::spec_chop_cr;
pub use reply::spec_join_lines;
pub use reply::spec_line_break;
pub use reply::spec_lines;
pub use reply::spec_quoted_lines;
pub use reply::spec_ltrim_space;
pub use reply::spec_rtrim_space;
pub use reply::spec_strip_reply;
pub use reply::spec_trim_space;
pub use reply::trim_spaces;
pub use reply::spec_strip_start;
pub use reply::strip_reply_fallback;
pub use roomlist::LatestRoomEvent;
pub use roomlist::RoomData;
pub use roomlist::RoomListCmd;
pub use roomlist::RoomListEntry;
pub use roomlist::RoomListFilter;
pub use roomlist::RoomListObserver;
pub use roomlist::RoomListProjector;
pub use roomlist::dm_peer;
pub use roomlist::entry_of;
pub use roomlist::is_unread;
pub use roomlist::lemma_projector_matches_reference;
pub use roomlist::lemma_unread_only_snapshot;
pub use roomlist::passes;
pub use roomlist::snapshot;
pub use roomlist::spec_dm_peer;
pub use roomlist::spec_entry_of;
pub use roomlist::spec_passes;
pub use roomlist::spec_snapshot;
pub use roomlist::spec_unread;
pub use registry::Category;
pub use registry::SubscriptionRegistry;
pub use registry::lemma_no_reuse_after_unregister;
pub use registry::lemma_subscription_ids_strictly_increasing;
pub use registry::lemma_unregister_idempotent;
pub use sendqueue::AttemptRecord;
pub use sendqueue::AttemptTracker;
pub use sendqueue::QueueUpdate;
pub use sendqueue::SendObserver;
pub use sendqueue::SendState;
pub use sendqueue::SendUpdate;
pub use sendqueue::ChannelPolicy;
pub use sendqueue::RecvOutcome;
pub use sendqueue::bump_step;
pub use sendqueue::channel_decision;
pub use sendqueue::contains_key;
pub use sendqueue::ensure_step;
pub use sendqueue::has_attempts;
pub use sendqueue::key_matches;
pub use sendqueue::lemma_absent_after_resolution;
pub use sendqueue::lemma_attempts_strictly_increase;
pub use sendqueue::queue_error_text;
pub use sendqueue::queue_error_update;
pub use sendqueue::resolve_step;
pub use sendqueue::send_error_text;
pub use sendqueue::update_matches;
pub use store::account_store_dir;
pub use store::blake3_hex;
pub use store::cache_dir;
pub use store::fresh_txn_id;
pub use store::now_ms;
pub use store::resolve_index_key;
pub use store::room_list_cache_file;
pub use store::sanitize_filename;
pub use store::search_index_dir;
pub use store::search_index_key_file;
pub use store::session_file;
pub use store::spec_dec;
pub use store::spec_dec_digits;
pub use store::spec_first_slash;
pub use store::spec_key_usable;
pub use store::spec_ltrim_underscore;
pub use store::spec_mapped_name;
pub use store::spec_mime_subtype;
pub use store::spec_name_char_ok;
pub use store::spec_rtrim_underscore;
pub use store::spec_sanitize;
pub use store::spec_sanitize_char;
pub use store::spec_segment_end;
pub use store::spec_thumb_cache_filename;
pub use store::spec_thumb_ext;
pub use store::spec_thumb_hash_input;
pub use store::thumb_cache_filename;
pub use store::thumb_ext;
pub use store::u64_to_dec;
pub use sync::SyncAction;
pub use sync::SyncObserver;
pub use sync::SyncPhase;
pub use sync::SyncServiceState;
pub use sync::SyncStatus;
pub use sync::spec_sync_action;
pub use sync::supervise_sync_step;
pub use sync::sync_status_matches;
pub use types::CallInvite;
pub use types::CallObserver;
pub use types::DeviceSummary;
pub use types::DownloadResult;
pub use types::FfiError;
pub use types::LiveLocationObserver;
pub use types::LiveLocationShareInfo;
pub use types::MemberSummary;
pub use types::OwnReceipt;
pub use types::ProgressObserver;
pub use types::ReceiptsObserver;
pub use types::RoomProfile;
pub use types::RoomSummary;
pub use types::RoomTags;
pub use types::SeenByEntry;
pub use types::TypingObserver;
pub use types::UnreadStats;
pub use types::UrlOpener;
pub use timeline::AttachmentInfo;
pub use timeline::AttachmentKind;
pub use timeline::EmbeddedReply;
pub use timeline::EncFile;
pub use timeline::ItemContent;
pub use timeline::ItemSendState;
pub use timeline::MediaInfoData;
pub use timeline::MediaSourceData;
pub use timeline::MessageData;
pub use timeline::MessageEvent;
pub use timeline::MessageKind;
pub use timeline::MsgLikeData;
pub use timeline::ProfileData;
pub use timeline::ReplyDetails;
pub use timeline::TimelineDiffKind;
pub use timeline::TimelineItemData;
pub use timeline::TimelineObserver;
pub use timeline::TimelineSourceItem;
pub use timeline::enc_to_record;
pub use timeline::extract_attachment;
pub use timeline::diff_ok;
pub use timeline::item_ok;
pub use timeline::item_wf;
pub use timeline::items_ok;
pub use timeline::items_wf;
pub use timeline::latest_event_matches;
pub use timeline::latest_room_event_for;
pub use timeline::map_sender_profile;
pub use timeline::map_timeline_event;
pub use timeline::map_vec_diff;
pub use timeline::missing_reply_event_id;
pub use timeline::render_msg_like;
pub use timeline::render_timeline_text;
pub use timeline::spec_enc_of;
pub use timeline::spec_fetches;
pub use timeline::spec_latest_body;
pub use timeline::spec_latest_event_type;
pub use timeline::spec_latest_msgtype;
pub use timeline::spec_missing_reply;
pub use timeline::spec_rendered;
pub use timeline::spec_thumb_enc;
pub use timeline::spec_thumb_url;
pub use timeline::vec_diff_matches;
pub use timeline::message_event_matches;
pub use timeline::spec_attachment_of;
pub use timeline::spec_attachment_of_kind;
pub use timeline::spec_body;
pub use timeline::spec_event_id_view;
pub use timeline::spec_is_edited;
pub use timeline::spec_item_id_view;
pub use timeline::spec_msg_like_text;
pub use timeline::spec_poll_of;
pub use timeline::spec_profile_avatar;
pub use timeline::spec_profile_name;
pub use timeline::spec_reply_body;
pub use timeline::spec_reply_display_name;
pub use timeline::spec_reply_event_id;
pub use timeline::spec_reply_of;
pub use timeline::spec_reply_sender;
pub use timeline::spec_send_state;
pub use timeline::spec_timeline_text;
pub use verification::FlowEntry;
pub use verification::FlowTable;
pub use verification::SasEmojis;
pub use verification::SasPhase;
pub use verification::VerificationInboxObserver;
pub use verification::VerificationObserver;
pub use verification::entry_matches;
pub use verification::table_contains;
pub use verification::table_remove_step;
pub use verification::table_upsert_step;
pub use verification::FlowAction;
pub use verification::FlowEvent;
pub use verification::FlowOutput;
pub use verification::FlowStage;
pub use verification::RequestEvent;
pub use verification::SasEvent;
pub use verification::StartSasResult;
pub use verification::VerificationMachine;
pub use verification::VERIFICATION_TIMEOUT_MS;
pub use verification::attach_step;
pub use verification::error_output;
pub use verification::flow_step;
pub use verification::ignored_step;
pub use verification::is_emoji_output;
pub use verification::is_error_output;
pub use verification::is_phase_output;
pub use verification::lemma_timeout_emits_exactly_once;
pub use verification::machine_timed_out;
pub use verification::phase_output;
pub use verification::request_step;
pub use verification::same_identity;
pub use verification::sas_step;
pub use verification::start_outcome_step;
pub use verification::terminal_step;
pub use verification::timeout_message;

verus! {

} // verus!
