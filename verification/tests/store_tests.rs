use mages_bridge::FfiError;
use mages_bridge::SyncAction;
use mages_bridge::SyncPhase;
use mages_bridge::SyncServiceState;
use mages_bridge::account_store_dir;
use mages_bridge::cache_dir;
use mages_bridge::now_ms;
use mages_bridge::resolve_index_key;
use mages_bridge::room_list_cache_file;
use mages_bridge::sanitize_filename;
use mages_bridge::search_index_dir;
use mages_bridge::search_index_key_file;
use mages_bridge::session_file;
use mages_bridge::supervise_sync_step;
use mages_bridge::thumb_cache_filename;
use mages_bridge::thumb_ext;
use mages_bridge::u64_to_dec;

#[test]
fn well_known_paths() {
    assert_eq!(cache_dir("/data/store"), "/data/store/media_cache");
    assert_eq!(session_file("/data/store"), "/data/store/session.json");
    assert_eq!(room_list_cache_file("/data/store"), "/data/store/room_list_cache.json");
    assert_eq!(search_index_dir("/data/store"), "/data/store/search_index");
    assert_eq!(search_index_key_file("/data/store"), "/data/store/search_index_key.txt");
    assert_eq!(account_store_dir("/base", Some("alice")), "/base/accounts/alice");
    assert_eq!(account_store_dir("/base", None), "/base");
}

#[test]
fn decimal_rendering_is_exact() {
    assert_eq!(u64_to_dec(0), "0");
    assert_eq!(u64_to_dec(7), "7");
    assert_eq!(u64_to_dec(10), "10");
    assert_eq!(u64_to_dec(120000), "120000");
    assert_eq!(u64_to_dec(u64::MAX), "18446744073709551615");
}

#[test]
fn sanitize_replaces_and_trims() {
    assert_eq!(sanitize_filename("a b.png"), "a_b.png");
    assert_eq!(sanitize_filename("__x__"), "x");
    assert_eq!(sanitize_filename("thumb_ab/cd"), "thumb_ab_cd");
    assert_eq!(sanitize_filename("____"), "");
    assert_eq!(sanitize_filename("ok-1.JPG"), "ok-1.JPG");
}

#[test]
fn thumbnail_extension_from_mime() {
    assert_eq!(thumb_ext(Some("image/png")), "png");
    assert_eq!(thumb_ext(Some("image/")), "jpg");
    assert_eq!(thumb_ext(Some("noslash")), "jpg");
    assert_eq!(thumb_ext(None), "jpg");
    assert_eq!(thumb_ext(Some("video/mp4")), "mp4");
}

#[test]
fn thumbnail_filename_shape_and_determinism() {
    let a = thumb_cache_filename("mxc://x/abc", 64, 48, true, Some("image/png"));
    let b = thumb_cache_filename("mxc://x/abc", 64, 48, true, Some("image/png"));
    // The digest depends on the inputs alone.
    assert_eq!(a, b);
    assert!(a.starts_with("thumb_"));
    assert!(a.ends_with("_64x48_crop.png"));
    // A 16-character digest prefix stands between the fixed parts.
    assert_eq!(a.len(), "thumb_".len() + 16 + "_64x48_crop.png".len());
    let digest_part = &a["thumb_".len().."thumb_".len() + 16];
    assert!(digest_part.chars().all(|c| c.is_ascii_hexdigit()));

    // A different key or mode yields a different digest.
    let c = thumb_cache_filename("mxc://x/other", 64, 48, true, Some("image/png"));
    assert_ne!(a, c);
    let d = thumb_cache_filename("mxc://x/abc", 64, 48, false, Some("image/png"));
    assert!(d.ends_with("_64x48_scale.png"));
}

#[test]
fn index_key_is_kept_or_regenerated() {
    assert_eq!(resolve_index_key(Some("existing-key".to_string())), "existing-key");
    // A loaded key is trimmed before use.
    assert_eq!(resolve_index_key(Some(" abc \n".to_string())), "abc");
    // Whitespace-only keys are replaced by a fresh 72-character key.
    let fresh = resolve_index_key(Some("   \n".to_string()));
    assert_eq!(fresh.chars().count(), 72);
    let fresh2 = resolve_index_key(None);
    assert_eq!(fresh2.chars().count(), 72);
    // Fresh keys are random: two draws almost surely differ.
    assert_ne!(fresh, fresh2);
}

#[test]
fn clock_reads_are_monotonic_enough_to_be_nonzero() {
    let t = now_ms();
    assert!(t > 0);
    let t2 = now_ms();
    assert!(t2 >= t);
}

#[test]
fn sync_states_project_to_statuses_and_actions() {
    let (st, act) = supervise_sync_step(&SyncServiceState::Idle);
    assert_eq!(st.phase, SyncPhase::Idle);
    assert!(st.message.is_none());
    assert_eq!(act, SyncAction::KeepWatching);

    let (st, act) = supervise_sync_step(&SyncServiceState::Running);
    assert_eq!(st.phase, SyncPhase::Running);
    assert_eq!(act, SyncAction::KeepWatching);

    let (st, act) = supervise_sync_step(&SyncServiceState::Offline);
    assert_eq!(st.phase, SyncPhase::BackingOff);
    assert_eq!(st.message.as_deref(), Some("Offline (auto-retrying)"));
    assert_eq!(act, SyncAction::KeepWatching);

    let (st, act) = supervise_sync_step(&SyncServiceState::Terminated);
    assert_eq!(st.phase, SyncPhase::Idle);
    assert_eq!(st.message.as_deref(), Some("Sync stopped"));
    assert_eq!(act, SyncAction::RestartIfForeground);

    let (st, act) = supervise_sync_step(&SyncServiceState::Error {
        message: "connection reset".to_string(),
    });
    assert_eq!(st.phase, SyncPhase::Error);
    assert_eq!(st.message.as_deref(), Some("Sync error: connection reset"));
    assert_eq!(act, SyncAction::RestartAfterDelay);
}

#[test]
fn error_message_is_returned_verbatim() {
    let e = FfiError::Msg("bad room id".to_string());
    assert_eq!(e.message(), "bad room id");
}
