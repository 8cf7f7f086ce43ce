//! Sync supervision: projects the engine's sync-service state into the
//! status delivered to an observer, and decides whether the service must
//! be restarted (immediately when the app is in the foreground after a
//! termination, after a short delay on an error).

use vstd::prelude::*;

use crate::util::concat2;

verus! {

/// The phase reported to a sync observer.
#[derive(Clone, Copy, Debug, PartialEq, Eq, Structural)]
pub enum SyncPhase {
    Idle,
    Running,
    BackingOff,
    Error,
}

/// One status notification for the sync supervisor's observer.
#[derive(Clone, Debug)]
pub struct SyncStatus {
    pub phase: SyncPhase,
    pub message: Option<String>,
}

/// The callback a consumer registers to follow the sync service.
pub trait SyncObserver {
    fn on_state(&self, status: SyncStatus);
}

/// The engine's sync-service state, reduced to plain values.
#[derive(Clone, Debug)]
pub enum SyncServiceState {
    Idle,
    Running,
    Offline,
    Terminated,
    Error { message: String },
}

/// What the supervising loop must do after delivering a status.
#[derive(Clone, Copy, Debug, PartialEq, Eq, Structural)]
pub enum SyncAction {
    KeepWatching,
    RestartIfForeground,
    RestartAfterDelay,
}

/// The status an engine state projects to, described field-wise.
pub open spec fn sync_status_matches(st: SyncStatus, state: SyncServiceState) -> bool {
    match state {
        SyncServiceState::Idle => st.phase == SyncPhase::Idle && st.message is None,
        SyncServiceState::Running => st.phase == SyncPhase::Running && st.message is None,
        SyncServiceState::Offline => st.phase == SyncPhase::BackingOff && (st.message matches Some(
            m,
        ) && m@ == "Offline (auto-retrying)"@),
        SyncServiceState::Terminated => st.phase == SyncPhase::Idle && (st.message matches Some(m)
            && m@ == "Sync stopped"@),
        SyncServiceState::Error { message } => st.phase == SyncPhase::Error && (st.message matches
        Some(m) && m@ == "Sync error: "@ + message@),
    }
}

/// The action an engine state calls for.
pub open spec fn spec_sync_action(state: SyncServiceState) -> SyncAction {
    match state {
        SyncServiceState::Terminated => SyncAction::RestartIfForeground,
        SyncServiceState::Error { .. } => SyncAction::RestartAfterDelay,
        _ => SyncAction::KeepWatching,
    }
}

/// Projects one engine state into the observer's status and the loop's
/// next action.
pub fn supervise_sync_step(state: &SyncServiceState) -> (r: (SyncStatus, SyncAction))
    ensures
        sync_status_matches(r.0, *state),
        r.1 == spec_sync_action(*state),
{
    match state {
        SyncServiceState::Idle => (
            SyncStatus { phase: SyncPhase::Idle, message: None },
            SyncAction::KeepWatching,
        ),
        SyncServiceState::Running => (
            SyncStatus { phase: SyncPhase::Running, message: None },
            SyncAction::KeepWatching,
        ),
        SyncServiceState::Offline => (
            SyncStatus {
                phase: SyncPhase::BackingOff,
                message: Some("Offline (auto-retrying)".to_owned()),
            },
            SyncAction::KeepWatching,
        ),
        SyncServiceState::Terminated => (
            SyncStatus { phase: SyncPhase::Idle, message: Some("Sync stopped".to_owned()) },
            SyncAction::RestartIfForeground,
        ),
        SyncServiceState::Error { message } => (
            SyncStatus {
                phase: SyncPhase::Error,
                message: Some(concat2("Sync error: ", message.as_str())),
            },
            SyncAction::RestartAfterDelay,
        ),
    }
}

} // verus!
