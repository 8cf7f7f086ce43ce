use mages_bridge::ConnectionEvent;
use mages_bridge::ConnectionMonitor;
use mages_bridge::ConnectionState;
use mages_bridge::SessionChange;

#[test]
fn identical_coarse_states_are_suppressed() {
    let mut m = ConnectionMonitor::new();
    // The monitor starts disconnected: a failing probe repeats the coarse
    // category and is suppressed.
    assert!(m.step(ConnectionEvent::Probe(false)).is_none());
    // A successful probe differs and is delivered.
    assert_eq!(m.step(ConnectionEvent::Probe(true)), Some(ConnectionState::Connected));
    // A second successful probe repeats it and is suppressed.
    assert!(m.step(ConnectionEvent::Probe(true)).is_none());
    // Back to disconnected: delivered.
    assert_eq!(m.step(ConnectionEvent::Probe(false)), Some(ConnectionState::Disconnected));
    assert!(m.step(ConnectionEvent::Probe(false)).is_none());
}

#[test]
fn credential_events_map_to_connected_and_reconnecting() {
    let mut m = ConnectionMonitor::new();
    assert_eq!(
        m.step(ConnectionEvent::Session(SessionChange::TokensRefreshed)),
        Some(ConnectionState::Connected)
    );
    match m.step(ConnectionEvent::Session(SessionChange::UnknownToken)) {
        Some(ConnectionState::Reconnecting { attempt, next_retry_secs }) => {
            assert_eq!(attempt, 1);
            assert_eq!(next_retry_secs, 5);
        }
        other => panic!("expected a reconnecting state, got {other:?}"),
    }
    // A repeated invalid token stays in the reconnecting category and is
    // suppressed.
    assert!(m.step(ConnectionEvent::Session(SessionChange::UnknownToken)).is_none());
    // Recovery is delivered again.
    assert_eq!(
        m.step(ConnectionEvent::Session(SessionChange::TokensRefreshed)),
        Some(ConnectionState::Connected)
    );
}

#[test]
fn probe_and_credential_sources_share_one_deduplication() {
    let mut m = ConnectionMonitor::new();
    assert_eq!(
        m.step(ConnectionEvent::Session(SessionChange::TokensRefreshed)),
        Some(ConnectionState::Connected)
    );
    // The periodic probe agreeing with the credential event is suppressed.
    assert!(m.step(ConnectionEvent::Probe(true)).is_none());
    assert_eq!(m.step(ConnectionEvent::Probe(false)), Some(ConnectionState::Disconnected));
}
