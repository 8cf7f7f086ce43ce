use mages_bridge::FlowAction;
use mages_bridge::FlowEvent;
use mages_bridge::FlowOutput;
use mages_bridge::FlowTable;
use mages_bridge::RequestEvent;
use mages_bridge::SasEvent;
use mages_bridge::SasPhase;
use mages_bridge::StartSasResult;
use mages_bridge::VerificationMachine;
use mages_bridge::VERIFICATION_TIMEOUT_MS;

fn phase_of(o: &FlowOutput) -> Option<SasPhase> {
    match o {
        FlowOutput::Phase { phase, .. } => Some(*phase),
        _ => None,
    }
}

fn error_message_of(o: &FlowOutput) -> Option<String> {
    match o {
        FlowOutput::Error { message, .. } => Some(message.clone()),
        _ => None,
    }
}

#[test]
fn locally_initiated_flow_runs_to_done() {
    let mut table = FlowTable::new();
    let mut m = VerificationMachine::new("flow-1".to_string(), true, 1_000);

    // Ready: the machine auto-starts the key exchange exactly once.
    let (outs, action) = m.on_event(&mut table, &FlowEvent::Request(RequestEvent::Ready), 1_100);
    assert!(outs.is_empty());
    assert_eq!(action, Some(FlowAction::StartSas));

    // The engine started the exchange: Ready is delivered, the flow is live.
    let (outs, action) = m.on_event(
        &mut table,
        &FlowEvent::StartOutcome(StartSasResult::Started {
            other_user: "@bob:x".to_string(),
            other_device: "DEV".to_string(),
        }),
        1_200,
    );
    assert!(action.is_none());
    assert_eq!(outs.len(), 1);
    assert_eq!(phase_of(&outs[0]), Some(SasPhase::Ready));
    assert!(table.contains("flow-1"));

    // Keys exchanged with emoji data: the payload carries the symbols
    // exactly as produced, the flow id, and the other party.
    let (outs, _) = m.on_event(
        &mut table,
        &FlowEvent::Sas(SasEvent::KeysExchanged {
            emojis: Some(vec!["🐱".to_string(), "🐶".to_string(), "🐝".to_string()]),
            decimals: None,
        }),
        2_000,
    );
    assert_eq!(outs.len(), 2);
    assert_eq!(phase_of(&outs[0]), Some(SasPhase::Emojis));
    match &outs[1] {
        FlowOutput::Emojis { payload } => {
            assert_eq!(payload.flow_id, "flow-1");
            assert_eq!(payload.other_user, "@bob:x");
            assert_eq!(payload.other_device, "DEV");
            assert_eq!(payload.emojis, vec!["🐱", "🐶", "🐝"]);
        }
        _ => panic!("expected the emoji payload"),
    }

    let (outs, _) = m.on_event(&mut table, &FlowEvent::Sas(SasEvent::Confirmed), 3_000);
    assert_eq!(outs.len(), 1);
    assert_eq!(phase_of(&outs[0]), Some(SasPhase::Confirmed));

    // Done: the flow is removed before the terminal notification, so a
    // subsequent confirm can no longer find it.
    let (outs, _) = m.on_event(&mut table, &FlowEvent::Sas(SasEvent::Done), 4_000);
    assert_eq!(outs.len(), 1);
    assert_eq!(phase_of(&outs[0]), Some(SasPhase::Done));
    assert!(!table.contains("flow-1"));
    assert!(m.is_terminated());
}

#[test]
fn timeout_emits_exactly_one_notification_and_then_silence() {
    let mut table = FlowTable::new();
    let mut m = VerificationMachine::new("flow-t".to_string(), true, 0);

    // No Ready within the whole timeout span: the next wait runs out.
    let late = VERIFICATION_TIMEOUT_MS;
    let (outs, action) = m.on_event(&mut table, &FlowEvent::TimedOut, late);
    assert!(action.is_none());
    assert_eq!(outs.len(), 1);
    assert_eq!(
        error_message_of(&outs[0]).as_deref(),
        Some("Verification timed out waiting for SAS")
    );
    assert!(m.is_terminated());

    // Whatever arrives afterwards produces no further notifications.
    let (outs, _) = m.on_event(&mut table, &FlowEvent::Request(RequestEvent::Ready), late + 1);
    assert!(outs.is_empty());
    let (outs, _) = m.on_event(&mut table, &FlowEvent::Sas(SasEvent::Done), late + 2);
    assert!(outs.is_empty());
    let (outs, _) = m.on_event(&mut table, &FlowEvent::TimedOut, late + 3);
    assert!(outs.is_empty());
}

#[test]
fn deadline_check_fires_even_with_a_regular_event() {
    let mut table = FlowTable::new();
    let mut m = VerificationMachine::new("flow-d".to_string(), false, 1_000);
    // The flow attaches first, so its entry is live when time runs out.
    let _ = m.on_event(
        &mut table,
        &FlowEvent::Request(RequestEvent::TransitionedToSas {
            other_user: "@a:x".to_string(),
            other_device: "D".to_string(),
        }),
        1_100,
    );
    assert!(table.contains("flow-d"));
    let deadline = 1_000 + VERIFICATION_TIMEOUT_MS;
    let (outs, _) = m.on_event(
        &mut table,
        &FlowEvent::Sas(SasEvent::Confirmed),
        deadline,
    );
    assert_eq!(outs.len(), 1);
    assert_eq!(
        error_message_of(&outs[0]).as_deref(),
        Some("Verification timed out waiting for SAS")
    );
    assert!(m.is_terminated());
    // The finished flow's entry is gone: no confirm or cancel can find it.
    assert!(!table.contains("flow-d"));
}

#[test]
fn auto_start_retries_once_after_not_yet_available() {
    let mut table = FlowTable::new();
    let mut m = VerificationMachine::new("flow-r".to_string(), true, 0);

    let (_, action) = m.on_event(&mut table, &FlowEvent::Request(RequestEvent::Ready), 10);
    assert_eq!(action, Some(FlowAction::StartSas));
    let (outs, action) = m.on_event(
        &mut table,
        &FlowEvent::StartOutcome(StartSasResult::NotYetAvailable),
        20,
    );
    assert!(outs.is_empty());
    assert!(action.is_none());

    // One further Ready may retry...
    let (_, action) = m.on_event(&mut table, &FlowEvent::Request(RequestEvent::Ready), 30);
    assert_eq!(action, Some(FlowAction::StartSas));
    let (_, action) = m.on_event(
        &mut table,
        &FlowEvent::StartOutcome(StartSasResult::NotYetAvailable),
        40,
    );
    assert!(action.is_none());

    // ...but not a third attempt.
    let (outs, action) = m.on_event(&mut table, &FlowEvent::Request(RequestEvent::Ready), 50);
    assert!(outs.is_empty());
    assert!(action.is_none());
}

#[test]
fn cancellation_reports_phase_and_reason_and_clears_the_flow() {
    let mut table = FlowTable::new();
    let mut m = VerificationMachine::new("flow-c".to_string(), false, 0);
    let (outs, _) = m.on_event(
        &mut table,
        &FlowEvent::Request(RequestEvent::TransitionedToSas {
            other_user: "@a:x".to_string(),
            other_device: "D".to_string(),
        }),
        10,
    );
    assert_eq!(outs.len(), 1);
    assert!(table.contains("flow-c"));
    let (outs, _) = m.on_event(
        &mut table,
        &FlowEvent::Sas(SasEvent::Cancelled { reason: "mismatch".to_string() }),
        20,
    );
    assert_eq!(outs.len(), 2);
    assert_eq!(phase_of(&outs[0]), Some(SasPhase::Cancelled));
    assert_eq!(error_message_of(&outs[1]).as_deref(), Some("mismatch"));
    assert!(!table.contains("flow-c"));
}

#[test]
fn decimal_only_exchange_is_an_explicit_error() {
    let mut table = FlowTable::new();
    let mut m = VerificationMachine::new("flow-n".to_string(), false, 0);
    let _ = m.on_event(
        &mut table,
        &FlowEvent::Request(RequestEvent::TransitionedToSas {
            other_user: "@a:x".to_string(),
            other_device: "D".to_string(),
        }),
        10,
    );
    let (outs, _) = m.on_event(
        &mut table,
        &FlowEvent::Sas(SasEvent::KeysExchanged {
            emojis: None,
            decimals: Some("1-2-3".to_string()),
        }),
        20,
    );
    assert_eq!(outs.len(), 2);
    assert_eq!(phase_of(&outs[0]), Some(SasPhase::Failed));
    assert_eq!(
        error_message_of(&outs[1]).as_deref(),
        Some("SAS is decimal-only (1-2-3) but currently UI is emoji-only")
    );
    assert!(!m.is_terminated());
}

#[test]
fn unsupported_method_ends_the_flow() {
    let mut table = FlowTable::new();
    let mut m = VerificationMachine::new("flow-u".to_string(), true, 0);
    let (outs, _) = m.on_event(
        &mut table,
        &FlowEvent::Request(RequestEvent::TransitionedOther),
        10,
    );
    assert_eq!(outs.len(), 1);
    assert_eq!(
        error_message_of(&outs[0]).as_deref(),
        Some("Verification transitioned to a non-SAS method (unsupported in this UI)")
    );
    assert!(m.is_terminated());
}

#[test]
fn flow_table_lookup_and_replacement() {
    let mut table = FlowTable::new();
    table.insert("f1", "@a:x", "D1");
    table.insert("f2", "@b:x", "D2");
    table.insert("f1", "@a:x", "D3");
    assert_eq!(table.active_count(), 2);
    let (user, device) = table.lookup("f1").unwrap();
    assert_eq!(user, "@a:x");
    assert_eq!(device, "D3");
    assert!(table.remove("f1"));
    assert!(!table.remove("f1"));
    assert!(table.lookup("f1").is_none());
    assert!(table.contains("f2"));
}
