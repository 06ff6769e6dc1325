use hyprhito::signal::{classify, LidSignal, RawEvent, RawEventKind, LID_SWITCH_CODE};
use hyprhito::decision::{decide, display_payload, probe_required, Action, ProbeResult};

#[test]
fn non_switch_events_produce_no_signal() {
    let key = RawEvent { kind: RawEventKind::Other, value: 1 };
    assert_eq!(classify(&key), None);
    let axis = RawEvent { kind: RawEventKind::Other, value: 0 };
    assert_eq!(classify(&axis), None);
}

#[test]
fn other_switch_codes_produce_no_signal() {
    let tablet_mode = RawEvent { kind: RawEventKind::Switch(1), value: 1 };
    assert_eq!(classify(&tablet_mode), None);
    let headphone = RawEvent { kind: RawEventKind::Switch(2), value: 0 };
    assert_eq!(classify(&headphone), None);
}

#[test]
fn lid_value_one_classifies_closed() {
    let e = RawEvent { kind: RawEventKind::Switch(LID_SWITCH_CODE), value: 1 };
    assert_eq!(classify(&e), Some(LidSignal::Closed));
}

#[test]
fn lid_other_values_classify_opened() {
    for value in [0, 2, -1, i32::MIN, i32::MAX] {
        let e = RawEvent { kind: RawEventKind::Switch(LID_SWITCH_CODE), value };
        assert_eq!(classify(&e), Some(LidSignal::Opened));
    }
}

#[test]
fn probe_runs_only_on_close() {
    assert!(probe_required(LidSignal::Closed));
    assert!(!probe_required(LidSignal::Opened));
}

#[test]
fn closed_with_external_display_disables_only() {
    let actions = decide(LidSignal::Closed, Some(ProbeResult::Present));
    assert_eq!(actions, vec![Action::DisableDisplay]);
}

#[test]
fn closed_without_external_display_disables_then_suspends() {
    let actions = decide(LidSignal::Closed, Some(ProbeResult::Absent));
    assert_eq!(actions, vec![Action::DisableDisplay, Action::Suspend]);
}

#[test]
fn closed_with_failed_probe_disables_only() {
    let actions = decide(LidSignal::Closed, Some(ProbeResult::Failed));
    assert_eq!(actions, vec![Action::DisableDisplay]);
}

#[test]
fn opened_enables_display_only() {
    let actions = decide(LidSignal::Opened, None);
    assert_eq!(actions, vec![Action::EnableDisplay]);
}

#[test]
fn display_payloads_are_exact() {
    assert_eq!(display_payload(true), b"on\n".to_vec());
    assert_eq!(display_payload(false), b"off\n".to_vec());
}
