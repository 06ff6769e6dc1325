use hyprhito::decision::ProbeResult;
use hyprhito::presence::{external_display_present, probe_outcome, status_reports_connected};
use hyprhito::resolver::{
    is_event_node, name_matches_lid_heuristic, primary_decision, select_lid_candidate,
    PrimaryProbe, ResolverStep, ScanCandidate,
};

#[test]
fn connected_with_trailing_newline_reports_connected() {
    assert!(status_reports_connected(&b"connected\n".to_vec()));
}

#[test]
fn connected_exact_reports_connected() {
    assert!(status_reports_connected(&b"connected".to_vec()));
}

#[test]
fn connected_with_surrounding_whitespace_reports_connected() {
    assert!(status_reports_connected(&b" \t\r\nconnected \t\r\n".to_vec()));
}

#[test]
fn disconnected_does_not_report_connected() {
    assert!(!status_reports_connected(&b"disconnected\n".to_vec()));
}

#[test]
fn empty_content_does_not_report_connected() {
    assert!(!status_reports_connected(&b"".to_vec()));
    assert!(!status_reports_connected(&b" \n".to_vec()));
}

#[test]
fn status_comparison_is_case_sensitive_and_exact() {
    assert!(!status_reports_connected(&b"Connected\n".to_vec()));
    assert!(!status_reports_connected(&b"connectedX".to_vec()));
    assert!(!status_reports_connected(&b"connecte\n".to_vec()));
}

#[test]
fn presence_holds_when_either_source_is_connected() {
    let connected = Some(b"connected\n".to_vec());
    let disconnected = Some(b"disconnected\n".to_vec());
    assert!(external_display_present(&connected, &disconnected));
    assert!(external_display_present(&disconnected, &connected));
    assert!(external_display_present(&None, &connected));
    assert!(!external_display_present(&disconnected, &disconnected));
    assert!(!external_display_present(&None, &None));
}

#[test]
fn probe_never_fails() {
    let connected = Some(b"connected\n".to_vec());
    assert_eq!(probe_outcome(&connected, &None), ProbeResult::Present);
    assert_eq!(probe_outcome(&None, &None), ProbeResult::Absent);
}

#[test]
fn capable_primary_is_used() {
    assert_eq!(primary_decision(PrimaryProbe::Capable), ResolverStep::UsePrimary);
}

#[test]
fn unusable_primary_degrades_to_scan_with_distinct_reasons() {
    assert_eq!(
        primary_decision(PrimaryProbe::OpenFailed),
        ResolverStep::ScanFallback { primary_opened: false }
    );
    assert_eq!(
        primary_decision(PrimaryProbe::NoSwitchSupport),
        ResolverStep::ScanFallback { primary_opened: true }
    );
}

#[test]
fn name_heuristic_matches_gpio_and_key_case_insensitively() {
    assert!(name_matches_lid_heuristic(&b"gpio-keys".to_vec()));
    assert!(name_matches_lid_heuristic(&b"GPIO Buttons".to_vec()));
    assert!(name_matches_lid_heuristic(&b"AT Translated Set 2 KEYBOARD".to_vec()));
    assert!(!name_matches_lid_heuristic(&b"Video Bus".to_vec()));
    assert!(!name_matches_lid_heuristic(&b"Power Button".to_vec()));
    assert!(!name_matches_lid_heuristic(&b"".to_vec()));
}

#[test]
fn event_nodes_are_recognised_by_prefix() {
    assert!(is_event_node(&b"event0".to_vec()));
    assert!(is_event_node(&b"event17".to_vec()));
    assert!(is_event_node(&b"event".to_vec()));
    assert!(!is_event_node(&b"mouse0".to_vec()));
    assert!(!is_event_node(&b"even".to_vec()));
    assert!(!is_event_node(&b"".to_vec()));
}

fn candidate(name: Option<&[u8]>, has_switch_support: bool) -> ScanCandidate {
    ScanCandidate { name: name.map(|n| n.to_vec()), has_switch_support }
}

#[test]
fn scan_finds_the_single_qualifying_device() {
    let candidates = vec![
        candidate(Some(b"Video Bus"), true),
        candidate(Some(b"gpio-keys"), true),
        candidate(Some(b"Power Button"), false),
    ];
    assert_eq!(select_lid_candidate(&candidates), Some(1));
}

#[test]
fn scan_fails_when_no_device_qualifies() {
    let candidates = vec![
        candidate(Some(b"Video Bus"), true),
        candidate(Some(b"Power Button"), false),
    ];
    assert_eq!(select_lid_candidate(&candidates), None);
    assert_eq!(select_lid_candidate(&Vec::new()), None);
}

#[test]
fn scan_takes_the_first_match_without_further_scoring() {
    let candidates = vec![
        candidate(Some(b"AT Translated Set 2 keyboard"), true),
        candidate(Some(b"gpio-keys"), true),
    ];
    assert_eq!(select_lid_candidate(&candidates), Some(0));
}

#[test]
fn scan_requires_both_name_match_and_switch_support() {
    let candidates = vec![
        candidate(Some(b"gpio-keys"), false),
        candidate(Some(b"Video Bus"), true),
        candidate(None, true),
    ];
    assert_eq!(select_lid_candidate(&candidates), None);
}
