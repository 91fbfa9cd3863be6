use rayhunter::analysis::analyzer::{Analyzer, Event, EventType};
use rayhunter::analysis::attach_reject_storm::{
    cause_name, is_wrong_sim_cause, AttachRejectStormAnalyzer, RejectCause, REJECT_THRESHOLD,
    WINDOW_SIZE,
};
use rayhunter::analysis::information_element::{
    EmmCause, InformationElement, LteInformationElement, NasMessage,
};

// Drive `observe_reject` `n` times with the same cause on consecutive
// packets and return the last event produced.
fn run(analyzer: &mut AttachRejectStormAnalyzer, n: usize, cause: RejectCause) -> Option<Event> {
    let mut last = None;
    for i in 0..n {
        last = analyzer.observe_reject(i, cause.clone());
    }
    last
}

#[test]
fn test_single_wrong_sim_reject_does_not_alert() {
    let mut analyzer = AttachRejectStormAnalyzer::new();
    assert!(analyzer.observe_reject(0, RejectCause::EPSServicesNotAllowed).is_none());
    assert!(analyzer
        .observe_reject(1, RejectCause::EPSServicesAndNonEPSServicesNotAllowed)
        .is_none());
}

#[test]
fn test_below_threshold_no_alert() {
    let mut analyzer = AttachRejectStormAnalyzer::new();
    assert!(run(&mut analyzer, REJECT_THRESHOLD - 1, RejectCause::NetworkFailure).is_none());
}

#[test]
fn test_wrong_sim_storm_is_informational_not_high() {
    let mut analyzer = AttachRejectStormAnalyzer::new();
    let event = run(&mut analyzer, REJECT_THRESHOLD, RejectCause::EPSServicesNotAllowed)
        .expect("storm should alert");
    assert_eq!(event.event_type, EventType::Informational);
}

#[test]
fn test_mixed_cause_storm_is_medium() {
    let mut analyzer = AttachRejectStormAnalyzer::new();
    let event = run(&mut analyzer, REJECT_THRESHOLD, RejectCause::NetworkFailure)
        .expect("storm should alert");
    assert_eq!(event.event_type, EventType::Medium);
}

#[test]
fn test_no_duplicate_alert_for_same_storm() {
    let mut analyzer = AttachRejectStormAnalyzer::new();
    assert!(run(&mut analyzer, REJECT_THRESHOLD, RejectCause::NetworkFailure).is_some());
    assert!(analyzer
        .observe_reject(REJECT_THRESHOLD, RejectCause::NetworkFailure)
        .is_none());
}

#[test]
fn test_rejects_spread_apart_never_storm() {
    let mut analyzer = AttachRejectStormAnalyzer::new();
    for i in 0..10 {
        let pkt = i * (WINDOW_SIZE + 5);
        assert!(analyzer.observe_reject(pkt, RejectCause::NetworkFailure).is_none());
        assert_eq!(analyzer.reject_history.len(), 1);
    }
}

#[test]
fn test_old_rejects_expire() {
    let mut analyzer = AttachRejectStormAnalyzer::new();
    analyzer.reject_history.push_back((10, RejectCause::PLMNNotAllowed));
    analyzer.reject_history.push_back((20, RejectCause::PLMNNotAllowed));
    analyzer.expire_old(10 + WINDOW_SIZE + 1);
    assert_eq!(analyzer.reject_history.len(), 1); // only packet 20 remains
}

#[test]
fn test_wrong_sim_detection() {
    assert!(is_wrong_sim_cause(&RejectCause::PLMNNotAllowed));
    assert!(is_wrong_sim_cause(&RejectCause::EPSServicesNotAllowed));
    assert!(!is_wrong_sim_cause(&RejectCause::NoSuitableCellsInTrackingArea));
    assert!(!is_wrong_sim_cause(&RejectCause::Congestion));
}

#[test]
fn storm_messages_name_count_span_and_cause() {
    let mut analyzer = AttachRejectStormAnalyzer::new();
    analyzer.observe_reject(5, RejectCause::PLMNNotAllowed);
    analyzer.observe_reject(9, RejectCause::PLMNNotAllowed);
    let event = analyzer
        .observe_reject(17, RejectCause::RoamingNotAllowedInThisTrackingArea)
        .unwrap();
    assert_eq!(
        event.message,
        "SIM/carrier mismatch: 3 rejects within 12 packets, all cause 'Roaming not allowed in TA' \u{2014} check that your SIM matches the device's carrier lock"
    );

    let mut analyzer = AttachRejectStormAnalyzer::new();
    analyzer.observe_reject(100, RejectCause::PLMNNotAllowed);
    analyzer.observe_reject(150, RejectCause::Congestion);
    let event = analyzer.observe_reject(300, RejectCause::PLMNNotAllowed).unwrap();
    assert_eq!(event.event_type, EventType::Medium);
    assert_eq!(
        event.message,
        "Attach/TAU Reject storm: 3 rejects within 200 packets (cause: 'PLMN not allowed') \u{2014} possible forced-reattach attack"
    );
    assert!(event.analyzer.is_none());
    assert!(event.cell.is_none());
}

#[test]
fn storm_rearms_after_window_drains() {
    let mut analyzer = AttachRejectStormAnalyzer::new();
    assert!(run(&mut analyzer, 3, RejectCause::NetworkFailure).is_some());
    assert!(analyzer.alerted_for_current_storm);
    // Far later, the old rejects age out and the alert is re-armed.
    assert!(analyzer.observe_reject(1000, RejectCause::NetworkFailure).is_none());
    assert!(!analyzer.alerted_for_current_storm);
    assert_eq!(analyzer.reject_history.len(), 1);
    assert!(analyzer.observe_reject(1001, RejectCause::NetworkFailure).is_none());
    assert!(analyzer.observe_reject(1002, RejectCause::NetworkFailure).is_some());
}

#[test]
fn reject_at_window_edge_is_kept() {
    let mut analyzer = AttachRejectStormAnalyzer::new();
    analyzer.observe_reject(0, RejectCause::Congestion);
    analyzer.expire_old(WINDOW_SIZE);
    assert_eq!(analyzer.reject_history.len(), 1);
    analyzer.expire_old(WINDOW_SIZE + 1);
    assert_eq!(analyzer.reject_history.len(), 0);
}

#[test]
fn emm_causes_map_to_reject_causes() {
    assert!(matches!(RejectCause::from_emm_cause(EmmCause(11)), RejectCause::PLMNNotAllowed));
    assert!(matches!(RejectCause::from_emm_cause(EmmCause(7)), RejectCause::EPSServicesNotAllowed));
    assert!(matches!(RejectCause::from_emm_cause(EmmCause(22)), RejectCause::Congestion));
    assert_eq!(cause_name(&RejectCause::from_emm_cause(EmmCause(3))), "Illegal UE");
    assert_eq!(cause_name(&RejectCause::from_emm_cause(EmmCause(2))), "IMSI unknown in HSS");
    assert_eq!(cause_name(&RejectCause::from_emm_cause(EmmCause(99))), "Other");
    assert_eq!(cause_name(&RejectCause::from_emm_cause(EmmCause(15))), "No suitable cells in TA");
}

#[test]
fn storm_analyzer_counts_attach_and_tau_rejects_only() {
    let mut analyzer = AttachRejectStormAnalyzer::default();
    let attach = InformationElement::LTE(LteInformationElement::Nas(NasMessage::AttachReject(EmmCause(17))));
    let tau = InformationElement::LTE(LteInformationElement::Nas(
        NasMessage::TrackingAreaUpdateReject(EmmCause(17)),
    ));
    let other = InformationElement::LTE(LteInformationElement::Nas(NasMessage::AttachRequest));
    assert!(analyzer.analyze_information_element(&attach, 1).is_none());
    assert!(analyzer.analyze_information_element(&other, 2).is_none());
    assert!(analyzer.analyze_information_element(&InformationElement::GSM, 3).is_none());
    assert!(analyzer.analyze_information_element(&tau, 4).is_none());
    let event = analyzer.analyze_information_element(&attach, 5).unwrap();
    assert_eq!(event.event_type, EventType::Medium);
    assert!(event.message.contains("3 rejects within 4 packets (cause: 'Network failure')"));
    assert_eq!(analyzer.get_name(), "Attach Reject Storm");
    assert_eq!(analyzer.get_version(), 3);
}
