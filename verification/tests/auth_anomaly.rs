use rayhunter::analysis::analyzer::{Analyzer, EventType};
use rayhunter::analysis::auth_anomaly::{AuthAnomalyAnalyzer, NasEvent};
use rayhunter::analysis::information_element::{
    DlDcchMessage, InformationElement, LteInformationElement, NasMessage,
};

#[test]
fn test_smc_after_attach_without_auth_fires() {
    let mut a = AuthAnomalyAnalyzer::new();
    assert!(a.observe(NasEvent::ConnectionStart).is_none());
    let event = a.observe(NasEvent::SecurityMode).expect("should fire");
    assert_eq!(event.event_type, EventType::Medium);
}

#[test]
fn test_smc_after_auth_does_not_fire() {
    let mut a = AuthAnomalyAnalyzer::new();
    a.observe(NasEvent::ConnectionStart);
    a.observe(NasEvent::AuthRequest);
    assert!(a.observe(NasEvent::SecurityMode).is_none());
}

#[test]
fn test_smc_without_observed_connection_start_does_not_fire() {
    let mut a = AuthAnomalyAnalyzer::new();
    assert!(a.observe(NasEvent::SecurityMode).is_none());
}

#[test]
fn test_connection_end_requires_fresh_start_before_alerting() {
    let mut a = AuthAnomalyAnalyzer::new();
    a.observe(NasEvent::ConnectionStart);
    a.observe(NasEvent::ConnectionEnd);
    assert!(a.observe(NasEvent::SecurityMode).is_none());
}

#[test]
fn test_second_connection_alerts_independently() {
    let mut a = AuthAnomalyAnalyzer::new();
    a.observe(NasEvent::ConnectionStart);
    a.observe(NasEvent::AuthRequest);
    assert!(a.observe(NasEvent::SecurityMode).is_none());
    a.observe(NasEvent::ConnectionEnd);
    a.observe(NasEvent::ConnectionStart);
    assert!(a.observe(NasEvent::SecurityMode).is_some());
}

fn nas(m: NasMessage) -> InformationElement {
    InformationElement::LTE(LteInformationElement::Nas(m))
}

#[test]
fn auth_anomaly_classifies_information_elements() {
    let mut a = AuthAnomalyAnalyzer::default();
    assert!(a.analyze_information_element(&nas(NasMessage::TrackingAreaUpdateRequest), 1).is_none());
    let event = a
        .analyze_information_element(&nas(NasMessage::SecurityModeCommand), 2)
        .expect("unauthenticated security mode");
    assert_eq!(
        event.message,
        "Security Mode Command issued without prior authentication \u{2014} tower never proved its identity"
    );
    // An RRC connection release ends the session.
    let release = InformationElement::LTE(LteInformationElement::DlDcch(DlDcchMessage::RrcConnectionRelease));
    assert!(a.analyze_information_element(&release, 3).is_none());
    assert!(a.analyze_information_element(&nas(NasMessage::SecurityModeCommand), 4).is_none());
    // A service request starts a connection; authentication before the
    // security mode command keeps it quiet.
    a.analyze_information_element(&nas(NasMessage::ExtServiceRequest), 5);
    a.analyze_information_element(&nas(NasMessage::AuthenticationRequest), 6);
    assert!(a.analyze_information_element(&nas(NasMessage::SecurityModeCommand), 7).is_none());
    // Messages the analyzer does not read change nothing.
    a.analyze_information_element(&nas(NasMessage::AttachRequest), 8);
    a.analyze_information_element(&InformationElement::UMTS, 9);
    a.analyze_information_element(&nas(NasMessage::Other), 10);
    assert!(a.analyze_information_element(&nas(NasMessage::SecurityModeCommand), 11).is_some());
    assert_eq!(a.get_name(), "Missing Authentication Before Security Mode");
    assert_eq!(a.get_version(), 1);
}
