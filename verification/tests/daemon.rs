use rayhunter::analysis::analyzer::{
    Analyzer, AnalyzerConfig, Event, EventType, ExternalAnalyzers, RuntimeMetadata,
};
use rayhunter::analysis::information_element::InformationElement;
use rayhunter::analysis::cell_info::ServingCellInfo;
use rayhunter::daemon::health::{health_status, inject_result, injected_test_event};
use rayhunter::REPORT_VERSION;

struct Quiet;

impl Analyzer for Quiet {
    fn get_name(&self) -> String {
        "Quiet".to_string()
    }

    fn get_description(&self) -> String {
        String::new()
    }

    fn analyze_information_element(
        &mut self,
        _ie: &InformationElement,
        _packet_num: usize,
    ) -> Option<Event> {
        None
    }

    fn get_version(&self) -> u32 {
        1
    }
}

fn externals() -> ExternalAnalyzers<Box<dyn Analyzer>> {
    ExternalAnalyzers {
        imsi_requested: Box::new(Quiet),
        connection_redirect_2g_downgrade: Box::new(Quiet),
        lte_sib6_and_7_downgrade: Box::new(Quiet),
        null_cipher: Box::new(Quiet),
        nas_null_cipher: Box::new(Quiet),
        incomplete_sib: Box::new(Quiet),
        test_analyzer: Box::new(Quiet),
        diagnostic_analyzer: Box::new(Quiet),
    }
}

fn runtime() -> RuntimeMetadata {
    RuntimeMetadata {
        rayhunter_version: "0.0.0".to_string(),
        system_os: "linux".to_string(),
        arch: "x86_64".to_string(),
    }
}

#[test]
fn health_reflects_recording_and_config() {
    let status = health_status(42, false, Some("1700000000".to_string()), &AnalyzerConfig::default(), externals(), runtime(), None);
    assert!(status.recording_active);
    assert_eq!(status.current_recording.as_deref(), Some("1700000000"));
    assert_eq!(status.uptime_seconds, 42);
    assert_eq!(status.analyzers.len(), 11);
    assert_eq!(status.analyzers[8].name, "Attach Reject Storm");
    assert_eq!(status.report_version, REPORT_VERSION);
    let idle = health_status(1, true, None, &AnalyzerConfig::default(), externals(), runtime(), None);
    assert!(!idle.recording_active);
    assert!(idle.debug_mode);
}

#[test]
fn injected_event_shape() {
    let cell = ServingCellInfo { pci: Some(3), ..Default::default() };
    let live = injected_test_event(Some(cell));
    assert_eq!(live.event.event_type, EventType::High);
    assert_eq!(live.event.message, "Injected test event");
    let analyzer = live.event.analyzer.as_ref().unwrap();
    assert_eq!(analyzer.name, "Test Injection");
    assert_eq!(analyzer.version, 1);
    assert_eq!(live.event.cell.as_ref().unwrap().pci, Some(3));
    assert!(live.timestamp.is_none());
    assert_eq!(inject_result(Some(2)).delivered_to, 2);
    assert_eq!(inject_result(None).delivered_to, 0);
}
