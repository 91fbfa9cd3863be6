use rayhunter::analysis::analyzer::{
    pcap_gsmtap_payload, pcap_gsmtap_type, AnalysisLineNormalizer, AnalysisRow, Analyzer,
    AnalyzerConfig, Event, EventType, ExternalAnalyzers, GsmtapOutcome, Harness,
    LegacyAnalysisEntry,
    PacketTimestamp, PcapGsmtap, PcapPacket, PhysicalContext, QmdlMessage, ReportLine,
    ReportMetadata, RuntimeMetadata,
};
use rayhunter::analysis::attach_reject_storm::AttachRejectStormAnalyzer;
use rayhunter::analysis::information_element::{
    BcchDlSchMessage, EmmCause, InformationElement, LteInformationElement, NasMessage, Paging,
    PagingUeIdentity, PcchMessage, PlmnIdentity, SystemInformationBlockType1,
};
use rayhunter::diag::diaglog::ml1::ServingCellMeasurement;
use rayhunter::REPORT_VERSION;

fn ts(secs: i64) -> PacketTimestamp {
    PacketTimestamp { unix_seconds: secs, subsec_nanos: 0, utc_offset_seconds: 0 }
}

fn bits(value: u32, width: usize) -> Vec<bool> {
    (0..width).rev().map(|i| (value >> i) & 1 == 1).collect()
}

fn sib1(mcc: Vec<u8>, mnc: Vec<u8>) -> InformationElement {
    InformationElement::LTE(LteInformationElement::BcchDlSch(
        BcchDlSchMessage::SystemInformationBlockType1(SystemInformationBlockType1 {
            plmn_identity_list: vec![PlmnIdentity { mcc: Some(mcc), mnc }],
            tracking_area_code: bits(0x1234, 16),
            cell_identity: bits(0x0ABCDEF, 28),
            freq_band_indicator: 2,
        }),
    ))
}

fn element(ie: InformationElement, secs: i64) -> Result<QmdlMessage, String> {
    Ok(QmdlMessage {
        physical: PhysicalContext::Other,
        gsmtap: GsmtapOutcome::Message { timestamp: ts(secs), element: Ok(ie) },
    })
}

fn reject() -> InformationElement {
    InformationElement::LTE(LteInformationElement::Nas(NasMessage::AttachReject(EmmCause(17))))
}

fn runtime() -> RuntimeMetadata {
    RuntimeMetadata {
        rayhunter_version: "0.0.0".to_string(),
        system_os: "linux".to_string(),
        arch: "x86_64".to_string(),
    }
}

fn event(t: EventType) -> Option<Event> {
    Some(Event::new(t, "e".to_string()))
}

/// An analyzer this library does not provide, standing in under its name.
struct Stub(&'static str);

impl Analyzer for Stub {
    fn get_name(&self) -> String {
        self.0.to_string()
    }

    fn get_description(&self) -> String {
        String::new()
    }

    fn analyze_information_element(
        &mut self,
        _ie: &InformationElement,
        _packet_num: usize,
    ) -> Option<Event> {
        None
    }

    fn get_version(&self) -> u32 {
        1
    }
}

fn externals() -> ExternalAnalyzers<Box<dyn Analyzer>> {
    ExternalAnalyzers {
        imsi_requested: Box::new(Stub("IMSI Requested")),
        connection_redirect_2g_downgrade: Box::new(Stub("Connection Release/Redirected to 2G")),
        lte_sib6_and_7_downgrade: Box::new(Stub("LTE SIB 6/7 Downgrade")),
        null_cipher: Box::new(Stub("Cipher Mode Null")),
        nas_null_cipher: Box::new(Stub("NAS Null Cipher")),
        incomplete_sib: Box::new(Stub("Incomplete SIB")),
        test_analyzer: Box::new(Stub("Test Analyzer")),
        diagnostic_analyzer: Box::new(Stub("Diagnostic")),
    }
}

struct AlwaysFires;

impl Analyzer for AlwaysFires {
    fn get_name(&self) -> String {
        "Always Fires".to_string()
    }

    fn get_description(&self) -> String {
        "test analyzer that fires on every element".to_string()
    }

    fn analyze_information_element(
        &mut self,
        _ie: &InformationElement,
        _packet_num: usize,
    ) -> Option<Event> {
        Some(Event::new(EventType::Low, "fired".to_string()))
    }

    fn get_version(&self) -> u32 {
        7
    }
}

#[test]
fn test_harness_stamps_analyzer_identity() {
    let mut harness = Harness::new();
    harness.add_analyzer(Box::new(AlwaysFires));
    // A GSM element carries no cell identity, so `cell` stays unset while
    // the analyzer identity is still stamped.
    let events = harness.analyze_information_element(&InformationElement::GSM);
    let event = events[0].as_ref().unwrap();
    let analyzer = event.analyzer.as_ref().expect("analyzer stamped");
    assert_eq!(analyzer.name, "Always Fires");
    assert_eq!(analyzer.version, 7);
    assert!(event.cell.is_none());
    // The central packet-number suffix is still appended.
    assert!(event.message.contains("packet"));
    assert_eq!(event.message, "fired (packet 0)");
    assert_eq!(event.event_type, EventType::Low);
}

#[test]
fn harness_stamps_provided_analyzer_identity() {
    let mut harness = Harness::new();
    harness.add_analyzer(Box::new(AttachRejectStormAnalyzer::new()));
    // Each element moves the analyzer one step: two rejects are not a storm.
    assert!(harness.analyze_qmdl_message(element(reject(), 1)).events[0].is_none());
    assert!(harness.analyze_qmdl_message(element(reject(), 2)).events[0].is_none());
    let row = harness.analyze_qmdl_message(element(reject(), 3));
    let event = row.events[0].as_ref().unwrap();
    let analyzer = event.analyzer.as_ref().expect("analyzer stamped");
    assert_eq!(analyzer.name, "Attach Reject Storm");
    assert_eq!(analyzer.version, 3);
    assert!(event.cell.is_none());
    assert!(event.message.ends_with(" (packet 3)"));
    assert_eq!(row.packet_timestamp, Some(ts(3)));
}

#[test]
fn harness_stamps_serving_cell_unless_the_analyzer_set_one() {
    let mut harness = Harness::new();
    harness.add_analyzer(Box::new(AlwaysFires));
    let events = harness.analyze_information_element(&sib1(vec![3, 1, 0], vec![2, 6, 0]));
    let cell = events[0].as_ref().unwrap().cell.as_ref().expect("serving cell stamped");
    assert_eq!(cell.tac, Some(0x1234));
    assert_eq!(cell.plmn.as_ref().unwrap().mnc, "260");
}

#[test]
fn test_harness_records_physical_cell_context() {
    let mut harness = Harness::new();
    let _ = harness.analyze_qmdl_message(Ok(QmdlMessage {
        physical: PhysicalContext::RrcOta { pci: 160, earfcn: 2050 },
        gsmtap: GsmtapOutcome::Failed("payload does not decode".to_string()),
    }));
    let cell = harness.current_serving_cell().expect("serving cell recorded from RRC OTA header");
    assert_eq!(cell.pci, Some(160));
    assert_eq!(cell.earfcn, Some(2050));
}

#[test]
fn harness_records_ml1_signal_on_serving_carrier() {
    let mut harness = Harness::new();
    harness.analyze_qmdl_message(Ok(QmdlMessage {
        physical: PhysicalContext::RrcOta { pci: 7, earfcn: 5780 },
        gsmtap: GsmtapOutcome::NoMessage,
    }));
    let body = vec![
        0x01, 0x01, 0xea, 0xe0, 0x19, 0x12, 0x60, 0x00, 0x94, 0x16, 0x00, 0x00, 0x40, 0x10, 0x00,
        0x00, 0xf9, 0x0c, 0x00, 0x00, 0xcc, 0xa5, 0x00, 0x00, 0xe6, 0x52, 0xc8, 0x07, 0xf9, 0xbc,
        0x18, 0x00, 0x2f, 0xf6, 0x5c, 0x00, 0xcf, 0xf5, 0x62, 0x00, 0x2f, 0x06, 0x16, 0x58,
    ];
    let row = harness.analyze_qmdl_message(Ok(QmdlMessage {
        physical: PhysicalContext::Ml1ServingCellMeas(body),
        gsmtap: GsmtapOutcome::NoMessage,
    }));
    assert!(row.is_empty());
    assert!(row.packet_timestamp.is_none());
    let cell = harness.current_serving_cell().unwrap();
    assert_eq!(cell.rsrp, Some(1583 - 2880));
    // Only the serving-cell subpacket (id 25) of layout version 18 decodes:
    // a version-4 body, whose byte 4 is not the subpacket id, leaves the
    // signal as it was.
    let mut v4 = vec![0u8; 32];
    v4[0] = 4;
    v4[4..6].copy_from_slice(&2050u16.to_le_bytes());
    v4[8..12].copy_from_slice(&1440u32.to_le_bytes());
    harness.analyze_qmdl_message(Ok(QmdlMessage {
        physical: PhysicalContext::Ml1ServingCellMeas(v4),
        gsmtap: GsmtapOutcome::NoMessage,
    }));
    assert_eq!(harness.current_serving_cell().unwrap().rsrp, Some(1583 - 2880));
}

#[test]
fn test_harness_records_signal_measurements() {
    // A version-4 body: its byte 4, the subpacket id, is not that of the
    // serving-cell measurement (25), so no measurement decodes, and with no
    // RRC header seen before it no serving cell is recorded.
    let mut body = vec![0u8; 32];
    body[0] = 4;
    body[4..6].copy_from_slice(&2050u16.to_le_bytes());
    body[6..8].copy_from_slice(&(160u16 << 7).to_le_bytes());
    body[8..12].copy_from_slice(&1440u32.to_le_bytes());
    body[16..20].copy_from_slice(&(320u32 << 22).to_le_bytes());
    body[20..24].copy_from_slice(&(640u32 << 11).to_le_bytes());
    assert!(ServingCellMeasurement::parse(&body).is_none());
    let mut harness = Harness::new();
    let _ = harness.analyze_qmdl_message(Ok(QmdlMessage {
        physical: PhysicalContext::Ml1ServingCellMeas(body),
        gsmtap: GsmtapOutcome::NoMessage,
    }));
    assert!(harness.current_serving_cell().is_none());
}

#[test]
fn harness_rows_for_failures() {
    let mut harness = Harness::new_with_config(&AnalyzerConfig::default(), externals());
    let row = harness.analyze_qmdl_message(Err("bad frame".to_string()));
    assert_eq!(row.skipped_message_reason.as_deref(), Some("bad frame"));
    let row = harness.analyze_qmdl_message(Ok(QmdlMessage {
        physical: PhysicalContext::Other,
        gsmtap: GsmtapOutcome::Message { timestamp: ts(9), element: Err("no IE".to_string()) },
    }));
    assert_eq!(row.skipped_message_reason.as_deref(), Some("no IE"));
    assert_eq!(row.packet_timestamp, Some(ts(9)));
    assert!(!row.is_empty());
    let row = harness.analyze_pcap_packet(PcapPacket {
        timestamp: ts(10),
        gsmtap: PcapGsmtap::ElementError("Unsupported".to_string()),
    });
    assert_eq!(
        row.skipped_message_reason.as_deref(),
        Some("in packet 3, failed to convert gsmtap message to IE: Unsupported")
    );
    let row = harness.analyze_pcap_packet(PcapPacket {
        timestamp: ts(11),
        gsmtap: PcapGsmtap::HeaderError("bad type".to_string()),
    });
    assert_eq!(row.skipped_message_reason.as_deref(), Some("failed to read GsmtapHeader: bad type"));
    assert_eq!(row.packet_timestamp, Some(ts(11)));
    let row = harness.analyze_pcap_packet(PcapPacket {
        timestamp: ts(12),
        gsmtap: PcapGsmtap::Element(InformationElement::GSM),
    });
    assert_eq!(row.events.len(), 11);
    assert!(row.events.iter().all(|e| e.is_none()));
}

#[test]
fn default_config_runs_one_analyzer_per_flag_in_order() {
    let harness = Harness::new_with_config(&AnalyzerConfig::default(), externals());
    let metadata = harness.get_metadata(runtime());
    let names: Vec<&str> = metadata.analyzers.iter().map(|a| a.name.as_str()).collect();
    assert_eq!(
        names,
        vec![
            "IMSI Requested",
            "Connection Release/Redirected to 2G",
            "LTE SIB 6/7 Downgrade",
            "Cipher Mode Null",
            "NAS Null Cipher",
            "Incomplete SIB",
            "Missing Authentication Before Security Mode",
            "Silent SMS (Type-0) Detected",
            "Attach Reject Storm",
            "IMSI Paging (Presence Test)",
            "Diagnostic",
        ]
    );
    assert_eq!(metadata.report_version, REPORT_VERSION);
    assert_eq!(metadata.analyzers[8].version, 3);
    let mut config = AnalyzerConfig::default();
    config.type0_sms = false;
    config.imsi_paging = false;
    config.null_cipher = false;
    config.test_analyzer = true;
    let names: Vec<String> = Harness::new_with_config(&config, externals())
        .get_metadata(runtime())
        .analyzers
        .into_iter()
        .map(|a| a.name)
        .collect();
    assert_eq!(names.len(), 9);
    assert_eq!(names[3], "NAS Null Cipher");
    assert_eq!(names[4], "Incomplete SIB");
    assert_eq!(names[5], "Test Analyzer");
    assert_eq!(names[6], "Missing Authentication Before Security Mode");
    assert_eq!(names[7], "Attach Reject Storm");
    assert_eq!(names[8], "Diagnostic");
}

#[test]
fn events_are_stamped_with_serving_cell() {
    let mut harness = Harness::new_with_config(&AnalyzerConfig::default(), externals());
    harness.analyze_qmdl_message(element(sib1(vec![3, 1, 0], vec![2, 6, 0]), 1));
    let paging = InformationElement::LTE(LteInformationElement::Pcch(PcchMessage::Paging(Paging {
        paging_record_list: Some(vec![PagingUeIdentity::STmsi, PagingUeIdentity::Imsi(vec![0, 0, 1, 0, 1])]),
    })));
    let row = harness.analyze_qmdl_message(element(paging, 2));
    assert!(row.contains_warnings());
    assert_eq!(row.get_max_event_type(), EventType::High);
    let event = row.events[9].as_ref().unwrap();
    assert_eq!(
        event.message,
        "Device paged by raw IMSI (00101) \u{2014} possible presence testing by cell-site simulator (packet 2)"
    );
    let cell = event.cell.as_ref().expect("cell stamped");
    assert_eq!(cell.tac, Some(0x1234));
    assert_eq!(cell.plmn.as_ref().unwrap().mnc, "260");
    assert_eq!(event.analyzer.as_ref().unwrap().name, "IMSI Paging (Presence Test)");
    assert!(row.events[0].is_none());
}

#[test]
fn observed_carrier_lists_distinct_operators() {
    let mut harness = Harness::new();
    assert_eq!(harness.observed_carrier(), None);
    let msgs = vec![
        element(sib1(vec![3, 1, 1], vec![4, 8, 0]), 1),
        element(sib1(vec![3, 1, 0], vec![2, 6, 0]), 2),
        element(sib1(vec![3, 1, 1], vec![4, 8, 1]), 3),
        element(sib1(vec![0, 0, 1], vec![0, 1]), 4),
    ];
    let rows = harness.analyze_qmdl_messages(msgs);
    assert_eq!(rows.len(), 4);
    assert_eq!(
        harness.observed_carrier().as_deref(),
        Some("001-01, T-Mobile US (United States), Verizon Wireless (United States)")
    );
}

#[test]
fn max_event_type_and_emptiness() {
    let mut row = AnalysisRow::new();
    assert!(row.is_empty());
    assert_eq!(row.get_max_event_type(), EventType::Informational);
    row.events = vec![event(EventType::Informational), None];
    assert!(row.is_empty());
    assert!(!row.contains_warnings());
    row.events = vec![event(EventType::Low), None, event(EventType::Medium), event(EventType::Low)];
    assert_eq!(row.get_max_event_type(), EventType::Medium);
    assert!(!row.is_empty());
    let mut skipped = AnalysisRow::default();
    skipped.skipped_message_reason = Some("x".to_string());
    assert!(!skipped.is_empty());
}

#[test]
fn event_type_names() {
    assert_eq!(EventType::from_name("High"), Some(EventType::High));
    assert_eq!(EventType::from_name("Informational"), Some(EventType::Informational));
    assert_eq!(EventType::from_name("Critical"), None);
    assert_eq!(EventType::from_warning_severity("Medium"), Some(EventType::Medium));
    assert_eq!(EventType::from_warning_severity("Informational"), None);
    assert_eq!(EventType::default(), EventType::Informational);
    assert!(EventType::Low < EventType::High);
}

#[test]
fn legacy_rows() {
    let row = AnalysisRow::from_legacy(
        ts(1),
        vec!["skipped".to_string()],
        vec![LegacyAnalysisEntry { timestamp: ts(2), events: vec![event(EventType::High), None] }],
    )
    .unwrap();
    assert_eq!(row.packet_timestamp, Some(ts(2)));
    assert!(row.skipped_message_reason.is_none());
    assert_eq!(row.events.len(), 2);
    let row = AnalysisRow::from_legacy(ts(1), vec!["a".to_string(), "b".to_string()], vec![]).unwrap();
    assert_eq!(row.packet_timestamp, Some(ts(1)));
    assert_eq!(row.skipped_message_reason.as_deref(), Some("a"));
    assert!(row.events.is_empty());
    assert!(AnalysisRow::from_legacy(ts(1), vec![], vec![]).is_none());
}

#[test]
fn line_normalizer_reports_metadata_then_rows() {
    let mut n = AnalysisLineNormalizer::new();
    assert_eq!(n.begin_line(), ReportLine::Metadata);
    assert_eq!(n.begin_line(), ReportLine::Row);
    assert_eq!(n.begin_line(), ReportLine::Row);
    assert_eq!(
        AnalysisLineNormalizer::finish_line("{}".to_string(), Some("{\"a\":1}".to_string())),
        "{\"a\":1}\n"
    );
    assert_eq!(AnalysisLineNormalizer::finish_line("garbage".to_string(), None), "garbage\n");
    let mut m = ReportMetadata { analyzers: vec![], rayhunter: runtime(), report_version: 0 };
    m.normalize();
    assert_eq!(m.report_version, REPORT_VERSION);
}

#[test]
fn gps_epoch_timestamps() {
    let t = PacketTimestamp::after_gps_epoch(0, 0);
    assert_eq!(t.unix_seconds, 315964800);
    let t = PacketTimestamp::after_gps_epoch(100, 5);
    assert_eq!(t.unix_seconds, 315964900);
    assert_eq!(t.subsec_nanos, 5);
}

#[test]
fn harness_default_runs_nothing_and_has_seen_no_cell() {
    let harness = Harness::default();
    assert!(harness.current_serving_cell().is_none());
    assert_eq!(harness.observed_carrier(), None);
    let metadata = harness.get_metadata(RuntimeMetadata {
        rayhunter_version: "0.1.0".to_string(),
        system_os: "linux".to_string(),
        arch: "arm".to_string(),
    });
    assert!(metadata.analyzers.is_empty());
    assert_eq!(metadata.report_version, REPORT_VERSION);
}

#[test]
fn gsmtap_fields_sit_after_ip_and_udp_headers() {
    let mut data: Vec<u8> = (0..50).collect();
    data[30] = 0x0d;
    data[40] = 0x04;
    assert_eq!(pcap_gsmtap_type(&data), (0x0d, 0x04));
    assert_eq!(pcap_gsmtap_payload(&data), vec![44, 45, 46, 47, 48, 49]);
    assert!(pcap_gsmtap_payload(&data[..44]).is_empty());
}
