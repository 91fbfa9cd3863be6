use rayhunter::analysis::cell_info::{
    digits_to_string, load_be_u32, Plmn, ServingCellInfo, ServingCellTracker,
};
use rayhunter::analysis::information_element::{
    BcchDlSchMessage, InformationElement, LteInformationElement, PlmnIdentity,
    SystemInformationBlockType1,
};

/// A signal level in dB(m) as the tracker holds it, in sixteenths.
fn sixteenths(db: f32) -> i32 {
    (db * 16.0).round() as i32
}

fn bits(value: u32, width: usize) -> Vec<bool> {
    (0..width).rev().map(|i| (value >> i) & 1 == 1).collect()
}

fn sib1(mcc: Option<Vec<u8>>, mnc: Vec<u8>, tac: u32, cell_id: u32, band: u8) -> InformationElement {
    InformationElement::LTE(LteInformationElement::BcchDlSch(
        BcchDlSchMessage::SystemInformationBlockType1(SystemInformationBlockType1 {
            plmn_identity_list: vec![PlmnIdentity { mcc, mnc }],
            tracking_area_code: bits(tac, 16),
            cell_identity: bits(cell_id, 28),
            freq_band_indicator: band,
        }),
    ))
}

#[test]
fn test_digits_to_string() {
    assert_eq!(digits_to_string(&vec![3, 1, 0]), "310");
    assert_eq!(digits_to_string(&vec![0, 1]), "01");
}

#[test]
fn test_serving_cell_info_is_empty() {
    assert!(ServingCellInfo::default().is_empty());
    assert!(!ServingCellInfo { tac: Some(7), ..Default::default() }.is_empty());
}

#[test]
fn test_observe_physical_records_pci_earfcn() {
    let mut tracker = ServingCellTracker::new();
    assert!(tracker.current().is_none());
    tracker.observe_physical(160, 2050);
    let cell = tracker.current().expect("cell created by physical observation");
    assert_eq!(cell.pci, Some(160));
    assert_eq!(cell.earfcn, Some(2050));
    assert!(cell.plmn.is_none());
}

#[test]
fn test_observe_signal_matches_serving_earfcn() {
    let mut tracker = ServingCellTracker::new();
    tracker.observe_signal(2050, Some(sixteenths(-95.0)), None);
    assert!(tracker.current().is_none());
    tracker.observe_physical(160, 2050);
    tracker.observe_signal(5780, Some(sixteenths(-70.0)), None);
    assert_eq!(tracker.current().unwrap().rsrp, None);
    tracker.observe_signal(2050, Some(sixteenths(-102.9)), None);
    assert_eq!(tracker.current().unwrap().rsrp, Some(sixteenths(-102.9)));
}

#[test]
fn test_carrier_change_clears_stale_signal() {
    let mut tracker = ServingCellTracker::new();
    tracker.observe_physical(160, 2050);
    tracker.observe_signal(2050, Some(sixteenths(-95.0)), None);
    assert_eq!(tracker.current().unwrap().rsrp, Some(sixteenths(-95.0)));
    tracker.observe_physical(200, 5780);
    let cell = tracker.current().unwrap();
    assert_eq!(cell.earfcn, Some(5780));
    assert_eq!(cell.rsrp, None);
}

#[test]
fn same_carrier_keeps_signal_and_rsrq_merges() {
    let mut tracker = ServingCellTracker::new();
    tracker.observe_physical(160, 2050);
    tracker.observe_signal(2050, Some(-1520), None);
    tracker.observe_signal(2050, None, Some(-160));
    tracker.observe_physical(161, 2050);
    let cell = tracker.current().unwrap();
    assert_eq!(cell.rsrp, Some(-1520));
    assert_eq!(cell.rsrq, Some(-160));
    assert_eq!(cell.pci, Some(161));
}

#[test]
fn sib1_identity_is_decoded_and_merged() {
    let mut tracker = ServingCellTracker::new();
    tracker.observe_physical(160, 2050);
    tracker.observe(&sib1(Some(vec![3, 1, 0]), vec![2, 6, 0], 0x1234, 0x0ABCDEF, 2));
    let cell = tracker.current().unwrap();
    let plmn = cell.plmn.clone().unwrap();
    assert_eq!(plmn.mcc, "310");
    assert_eq!(plmn.mnc, "260");
    assert_eq!(cell.tac, Some(0x1234));
    assert_eq!(cell.cell_id, Some(0x0ABCDEF));
    assert_eq!(cell.band, Some(2));
    // The physical-layer fields survive the SIB1.
    assert_eq!(cell.pci, Some(160));
    assert_eq!(cell.earfcn, Some(2050));
    // Elements without a SIB1 change nothing.
    tracker.observe(&InformationElement::GSM);
    assert_eq!(tracker.current().unwrap().tac, Some(0x1234));
}

#[test]
fn observed_plmns_are_distinct_and_ordered() {
    let mut tracker = ServingCellTracker::new();
    tracker.observe(&sib1(Some(vec![3, 1, 1]), vec![4, 8, 0], 1, 1, 13));
    tracker.observe(&sib1(Some(vec![3, 1, 0]), vec![4, 1, 0], 2, 2, 2));
    tracker.observe(&sib1(Some(vec![3, 1, 1]), vec![4, 8, 0], 3, 3, 13));
    tracker.observe(&sib1(Some(vec![3, 1, 0]), vec![2, 6, 0], 4, 4, 2));
    let seen: Vec<String> = tracker
        .observed_plmns()
        .iter()
        .map(|p| format!("{}-{}", p.mcc, p.mnc))
        .collect();
    assert_eq!(seen, vec!["310-260", "310-410", "311-480"]);
}

#[test]
fn sib1_without_mcc_reads_empty_mcc() {
    let info = ServingCellInfo::from_information_element(&sib1(None, vec![0, 1], 7, 9, 66)).unwrap();
    let plmn = info.plmn.unwrap();
    assert_eq!(plmn.mcc, "");
    assert_eq!(plmn.mnc, "01");
    assert!(info.rsrp.is_none());
    assert!(ServingCellInfo::from_information_element(&InformationElement::FiveG).is_none());
}

#[test]
fn bit_strings_load_big_endian() {
    assert_eq!(load_be_u32(&vec![true]), 1);
    assert_eq!(load_be_u32(&vec![true, false, false]), 4);
    assert_eq!(load_be_u32(&bits(0xABCDEF01, 32)), 0xABCDEF01);
    assert_eq!(load_be_u32(&bits(0x0ABCDEF, 28)), 0x0ABCDEF);
}

#[test]
fn plmn_display_names() {
    let tmo = Plmn { mcc: "310".to_string(), mnc: "260".to_string() };
    assert_eq!(tmo.display_name(), "T-Mobile US (United States)");
    assert_eq!(tmo.carrier().operator, Some("T-Mobile US"));
    let unknown_mnc = Plmn { mcc: "262".to_string(), mnc: "99".to_string() };
    assert_eq!(unknown_mnc.display_name(), "Unknown operator (Germany)");
    let unknown = Plmn { mcc: "001".to_string(), mnc: "01".to_string() };
    assert_eq!(unknown.display_name(), "001-01");
}
