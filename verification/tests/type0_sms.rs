use rayhunter::analysis::analyzer::{Analyzer, EventType};
use rayhunter::analysis::information_element::{InformationElement, LteInformationElement, NasMessage};
use rayhunter::analysis::type0_sms::{extract_tp_pid_from_sms_deliver, is_type0_sms, Type0SmsAnalyzer};

fn container_with_pid(pid: u8) -> Vec<u8> {
    let mut container: Vec<u8> = Vec::new();
    container.push(0x09); // PD
    container.push(0x01); // CP-DATA
    let mut rp: Vec<u8> = Vec::new();
    rp.push(0x01); // RP-DATA (network to MS)
    rp.push(0x00); // message reference
    rp.push(0x00); // RP-OA length
    rp.push(0x00); // RP-DA length
    let mut tpdu: Vec<u8> = Vec::new();
    tpdu.push(0x04); // SMS-DELIVER
    tpdu.push(0x04); // 4 address digits
    tpdu.push(0x91); // type of address
    tpdu.push(0x21);
    tpdu.push(0x43);
    tpdu.push(pid);
    tpdu.push(0x00);
    rp.push(tpdu.len() as u8);
    rp.extend_from_slice(&tpdu);
    container.push(rp.len() as u8);
    container.extend_from_slice(&rp);
    container
}

#[test]
fn test_type0_detection() {
    let mut container: Vec<u8> = Vec::new();
    container.push(0x09);
    container.push(0x01);
    let mut rp: Vec<u8> = Vec::new();
    rp.push(0x01);
    rp.push(0x00);
    rp.push(0x00);
    rp.push(0x00);
    let mut tpdu: Vec<u8> = Vec::new();
    tpdu.push(0x04);
    tpdu.push(0x04);
    tpdu.push(0x91);
    tpdu.push(0x21);
    tpdu.push(0x43);
    tpdu.push(0x40);
    tpdu.push(0x00);
    rp.push(tpdu.len() as u8);
    rp.extend_from_slice(&tpdu);
    container.push(rp.len() as u8);
    container.extend_from_slice(&rp);
    assert!(is_type0_sms(&container));
}

#[test]
fn test_normal_sms_does_not_fire() {
    let mut container: Vec<u8> = Vec::new();
    container.push(0x09);
    container.push(0x01);
    let mut rp: Vec<u8> = Vec::new();
    rp.push(0x01);
    rp.push(0x00);
    rp.push(0x00);
    rp.push(0x00);
    let mut tpdu: Vec<u8> = Vec::new();
    tpdu.push(0x04);
    tpdu.push(0x04);
    tpdu.push(0x91);
    tpdu.push(0x21);
    tpdu.push(0x43);
    tpdu.push(0x00);
    tpdu.push(0x00);
    rp.push(tpdu.len() as u8);
    rp.extend_from_slice(&tpdu);
    container.push(rp.len() as u8);
    container.extend_from_slice(&rp);
    assert!(!is_type0_sms(&container));
}

#[test]
fn test_empty_container() {
    assert!(!is_type0_sms(&[]));
    assert!(!is_type0_sms(&[0x09]));
}

#[test]
fn header_checks_reject_other_layers() {
    // Transaction id in the upper nibble is ignored.
    let mut c = container_with_pid(0x40);
    c[0] = 0x39;
    assert!(is_type0_sms(&c));
    // Wrong protocol discriminator, CP message type, RP message type.
    let mut c = container_with_pid(0x40);
    c[0] = 0x08;
    assert!(!is_type0_sms(&c));
    let mut c = container_with_pid(0x40);
    c[1] = 0x04;
    assert!(!is_type0_sms(&c));
    let mut c = container_with_pid(0x40);
    c[3] = 0x02;
    assert!(!is_type0_sms(&c));
    // RP-User-Data longer than what is present.
    let mut c = container_with_pid(0x40);
    c[7] = 0x20;
    assert!(!is_type0_sms(&c));
    // Empty RP-User-Data.
    assert!(!is_type0_sms(&[0x09, 0x01, 0x05, 0x01, 0x00, 0x00, 0x00, 0x00]));
}

#[test]
fn tp_pid_follows_originating_address() {
    // 5 digits take 3 bytes, so TP-PID is at offset 6.
    assert_eq!(extract_tp_pid_from_sms_deliver(&[0x00, 0x05, 0x91, 1, 2, 3, 0x40]), Some(0x40));
    assert_eq!(extract_tp_pid_from_sms_deliver(&[0x00, 0x05, 0x91, 1, 2, 3]), None);
    // Not an SMS-DELIVER.
    assert_eq!(extract_tp_pid_from_sms_deliver(&[0x01, 0x00, 0x91, 0x40]), None);
    assert_eq!(extract_tp_pid_from_sms_deliver(&[]), None);
    assert_eq!(extract_tp_pid_from_sms_deliver(&[0x00, 0x00]), None);
    assert_eq!(extract_tp_pid_from_sms_deliver(&[0x00, 0x00, 0x91, 0x7f]), Some(0x7f));
}

#[test]
fn type0_analyzer_fires_on_dl_nas_transport() {
    let mut a = Type0SmsAnalyzer {};
    let ie = InformationElement::LTE(LteInformationElement::Nas(NasMessage::DlNasTransport(
        container_with_pid(0x40),
    )));
    let event = a.analyze_information_element(&ie, 1).expect("silent sms");
    assert_eq!(event.event_type, EventType::High);
    assert_eq!(event.message, "Silent SMS (Type-0) received \u{2014} may be used for location tracking");
    let normal = InformationElement::LTE(LteInformationElement::Nas(NasMessage::DlNasTransport(
        container_with_pid(0x00),
    )));
    assert!(a.analyze_information_element(&normal, 2).is_none());
    assert!(a.analyze_information_element(&InformationElement::GSM, 3).is_none());
}
