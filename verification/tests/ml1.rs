use rayhunter::diag::diaglog::ml1::{u32_le, ServingCellMeasurement};

fn orbic_v18_body() -> Vec<u8> {
    vec![
        0x01, 0x01, 0xea, 0xe0, 0x19, 0x12, 0x60, 0x00, // outer header
        0x94, 0x16, 0x00, 0x00, // sp+0: earfcn = 0x1694 = 5780
        0x40, 0x10, 0x00, 0x00, 0xf9, 0x0c, 0x00, 0x00, 0xcc, 0xa5, 0x00, 0x00, 0xe6, 0x52,
        0xc8, 0x07, 0xf9, 0xbc, 0x18, 0x00, 0x2f, 0xf6, 0x5c, 0x00, 0xcf, 0xf5, 0x62, 0x00,
        0x2f, 0x06, 0x16, 0x58, // sp+32: 0x5816062f, low12 = 1583 = RSRP raw
    ]
}

/// An RSRP in sixteenths of a dBm, in dBm.
fn dbm(sixteenths: i32) -> f32 {
    sixteenths as f32 / 16.0
}

#[test]
fn parses_orbic_v18() {
    let m = ServingCellMeasurement::parse(&orbic_v18_body()).expect("v18 parses");
    assert_eq!(m.earfcn, 5780);
    assert!((dbm(m.rsrp.expect("rsrp")) - (-81.0625)).abs() < 0.01);
    assert_eq!(m.rsrq, None);
}

#[test]
fn v18_zeroed_rsrp_field_is_none() {
    let mut b = orbic_v18_body();
    b[40..44].copy_from_slice(&0u32.to_le_bytes());
    let m = ServingCellMeasurement::parse(&b).expect("still parses");
    assert_eq!(m.earfcn, 5780);
    assert_eq!(m.rsrp, None);
}

#[test]
fn unsupported_subpacket_version_is_none() {
    let mut b = orbic_v18_body();
    b[5] = 59;
    assert!(ServingCellMeasurement::parse(&b).is_none());
}

#[test]
fn wrong_subpacket_id_is_none() {
    let mut b = orbic_v18_body();
    b[4] = 30;
    assert!(ServingCellMeasurement::parse(&b).is_none());
}

#[test]
fn truncated_is_none() {
    assert!(ServingCellMeasurement::parse(&[0x01, 0x01, 0x00]).is_none());
    assert!(ServingCellMeasurement::parse(&[]).is_none());
}

#[test]
fn rsrp_range_edges() {
    // raw 640 is -140 dBm, raw 2400 is -30 dBm: both kept; one beyond is not.
    for (raw, expect) in [(640u32, Some(-2240)), (639, None), (2400, Some(-480)), (2401, None)] {
        let mut b = orbic_v18_body();
        b[40..44].copy_from_slice(&raw.to_le_bytes());
        assert_eq!(ServingCellMeasurement::parse(&b).unwrap().rsrp, expect);
    }
    // Only the low 18 bits of the EARFCN word count.
    let mut b = orbic_v18_body();
    b[8..12].copy_from_slice(&0xFFFC_1694u32.to_le_bytes());
    assert_eq!(ServingCellMeasurement::parse(&b).unwrap().earfcn, 0x1694);
    // One byte short of the RSRP field.
    let b = orbic_v18_body();
    assert!(ServingCellMeasurement::parse(&b[..43]).is_none());
}

#[test]
fn little_endian_words() {
    assert_eq!(u32_le(&[1, 2, 3, 4, 5], 1), Some(0x05040302));
    assert_eq!(u32_le(&[1, 2, 3, 4], 1), None);
}
