use rayhunter::daemon::pcap::{
    choose_pcap_entry, find_nearest_gps, follow_step, pcap_request, record_timestamp, FollowStep,
    GpsRecord,
};

fn rec(latest_packet_timestamp: i64, lat: f64, lon: f64) -> GpsRecord {
    GpsRecord {
        latest_packet_timestamp: Some(latest_packet_timestamp),
        system_time: 0,
        lat_bits: lat.to_bits(),
        lon_bits: lon.to_bits(),
    }
}

#[test]
fn test_empty_returns_none() {
    assert!(find_nearest_gps(&[], 100).is_none());
}

#[test]
fn test_single_record_always_returned() {
    let records = vec![rec(100, 1.0, 2.0)];
    assert_eq!(find_nearest_gps(&records, 0).unwrap().unix_ts, 100);
    assert_eq!(find_nearest_gps(&records, 200).unwrap().unix_ts, 100);
}

#[test]
fn test_before_all_records_returns_first() {
    let records = vec![rec(100, 1.0, 2.0), rec(200, 3.0, 4.0)];
    assert_eq!(find_nearest_gps(&records, 50).unwrap().unix_ts, 100);
}

#[test]
fn test_after_all_records_returns_last() {
    let records = vec![rec(100, 1.0, 2.0), rec(200, 3.0, 4.0)];
    assert_eq!(find_nearest_gps(&records, 300).unwrap().unix_ts, 200);
}

#[test]
fn test_exact_match() {
    let records = vec![rec(100, 1.0, 2.0), rec(200, 3.0, 4.0), rec(300, 5.0, 6.0)];
    assert_eq!(find_nearest_gps(&records, 200).unwrap().unix_ts, 200);
}

#[test]
fn test_closer_to_before() {
    let records = vec![rec(100, 1.0, 2.0), rec(200, 3.0, 4.0)];
    assert_eq!(find_nearest_gps(&records, 130).unwrap().unix_ts, 100);
}

#[test]
fn test_closer_to_after() {
    let records = vec![rec(100, 1.0, 2.0), rec(200, 3.0, 4.0)];
    assert_eq!(find_nearest_gps(&records, 170).unwrap().unix_ts, 200);
}

#[test]
fn test_equidistant_prefers_before() {
    let records = vec![rec(100, 1.0, 2.0), rec(200, 3.0, 4.0)];
    assert_eq!(find_nearest_gps(&records, 150).unwrap().unix_ts, 100);
}

#[test]
fn nearest_fix_carries_its_position() {
    let records = vec![rec(10, 1.5, -2.5), rec(20, 3.25, 4.75), rec(40, 5.0, 6.0)];
    let p = find_nearest_gps(&records, 33).unwrap();
    assert_eq!(p.unix_ts, 40);
    assert_eq!(f64::from_bits(p.latitude_bits), 5.0);
    assert_eq!(f64::from_bits(p.longitude_bits), 6.0);
    let p = find_nearest_gps(&records, 21).unwrap();
    assert_eq!(f64::from_bits(p.latitude_bits), 3.25);
}

#[test]
fn fixes_without_timestamp_sort_first() {
    let none = GpsRecord { latest_packet_timestamp: None, system_time: 5, lat_bits: 0, lon_bits: 0 };
    assert_eq!(record_timestamp(&none), i64::MIN);
    let records = vec![none, rec(100, 1.0, 2.0), rec(200, 3.0, 4.0)];
    assert_eq!(find_nearest_gps(&records, 120).unwrap().unix_ts, 100);
    assert_eq!(find_nearest_gps(&records, -5).unwrap().unix_ts, 100);
}

#[test]
fn pcap_request_names() {
    assert_eq!(pcap_request("1700000000.pcapng"), ("1700000000".to_string(), false));
    assert_eq!(pcap_request("x.pcapng.pcapng"), ("x".to_string(), false));
    assert_eq!(pcap_request("xpcapng"), ("xpcapng".to_string(), false));
    assert_eq!(pcap_request("live"), ("live".to_string(), true));
    assert_eq!(pcap_request("live.pcapng"), ("live".to_string(), true));
    assert_eq!(pcap_request("recording"), ("recording".to_string(), false));
}

#[test]
fn follow_steps() {
    assert_eq!(follow_step(true, false, false), FollowStep::WaitAndRetry);
    assert_eq!(follow_step(true, false, true), FollowStep::EndOfStream);
    assert_eq!(follow_step(true, true, false), FollowStep::Deliver);
    assert_eq!(follow_step(false, false, false), FollowStep::Deliver);
}

#[test]
fn live_request_without_recording_is_refused() {
    assert_eq!(
        choose_pcap_entry("live", None, None),
        Err((503, "No QMDL data's being recorded, try starting a new recording!".to_string()))
    );
}

#[test]
fn live_request_follows_current_recording() {
    assert_eq!(choose_pcap_entry("live.pcapng", Some((3, 100)), None), Ok((3, true)));
    assert_eq!(choose_pcap_entry("live", Some((3, 100)), Some((1, 5))), Ok((3, true)));
}

#[test]
fn unknown_recording_is_not_found() {
    assert_eq!(
        choose_pcap_entry("rec1.pcapng", Some((3, 100)), None),
        Err((404, "couldn't find manifest entry with name rec1".to_string()))
    );
}

#[test]
fn empty_recording_is_unavailable() {
    assert_eq!(
        choose_pcap_entry("rec1", None, Some((2, 0))),
        Err((503, "QMDL file is empty, try again in a bit!".to_string()))
    );
    assert_eq!(
        choose_pcap_entry("live", Some((4, 0)), None),
        Err((503, "QMDL file is empty, try again in a bit!".to_string()))
    );
}

#[test]
fn named_recording_is_served_whole() {
    assert_eq!(choose_pcap_entry("rec1", Some((3, 100)), Some((2, 10))), Ok((2, false)));
}
