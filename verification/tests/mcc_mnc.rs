use rayhunter::analysis::mcc_mnc::{country_name, lookup, operator_name, Carrier};

#[test]
fn resolves_us_mnos() {
    assert_eq!(operator_name("310", "260"), Some("T-Mobile US"));
    assert_eq!(operator_name("311", "480"), Some("Verizon Wireless"));
    assert_eq!(operator_name("310", "410"), Some("AT&T"));
}

#[test]
fn mnc_leading_zero_is_significant() {
    assert_eq!(operator_name("234", "10"), Some("O2 UK"));
    assert_eq!(operator_name("234", "010"), None);
}

#[test]
fn unknown_mnc_still_yields_country() {
    let c = lookup("310", "999");
    assert_eq!(c.operator, None);
    assert_eq!(c.country, Some("United States"));
    assert_eq!(c.display().as_deref(), Some("Unknown operator (United States)"));
}

#[test]
fn fully_unknown_is_unknown() {
    let c = lookup("001", "01");
    assert!(c.is_unknown());
    assert_eq!(c.display(), None);
}

#[test]
fn display_formats() {
    assert_eq!(lookup("310", "260").display().as_deref(), Some("T-Mobile US (United States)"));
}

#[test]
fn operator_without_country_displays_operator_only() {
    let c = Carrier { operator: Some("Test Net"), country: None };
    assert!(!c.is_unknown());
    assert_eq!(c.display().as_deref(), Some("Test Net"));
}

#[test]
fn other_markets_and_countries() {
    assert_eq!(operator_name("316", "010"), Some("Sprint (T-Mobile)"));
    assert_eq!(operator_name("302", "720"), Some("Rogers"));
    assert_eq!(operator_name("505", "01"), Some("Telstra"));
    assert_eq!(operator_name("222", "50"), Some("Iliad"));
    assert_eq!(country_name("440"), Some("Japan"));
    assert_eq!(country_name("420"), Some("Saudi Arabia"));
    assert_eq!(country_name("31"), None);
    assert_eq!(country_name("3100"), None);
    assert_eq!(lookup("208", "15").display().as_deref(), Some("Free Mobile (France)"));
}
