use wifi_connect::station::{copy_stations, derive_stations, AccessPointInfo, Station};
use wifi_connect::text::{text_equal, text_less};

fn ap(ssid: &[u8], strength: u8) -> AccessPointInfo {
    AccessPointInfo { ssid: Some(ssid.to_vec()), strength }
}

fn st(ssid: &str, quality: u8) -> Station {
    Station::new(ssid.to_string(), quality)
}

#[test]
fn derived_stations_scenario() {
    let aps = vec![ap(b"Cafe", 30), ap(b"Cafe", 80), ap(b"Home", 80), ap(&[0xff, 0xfe, 0x80], 10)];
    assert_eq!(derive_stations(&aps), vec![st("Home", 80), st("Cafe", 80)]);
}

#[test]
fn empty_ssid_is_excluded_at_any_strength() {
    let aps = vec![ap(b"", 100), ap(b"Net", 5), ap(b"", 0)];
    assert_eq!(derive_stations(&aps), vec![st("Net", 5)]);
}

#[test]
fn hidden_network_without_ssid_is_excluded() {
    let aps = vec![AccessPointInfo { ssid: None, strength: 90 }, ap(b"A", 1)];
    assert_eq!(derive_stations(&aps), vec![st("A", 1)]);
}

#[test]
fn no_access_points_give_no_stations() {
    assert_eq!(derive_stations(&Vec::new()), Vec::<Station>::new());
}

#[test]
fn stronger_duplicate_replaces_weaker() {
    let aps = vec![ap(b"X", 10), ap(b"Y", 50), ap(b"X", 90), ap(b"X", 40)];
    assert_eq!(derive_stations(&aps), vec![st("X", 90), st("Y", 50)]);
}

#[test]
fn equal_strength_orders_by_ssid_descending() {
    let aps = vec![ap(b"alpha", 60), ap(b"gamma", 60), ap(b"beta", 60), ap(b"zeta", 61)];
    assert_eq!(
        derive_stations(&aps),
        vec![st("zeta", 61), st("gamma", 60), st("beta", 60), st("alpha", 60)]
    );
}

#[test]
fn non_ascii_ssid_is_kept_and_ordered_by_code_point() {
    let aps = vec![ap("Café".as_bytes(), 20), ap(b"Cafz", 20), ap(b"Cafe", 20)];
    assert_eq!(derive_stations(&aps), vec![st("Café", 20), st("Cafz", 20), st("Cafe", 20)]);
}

#[test]
fn largest_strength_is_kept() {
    let aps = vec![ap(b"Max", 255), ap(b"Max", 0)];
    assert_eq!(derive_stations(&aps), vec![st("Max", 255)]);
}

#[test]
fn ssids_that_are_not_utf8_are_dropped() {
    let aps = vec![
        ap(&[0xc3, 0x28], 90),
        ap(&[0xed, 0xa0, 0x80], 80),
        ap(&[0xc0, 0xaf], 70),
        ap(&[0xc3, 0xa9], 5),
        ap(b"Home", 1),
    ];
    assert_eq!(derive_stations(&aps), vec![st("\u{e9}", 5), st("Home", 1)]);
}

#[test]
fn text_comparisons() {
    assert!(text_less("Cafe", "Home"));
    assert!(!text_less("Home", "Cafe"));
    assert!(text_less("Caf", "Cafe"));
    assert!(!text_less("Cafe", "Cafe"));
    assert!(text_less("", "a"));
    assert!(text_equal("Cafe", "Cafe"));
    assert!(!text_equal("Cafe", "Caf"));
}

#[test]
fn copied_stations_are_equal() {
    let v = vec![st("a", 1), st("b", 2)];
    assert_eq!(copy_stations(&v), v);
}
