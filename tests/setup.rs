use wifi_connect::device::{find_any_wifi_device, find_device, get_exact_device, DeviceError, DeviceInfo};
use wifi_connect::opts::Opts;
use wifi_connect::profile::{
    create_ap_connection, is_access_point_connection, is_same_ssid, stale_ap_profiles, StoredProfile,
};
use wifi_connect::startup::{
    scan_wait_continues, startup_action, startup_next, terminal_state, ActiveConnectionState,
    StartupAction, StartupEvent, StartupFailure, StartupPhase, WIFI_SCAN_TIMEOUT_SECONDS,
};

fn dev(iface: &str, is_wifi: bool, managed: bool) -> DeviceInfo {
    DeviceInfo { iface: iface.to_string(), is_wifi, managed }
}

#[test]
fn device_selection() {
    let ds = vec![dev("eth0", false, true), dev("wlan0", true, false), dev("wlan1", true, true)];
    assert_eq!(find_any_wifi_device(&ds), Ok(2));
    assert_eq!(find_device(&ds, &None), Ok(2));
    assert_eq!(get_exact_device(&ds, "wlan1"), Ok(2));
    assert_eq!(get_exact_device(&ds, "eth0"), Err(DeviceError::NotWiFi));
    assert_eq!(get_exact_device(&ds, "wlan0"), Err(DeviceError::InterfaceUnmanaged));
    assert_eq!(find_device(&ds, &Some("wlan9".to_string())), Err(DeviceError::DeviceNotFound));
    let none = vec![dev("eth0", false, true), dev("wlan0", true, false)];
    assert_eq!(find_any_wifi_device(&none), Err(DeviceError::DeviceNotFound));
}

fn ap_profile(ctype: &str, mode: &str, ssid: &[u8]) -> StoredProfile {
    StoredProfile {
        connection_type: Some(ctype.to_string()),
        id: Some("p".to_string()),
        uuid: Some("u".to_string()),
        wireless_mode: Some(mode.to_string()),
        wireless_ssid: Some(ssid.to_vec()),
    }
}

#[test]
fn stale_profiles_are_selected() {
    let ps = vec![
        ap_profile("802-11-wireless", "ap", b"WiFiConnect"),
        ap_profile("802-11-wireless", "infrastructure", b"WiFiConnect"),
        ap_profile("802-3-ethernet", "ap", b"WiFiConnect"),
        ap_profile("802-11-wireless", "ap", b"Other"),
        ap_profile("802-11-wireless", "ap", b"WiFiConnect"),
    ];
    assert!(is_access_point_connection(&ps[0]));
    assert!(!is_access_point_connection(&ps[1]));
    assert!(is_same_ssid(&ps[3], "Other"));
    assert_eq!(stale_ap_profiles(&ps, "WiFiConnect"), vec![0, 4]);
}

#[test]
fn no_stale_profile_means_nothing_to_delete() {
    let ps = vec![ap_profile("802-11-wireless", "ap", b"Other")];
    assert_eq!(stale_ap_profiles(&ps, "WiFiConnect"), Vec::<usize>::new());
    assert_eq!(stale_ap_profiles(&Vec::new(), "WiFiConnect"), Vec::<usize>::new());
}

#[test]
fn portal_profile_with_and_without_passphrase() {
    let open = create_ap_connection("wlan0", "WiFiConnect", "192.168.42.1", &None);
    assert_eq!(open.connection_type, "802-11-wireless");
    assert_eq!(open.id, "WiFiConnect");
    assert!(!open.autoconnect);
    assert_eq!(open.interface_name, "wlan0");
    assert_eq!(open.ssid, b"WiFiConnect".to_vec());
    assert_eq!(open.band, "bg");
    assert!(!open.hidden);
    assert_eq!(open.mode, "ap");
    assert!(open.security.is_none());
    assert_eq!(open.address, "192.168.42.1");
    assert_eq!(open.prefix, 24);
    assert_eq!(open.ip4_method, "manual");
    let secured = create_ap_connection("wlan0", "Net", "10.0.0.1", &Some("secret12".to_string()));
    let sec = secured.security.unwrap();
    assert_eq!(sec.key_mgmt, "wpa-psk");
    assert_eq!(sec.psk, "secret12");
}

#[test]
fn scan_wait_stops_after_budget() {
    let mut waits = 0usize;
    while scan_wait_continues(1000, 1000, waits) {
        waits += 1;
    }
    assert_eq!(waits, WIFI_SCAN_TIMEOUT_SECONDS);
    assert_eq!(waits, 45);
    assert!(!scan_wait_continues(1000, 1001, 0));
    assert!(scan_wait_continues(1000, 999, 44));
}

#[test]
fn terminal_states() {
    assert_eq!(terminal_state(ActiveConnectionState::Activated), Some(ActiveConnectionState::Activated));
    assert_eq!(terminal_state(ActiveConnectionState::Deactivated), Some(ActiveConnectionState::Deactivated));
    assert_eq!(terminal_state(ActiveConnectionState::Activating), None);
    assert_eq!(terminal_state(ActiveConnectionState::Failed), None);
}

fn run(events: &[StartupEvent]) -> (StartupPhase, usize) {
    let mut phase = StartupPhase::Uninitialized;
    let mut cleanups = 0;
    for e in events {
        if startup_action(phase) == StartupAction::RemoveStaleProfiles {
            cleanups += 1;
        }
        phase = startup_next(phase, *e);
    }
    (phase, cleanups)
}

#[test]
fn startup_reaches_portal_with_one_cleanup() {
    let (phase, cleanups) = run(&[
        StartupEvent::Completed,
        StartupEvent::Completed,
        StartupEvent::Completed,
        StartupEvent::Completed,
        StartupEvent::PortalState(ActiveConnectionState::Activated),
        StartupEvent::Completed,
    ]);
    assert_eq!(phase, StartupPhase::PortalActivated);
    assert_eq!(cleanups, 1);
    assert_eq!(startup_action(phase), StartupAction::Serve);
}

#[test]
fn startup_failures() {
    assert_eq!(run(&[StartupEvent::StepFailed]).0, StartupPhase::Failed(StartupFailure::DaemonUnavailable));
    let (phase, cleanups) = run(&[
        StartupEvent::Completed,
        StartupEvent::Completed,
        StartupEvent::DeviceUnavailable(DeviceError::NotWiFi),
    ]);
    assert_eq!(phase, StartupPhase::Failed(StartupFailure::NotWiFi));
    assert_eq!(cleanups, 1);
    let (phase, _) = run(&[
        StartupEvent::Completed,
        StartupEvent::Completed,
        StartupEvent::Completed,
        StartupEvent::Completed,
        StartupEvent::PortalState(ActiveConnectionState::Deactivated),
    ]);
    assert_eq!(phase, StartupPhase::PortalRejected);
    assert_eq!(startup_action(phase), StartupAction::RemovePortalProfile);
    assert_eq!(
        startup_next(phase, StartupEvent::Completed),
        StartupPhase::Failed(StartupFailure::ActivationFailed)
    );
}

#[test]
fn default_options() {
    let o = Opts::defaults();
    assert_eq!(o.ssid, "WiFiConnect");
    assert_eq!(o.gateway, "192.168.42.1");
    assert!(o.password.is_none() && o.interface.is_none());
}
