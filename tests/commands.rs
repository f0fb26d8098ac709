use wifi_connect::command::{
    check_connectivity_reply, dispatch_command, get_global_client, get_global_portal_connection,
    get_global_stations, list_connections_reply, list_wifi_networks, shutdown, stop_reply, Command,
    CommandError, CommandPlan, CommandResponce, NetworkState,
};
use wifi_connect::profile::StoredProfile;
use wifi_connect::station::Station;
use wifi_connect::web::{AppResponse, NOT_INITIALIZED};

type State = NetworkState<u32, u8, String>;

fn state(portal: Option<String>) -> Option<State> {
    Some(NetworkState::new(
        7,
        3,
        vec![Station::new("Home".to_string(), 80), Station::new("Cafe".to_string(), 80)],
        portal,
    ))
}

fn networks(r: Result<CommandResponce, CommandError>) -> Vec<Station> {
    match r {
        Ok(CommandResponce::ListWiFiNetworks(list)) => list.stations,
        _ => panic!("expected a network list"),
    }
}

fn is_stop_ok(r: &Result<CommandResponce, CommandError>) -> bool {
    matches!(r, Ok(CommandResponce::Stop(s)) if s.stop == "ok")
}

#[test]
fn wifi_list_is_repeatable() {
    let s = state(None);
    let first = networks(list_wifi_networks(&s));
    let second = networks(list_wifi_networks(&s));
    assert_eq!(first, second);
    assert_eq!(first, vec![Station::new("Home".to_string(), 80), Station::new("Cafe".to_string(), 80)]);
    assert!(matches!(dispatch_command(&s, Command::ListWiFiNetworks), CommandPlan::Reply(Ok(_))));
}

#[test]
fn stop_without_portal_succeeds_twice() {
    let mut s = state(None);
    for _ in 0..2 {
        match dispatch_command(&s, Command::Stop) {
            CommandPlan::Reply(r) => assert!(is_stop_ok(&r)),
            _ => panic!("expected an immediate reply"),
        }
    }
    assert!(is_stop_ok(&stop_reply(&mut s, Ok(()))));
    assert!(s.is_some());
}

#[test]
fn stop_with_portal_tears_down_then_forgets_it() {
    let mut s = state(Some("portal".to_string()));
    assert!(matches!(dispatch_command(&s, Command::Stop), CommandPlan::StopPortal));
    let failed = stop_reply(&mut s, Err(vec!["Failed to delete captive portal connection profile".to_string()]));
    match failed {
        Err(CommandError::UpstreamCallFailed(lines)) => {
            assert_eq!(lines, vec!["Failed to delete captive portal connection profile".to_string()])
        }
        _ => panic!("expected the failure"),
    }
    assert_eq!(s.as_ref().unwrap().portal_connection, Some("portal".to_string()));
    assert!(is_stop_ok(&stop_reply(&mut s, Ok(()))));
    assert_eq!(s.as_ref().unwrap().portal_connection, None);
    assert!(matches!(dispatch_command(&s, Command::Stop), CommandPlan::Reply(Ok(_))));
}

#[test]
fn commands_fail_before_initialization() {
    let s: Option<State> = None;
    for c in [
        Command::CheckConnectivity,
        Command::ListConnections,
        Command::ListWiFiNetworks,
        Command::Shutdown,
        Command::Stop,
    ] {
        assert!(matches!(
            dispatch_command(&s, c),
            CommandPlan::Reply(Err(CommandError::StateNotInitialized))
        ));
    }
    assert!(matches!(get_global_stations(&s), Err(CommandError::StateNotInitialized)));
    assert!(matches!(get_global_client(&s), Err(CommandError::StateNotInitialized)));
    assert!(matches!(get_global_portal_connection(&s), Err(CommandError::StateNotInitialized)));
    assert!(matches!(list_wifi_networks(&s), Err(CommandError::StateNotInitialized)));
    assert!(matches!(shutdown(&s), Err(CommandError::StateNotInitialized)));
}

#[test]
fn plans_for_outside_work() {
    let s = state(Some("portal".to_string()));
    assert!(matches!(dispatch_command(&s, Command::CheckConnectivity), CommandPlan::CheckConnectivity));
    assert!(matches!(dispatch_command(&s, Command::ListConnections), CommandPlan::ListConnections));
    assert_eq!(*get_global_client(&s).ok().unwrap(), 7);
    assert_eq!(get_global_portal_connection(&s).ok().unwrap(), Some(&"portal".to_string()));
}

#[test]
fn shutdown_acknowledges() {
    let s = state(None);
    assert!(matches!(shutdown(&s), Ok(CommandResponce::Shutdown(x)) if x.shutdown == "ok"));
}

#[test]
fn connectivity_reply_and_its_error_chain() {
    match check_connectivity_reply(Ok("full".to_string())) {
        Ok(CommandResponce::CheckConnectivity(c)) => assert_eq!(c.connectivity, "full"),
        _ => panic!("expected connectivity"),
    }
    match check_connectivity_reply(Err(vec!["timeout".to_string()])) {
        Err(CommandError::UpstreamCallFailed(lines)) => assert_eq!(
            lines,
            vec!["Failed to execute check connectivity".to_string(), "timeout".to_string()]
        ),
        _ => panic!("expected a failure"),
    }
}

fn profile(id: Option<&str>, uuid: Option<&str>) -> StoredProfile {
    StoredProfile {
        connection_type: None,
        id: id.map(str::to_string),
        uuid: uuid.map(str::to_string),
        wireless_mode: None,
        wireless_ssid: None,
    }
}

#[test]
fn profiles_missing_id_or_uuid_are_left_out() {
    let ps = vec![
        profile(Some("a"), Some("1")),
        profile(None, Some("2")),
        profile(Some("c"), None),
        profile(None, None),
        profile(Some("e"), Some("5")),
    ];
    match list_connections_reply(&ps) {
        Ok(CommandResponce::ListConnections(list)) => {
            let got: Vec<(String, String)> =
                list.connections.into_iter().map(|d| (d.id, d.uuid)).collect();
            assert_eq!(got, vec![("a".to_string(), "1".to_string()), ("e".to_string(), "5".to_string())]);
        }
        _ => panic!("expected a connection list"),
    }
}

#[test]
fn app_response_adds_context() {
    match AppResponse::from_outcome(Command::ListWiFiNetworks, Err(CommandError::StateNotInitialized)) {
        AppResponse::Error(e) => assert_eq!(
            e.errors,
            vec!["Failed to list WiFi networks".to_string(), NOT_INITIALIZED.to_string()]
        ),
        _ => panic!("expected errors"),
    }
    match AppResponse::from_outcome(
        Command::Stop,
        Err(CommandError::UpstreamCallFailed(vec!["x".to_string(), "y".to_string()])),
    ) {
        AppResponse::Error(e) => {
            assert_eq!(e.errors, vec!["Failed to stop".to_string(), "x".to_string(), "y".to_string()])
        }
        _ => panic!("expected errors"),
    }
    assert!(matches!(
        AppResponse::from_outcome(Command::Shutdown, shutdown(&state(None))),
        AppResponse::Network(CommandResponce::Shutdown(_))
    ));
}
