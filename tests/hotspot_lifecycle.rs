use wifi_connect::config::Config;
use wifi_connect::hotspot::{
    Action, Event, HotspotError, HotspotStatus, Lifecycle, Operation, Outcome, SETTLE_SECS,
};
use wifi_connect::ipv4::Ipv4;
use wifi_connect::registry::ConnectionSettings;
use wifi_connect::state::HotspotState;

fn config() -> Config {
    Config {
        interface: Some("wlan0".to_string()),
        ssid: "Setup".to_string(),
        passphrase: Some("secret12".to_string()),
        gateway: Ipv4::new(192, 168, 42, 1),
        dhcp_range: "192.168.42.2,192.168.42.254".to_string(),
        forget_all: false,
        list_networks: false,
        list_connected: false,
        list_saved: false,
        forget_network: None,
        connect: None,
        start_hotspot: true,
        stop_hotspot: false,
        check_hotspot: false,
        restart_hotspot: false,
        no_dhcp_gateway: false,
        no_dhcp_dns: false,
        no_dhcp_router_option: false,
        disconnect: false,
    }
}

fn ap_conn(ssid: &str) -> ConnectionSettings {
    ConnectionSettings {
        kind: "802-11-wireless".to_string(),
        mode: "ap".to_string(),
        ssid: Some(ssid.to_string()),
    }
}

fn client_conn(ssid: &str) -> ConnectionSettings {
    ConnectionSettings {
        kind: "802-11-wireless".to_string(),
        mode: "infrastructure".to_string(),
        ssid: Some(ssid.to_string()),
    }
}

fn machine(op: Operation, now: u64) -> Lifecycle {
    Lifecycle::new(op, &config(), "wlan0", now)
}

fn running_line(pid: u32, started_at: u64) -> String {
    format!("1|Setup|192.168.42.1|wlan0|1|{}|{}", pid, started_at)
}

/// Runs a fresh start from no state through to success; returns the saved line.
fn fresh_start(m: &mut Lifecycle) -> String {
    assert_eq!(m.step(Event::Done), Action::LoadState);
    assert_eq!(m.step(Event::Loaded(None)), Action::ListConnections);
    let conns = vec![ap_conn("Setup"), client_conn("Setup")];
    assert_eq!(m.step(Event::Connections(conns)), Action::DeleteConnections { indices: vec![0] });
    assert_eq!(m.step(Event::Done), Action::ClearState);
    assert_eq!(m.step(Event::Done), Action::CreateAccessPoint);
    assert_eq!(m.step(Event::Created(true)), Action::SpawnDhcp);
    let line = match m.step(Event::Spawned(Some(4242))) {
        Action::SaveState { line } => line,
        other => panic!("expected SaveState, got {:?}", other),
    };
    assert_eq!(m.step(Event::Saved(true)), Action::Finish(Outcome::Started));
    line
}

#[test]
fn start_from_nothing_records_the_hotspot() {
    let mut m = machine(Operation::Start, 1000);
    let line = fresh_start(&mut m);
    assert_eq!(line, running_line(4242, 1000));
    assert!(m.is_done());
    let st = m.status();
    assert!(st.is_running);
    assert_eq!(st.ssid.as_deref(), Some("Setup"));
    assert_eq!(st.gateway.as_deref(), Some("192.168.42.1"));
    assert_eq!(st.interface.as_deref(), Some("wlan0"));
    assert!(st.password_protected);
    assert_eq!(st.uptime.as_deref(), Some("0s"));
}

#[test]
fn second_start_is_a_no_op() {
    let mut first = machine(Operation::Start, 1000);
    let line = fresh_start(&mut first);
    let mut second = machine(Operation::Start, 1005);
    assert_eq!(second.step(Event::Done), Action::LoadState);
    assert_eq!(second.step(Event::Loaded(Some(line))), Action::Verify { pid: Some(4242) });
    let verified = Event::Verified { pid_alive: true, connections: vec![ap_conn("Setup")] };
    assert_eq!(second.step(verified), Action::Finish(Outcome::AlreadyRunning));
    assert_eq!(second.status().uptime.as_deref(), Some("5s"));
}

#[test]
fn start_over_a_dead_hotspot_tears_it_down_first() {
    let mut m = machine(Operation::Start, 50);
    m.step(Event::Done);
    assert_eq!(m.step(Event::Loaded(Some(running_line(77, 10)))), Action::Verify { pid: Some(77) });
    let verified = Event::Verified { pid_alive: false, connections: vec![ap_conn("Setup")] };
    assert_eq!(m.step(verified), Action::TerminateDhcp { pid: 77 });
    assert_eq!(m.step(Event::Terminated(true)), Action::ListConnections);
    assert_eq!(
        m.step(Event::Connections(vec![ap_conn("Setup")])),
        Action::DeleteConnections { indices: vec![0] }
    );
    assert_eq!(m.step(Event::Done), Action::ClearState);
    assert_eq!(m.step(Event::Done), Action::CreateAccessPoint);
}

#[test]
fn stop_without_state_is_a_no_op() {
    for text in [None, Some("garbage".to_string()), Some("0|Setup|192.168.42.1|wlan0|1|0|5".to_string())] {
        let mut m = machine(Operation::Stop, 0);
        assert_eq!(m.step(Event::Done), Action::LoadState);
        assert_eq!(m.step(Event::Loaded(text)), Action::Finish(Outcome::NothingToStop));
        assert!(!m.status().is_running);
    }
}

#[test]
fn stop_with_dead_daemon_cleans_up() {
    let mut m = machine(Operation::Stop, 0);
    m.step(Event::Done);
    assert_eq!(m.step(Event::Loaded(Some(running_line(4242, 5)))), Action::TerminateDhcp { pid: 4242 });
    assert_eq!(m.step(Event::Terminated(false)), Action::KillDhcp { pid: 4242 });
    assert_eq!(m.step(Event::Done), Action::ListConnections);
    let conns = vec![client_conn("Setup"), ap_conn("Setup"), ap_conn("Other"), ap_conn("Setup")];
    assert_eq!(m.step(Event::Connections(conns)), Action::DeleteConnections { indices: vec![1, 3] });
    assert_eq!(m.step(Event::Done), Action::ClearState);
    assert_eq!(m.step(Event::Done), Action::Finish(Outcome::Stopped));
}

#[test]
fn restart_stops_then_starts_when_nothing_to_stop() {
    let mut m = machine(Operation::Restart, 0);
    assert_eq!(m.step(Event::Done), Action::LoadState);
    assert_eq!(m.step(Event::Loaded(None)), Action::Sleep { secs: SETTLE_SECS });
    assert_eq!(m.step(Event::Done), Action::LoadState);
    assert_eq!(m.step(Event::Loaded(None)), Action::ListConnections);
    assert_eq!(m.step(Event::Connections(vec![])), Action::DeleteConnections { indices: vec![] });
    assert_eq!(m.step(Event::Done), Action::ClearState);
    assert_eq!(m.step(Event::Done), Action::CreateAccessPoint);
}

#[test]
fn restart_stops_a_running_hotspot_first() {
    let mut m = machine(Operation::Restart, 0);
    m.step(Event::Done);
    assert_eq!(m.step(Event::Loaded(Some(running_line(9, 1)))), Action::TerminateDhcp { pid: 9 });
    assert_eq!(m.step(Event::Terminated(true)), Action::ListConnections);
    assert_eq!(
        m.step(Event::Connections(vec![ap_conn("Setup")])),
        Action::DeleteConnections { indices: vec![0] }
    );
    assert_eq!(m.step(Event::Done), Action::ClearState);
    assert_eq!(m.step(Event::Done), Action::Sleep { secs: SETTLE_SECS });
    assert_eq!(m.step(Event::Done), Action::LoadState);
}

#[test]
fn check_reports_uptime_of_live_hotspot() {
    let mut m = machine(Operation::Check, 1640995300);
    m.step(Event::Done);
    let line = "1|TestNetwork|192.168.42.1|wlan0|0|31|1640995200".to_string();
    assert_eq!(m.step(Event::Loaded(Some(line))), Action::Verify { pid: Some(31) });
    let verified = Event::Verified { pid_alive: true, connections: vec![ap_conn("TestNetwork")] };
    assert_eq!(m.step(verified), Action::Finish(Outcome::Running));
    let st = m.status();
    assert_eq!(st.uptime.as_deref(), Some("100s"));
    assert_eq!(
        st.status_lines(),
        vec![
            "Hotspot Status: RUNNING",
            "SSID: TestNetwork",
            "Gateway: 192.168.42.1",
            "Interface: wlan0",
            "Password Protected: false",
            "Uptime: 100s",
        ]
    );
}

#[test]
fn check_clears_stale_state() {
    let mut m = machine(Operation::Check, 10);
    m.step(Event::Done);
    assert_eq!(m.step(Event::Loaded(Some(running_line(31, 1)))), Action::Verify { pid: Some(31) });
    let verified = Event::Verified { pid_alive: true, connections: vec![client_conn("Setup")] };
    assert_eq!(m.step(verified), Action::ClearState);
    assert_eq!(m.step(Event::Done), Action::Finish(Outcome::NotRunning));
    assert_eq!(m.status().status_lines(), vec!["Hotspot Status: STOPPED"]);
}

#[test]
fn failed_access_point_creation_fails_the_start() {
    let mut m = machine(Operation::Start, 0);
    m.step(Event::Done);
    m.step(Event::Loaded(None));
    m.step(Event::Connections(vec![]));
    m.step(Event::Done);
    assert_eq!(m.step(Event::Done), Action::CreateAccessPoint);
    assert_eq!(m.step(Event::Created(false)), Action::Finish(Outcome::Failed(HotspotError::AccessPoint)));
}

#[test]
fn failed_spawn_tears_down_the_access_point() {
    let mut m = machine(Operation::Start, 0);
    m.step(Event::Done);
    m.step(Event::Loaded(None));
    m.step(Event::Connections(vec![]));
    m.step(Event::Done);
    m.step(Event::Done);
    assert_eq!(m.step(Event::Created(true)), Action::SpawnDhcp);
    assert_eq!(m.step(Event::Spawned(None)), Action::ListConnections);
    assert_eq!(
        m.step(Event::Connections(vec![ap_conn("Setup")])),
        Action::DeleteConnections { indices: vec![0] }
    );
    assert_eq!(m.step(Event::Done), Action::ClearState);
    assert_eq!(m.step(Event::Done), Action::Finish(Outcome::Failed(HotspotError::Dhcp)));
}

#[test]
fn failed_save_stops_the_new_daemon() {
    let mut m = machine(Operation::Start, 0);
    m.step(Event::Done);
    m.step(Event::Loaded(None));
    m.step(Event::Connections(vec![]));
    m.step(Event::Done);
    m.step(Event::Done);
    m.step(Event::Created(true));
    m.step(Event::Spawned(Some(88)));
    assert_eq!(m.step(Event::Saved(false)), Action::TerminateDhcp { pid: 88 });
}

#[test]
fn unexpected_event_ends_the_operation() {
    let mut m = machine(Operation::Stop, 0);
    m.step(Event::Done);
    let expected = Action::Finish(Outcome::Failed(HotspotError::UnexpectedEvent));
    assert_eq!(m.step(Event::Created(true)), expected);
    assert_eq!(m.step(Event::Done), expected);
}

#[test]
fn status_report_lines() {
    let st = HotspotStatus::running("Net", Ipv4::new(10, 1, 2, 3), "wlan1", true, 3600);
    assert_eq!(
        st.status_lines(),
        vec![
            "Hotspot Status: RUNNING",
            "SSID: Net",
            "Gateway: 10.1.2.3",
            "Interface: wlan1",
            "Password Protected: true",
            "Uptime: 3600s",
        ]
    );
    assert_eq!(HotspotStatus::stopped().status_lines(), vec!["Hotspot Status: STOPPED"]);
    let decoded = HotspotState::decode(&running_line(5, 6)).unwrap();
    assert_eq!(decoded.clone_record(), decoded);
}

#[test]
fn start_with_new_ssid_replaces_live_hotspot() {
    let mut m = machine(Operation::Start, 50);
    m.step(Event::Done);
    let old = "1|Previous|192.168.42.1|wlan0|1|77|10".to_string();
    assert_eq!(m.step(Event::Loaded(Some(old))), Action::Verify { pid: Some(77) });
    let verified = Event::Verified { pid_alive: true, connections: vec![ap_conn("Previous")] };
    assert_eq!(m.step(verified), Action::TerminateDhcp { pid: 77 });
    assert_eq!(m.step(Event::Terminated(true)), Action::ListConnections);
    assert_eq!(
        m.step(Event::Connections(vec![ap_conn("Setup"), ap_conn("Previous")])),
        Action::DeleteConnections { indices: vec![1] }
    );
}
