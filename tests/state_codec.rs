use wifi_connect::ipv4::Ipv4;
use wifi_connect::state::{HotspotState, StateError};

fn sample(pid: Option<u32>) -> HotspotState {
    HotspotState {
        is_running: true,
        ssid: "Cafe Guest".to_string(),
        gateway: Ipv4::new(10, 0, 0, 1),
        interface: "wlp2s0".to_string(),
        has_password: true,
        dhcp_pid: pid,
        started_at: 1700000000,
    }
}

#[test]
fn decodes_literal_record() {
    let line = "1|TestNetwork|192.168.42.1|wlan0|0|0|1640995200";
    let st = HotspotState::decode(line).unwrap();
    assert_eq!(
        st,
        HotspotState {
            is_running: true,
            ssid: "TestNetwork".to_string(),
            gateway: Ipv4::new(192, 168, 42, 1),
            interface: "wlan0".to_string(),
            has_password: false,
            dhcp_pid: None,
            started_at: 1640995200,
        }
    );
    assert_eq!(st.encode(), line);
}

#[test]
fn encodes_fields_in_order() {
    assert_eq!(sample(Some(4242)).encode(), "1|Cafe Guest|10.0.0.1|wlp2s0|1|4242|1700000000");
    assert_eq!(sample(None).encode(), "1|Cafe Guest|10.0.0.1|wlp2s0|1|0|1700000000");
}

#[test]
fn round_trips_with_and_without_pid() {
    for pid in [None, Some(1), Some(4242), Some(u32::MAX)] {
        let st = sample(pid);
        assert_eq!(HotspotState::decode(&st.encode()), Ok(st));
    }
    let mut stopped = sample(None);
    stopped.is_running = false;
    stopped.has_password = false;
    stopped.ssid = String::new();
    stopped.started_at = u64::MAX;
    assert_eq!(HotspotState::decode(&stopped.encode()), Ok(stopped));
}

#[test]
fn rejects_wrong_field_count() {
    assert_eq!(HotspotState::decode(""), Err(StateError::FieldCount));
    assert_eq!(
        HotspotState::decode("1|TestNetwork|192.168.42.1|wlan0|0|0"),
        Err(StateError::FieldCount)
    );
    assert_eq!(
        HotspotState::decode("1|Test|Network|192.168.42.1|wlan0|0|0|1640995200"),
        Err(StateError::FieldCount)
    );
}

#[test]
fn rejects_bad_flags() {
    assert_eq!(
        HotspotState::decode("yes|TestNetwork|192.168.42.1|wlan0|0|0|1640995200"),
        Err(StateError::BadFlag)
    );
    assert_eq!(
        HotspotState::decode("1|TestNetwork|192.168.42.1|wlan0|2|0|1640995200"),
        Err(StateError::BadFlag)
    );
}

#[test]
fn rejects_invalid_gateway() {
    for gw in ["192.168.42", "192.168.42.256", "192.168.042.1", "gateway", ""] {
        let line = format!("1|TestNetwork|{}|wlan0|0|0|1640995200", gw);
        assert_eq!(HotspotState::decode(&line), Err(StateError::BadGateway));
    }
}

#[test]
fn rejects_non_numeric_pid() {
    for pid in ["abc", "", "-1", "12a", "4294967296"] {
        let line = format!("1|TestNetwork|192.168.42.1|wlan0|0|{}|1640995200", pid);
        assert_eq!(HotspotState::decode(&line), Err(StateError::BadPid));
    }
}

#[test]
fn rejects_bad_timestamp() {
    for ts in ["", "now", "18446744073709551616"] {
        let line = format!("1|TestNetwork|192.168.42.1|wlan0|0|0|{}", ts);
        assert_eq!(HotspotState::decode(&line), Err(StateError::BadTimestamp));
    }
}

#[test]
fn ipv4_text_and_parse() {
    let ip = Ipv4::new(192, 168, 42, 1);
    assert_eq!(ip.to_text(), "192.168.42.1");
    assert_eq!(Ipv4::parse("192.168.42.1"), Some(ip));
    assert_eq!(Ipv4::parse("0.0.0.0"), Some(Ipv4::new(0, 0, 0, 0)));
    assert_eq!(Ipv4::parse("255.255.255.255"), Some(Ipv4::new(255, 255, 255, 255)));
    assert_eq!(Ipv4::parse("1.2.3"), None);
    assert_eq!(Ipv4::parse("1.2.3.4.5"), None);
    assert_eq!(Ipv4::parse("01.2.3.4"), None);
    assert_eq!(Ipv4::parse("1.2.3.1000"), None);
    assert_eq!(Ipv4::parse("1..3.4"), None);
}
