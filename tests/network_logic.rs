use wifi_connect::device::{check_named_device, first_managed_wifi, DeviceError, DeviceInfo};
use wifi_connect::connectivity::{connectivity_step, Connectivity, WaitStep};
use wifi_connect::discovery::{
    filter_access_points, find_access_point, get_networks, init_access_point_credentials,
    next_scan_step, AccessPoint, Network, ScanStep,
};
use wifi_connect::registry::{
    get_saved_networks, pick_connected_network, select_connections, text_less,
    ConnectionSettings, SavedNetwork, Selection,
};
use wifi_connect::security::{
    classify_security, resolve_credentials, Credentials, SecurityClass, SECURITY_ENTERPRISE,
    SECURITY_WEP, SECURITY_WPA, SECURITY_WPA2,
};

fn ap(ssid: Option<&str>, security: u32, strength: u32) -> AccessPoint {
    AccessPoint { ssid: ssid.map(|s| s.to_string()), security, strength }
}

fn conn(kind: &str, mode: &str, ssid: Option<&str>) -> ConnectionSettings {
    ConnectionSettings {
        kind: kind.to_string(),
        mode: mode.to_string(),
        ssid: ssid.map(|s| s.to_string()),
    }
}

const WIFI: &str = "802-11-wireless";

#[test]
fn classifies_security_by_priority() {
    assert_eq!(classify_security(0), SecurityClass::Open);
    assert_eq!(classify_security(SECURITY_WEP), SecurityClass::Wep);
    assert_eq!(classify_security(SECURITY_WPA), SecurityClass::Wpa);
    assert_eq!(classify_security(SECURITY_WPA2), SecurityClass::Wpa);
    assert_eq!(classify_security(SECURITY_ENTERPRISE), SecurityClass::Enterprise);
    assert_eq!(classify_security(SECURITY_WEP | SECURITY_WPA2), SecurityClass::Wpa);
    assert_eq!(classify_security(SECURITY_WPA2 | SECURITY_ENTERPRISE), SecurityClass::Enterprise);
    assert_eq!(SecurityClass::Enterprise.name(), "enterprise");
    assert_eq!(SecurityClass::Wpa.name(), "wpa");
    assert_eq!(SecurityClass::Wep.name(), "wep");
    assert_eq!(SecurityClass::Open.name(), "none");
}

#[test]
fn credentials_for_each_security() {
    assert_eq!(resolve_credentials(0, "id", "pw"), Credentials::Open);
    assert_eq!(
        resolve_credentials(SECURITY_WEP, "id", "pw"),
        Credentials::Wep { passphrase: "pw".to_string() }
    );
    assert_eq!(
        resolve_credentials(SECURITY_WPA, "id", "pw"),
        Credentials::Wpa { passphrase: "pw".to_string() }
    );
    assert_eq!(
        resolve_credentials(SECURITY_WPA2, "id", "pw"),
        Credentials::Wpa { passphrase: "pw".to_string() }
    );
    assert_eq!(
        resolve_credentials(SECURITY_ENTERPRISE, "", "pw"),
        Credentials::Enterprise { identity: String::new(), passphrase: "pw".to_string() }
    );
    let a = ap(Some("Corp"), SECURITY_ENTERPRISE | SECURITY_WPA2, 70);
    assert_eq!(
        init_access_point_credentials(&a, "alice", "secret"),
        Credentials::Enterprise { identity: "alice".to_string(), passphrase: "secret".to_string() }
    );
}

#[test]
fn first_duplicate_wins() {
    let scan = vec![ap(Some("Home"), SECURITY_WPA2, 30), ap(Some("Home"), SECURITY_WPA2, 90)];
    let out = filter_access_points(&scan, "");
    assert_eq!(out, vec![ap(Some("Home"), SECURITY_WPA2, 30)]);
}

#[test]
fn filter_drops_hidden_invalid_and_excluded() {
    let scan = vec![
        ap(None, 0, 50),
        ap(Some(""), 0, 50),
        ap(Some("Portal"), 0, 99),
        ap(Some("Cafe"), SECURITY_WEP, 40),
        ap(Some("Home"), SECURITY_WPA2, 60),
        ap(Some("Cafe"), 0, 80),
    ];
    let out = filter_access_points(&scan, "Portal");
    assert_eq!(out, vec![ap(Some("Cafe"), SECURITY_WEP, 40), ap(Some("Home"), SECURITY_WPA2, 60)]);
    let all = filter_access_points(&scan, "");
    assert_eq!(all.len(), 3);
    assert_eq!(all[0].ssid.as_deref(), Some("Portal"));
    assert!(filter_access_points(&vec![], "").is_empty());
}

#[test]
fn networks_listing() {
    let scan = vec![ap(Some("Home"), SECURITY_WPA2, 60), ap(Some("Open"), 0, 20), ap(Some("Home"), 0, 90)];
    assert_eq!(
        get_networks(&scan, ""),
        vec![
            Network { ssid: "Home".to_string(), security: "wpa".to_string() },
            Network { ssid: "Open".to_string(), security: "none".to_string() },
        ]
    );
}

#[test]
fn find_access_point_takes_first_match() {
    let scan = vec![ap(None, 0, 1), ap(Some("A"), 1, 2), ap(Some("B"), 2, 3), ap(Some("B"), 4, 5)];
    assert_eq!(find_access_point(&scan, "B"), Some(&scan[2]));
    assert_eq!(find_access_point(&scan, "C"), None);
}

#[test]
fn scan_retry_steps() {
    assert_eq!(next_scan_step(1, 3), ScanStep::Found);
    assert_eq!(next_scan_step(1, 0), ScanStep::Retry);
    assert_eq!(next_scan_step(9, 0), ScanStep::Retry);
    assert_eq!(next_scan_step(10, 0), ScanStep::GiveUp);
    assert_eq!(next_scan_step(10, 1), ScanStep::Found);
}

#[test]
fn connectivity_wait_steps() {
    assert_eq!(connectivity_step(Connectivity::Full, 0, 20), WaitStep::Connected);
    assert_eq!(connectivity_step(Connectivity::Limited, 25, 20), WaitStep::Connected);
    assert_eq!(connectivity_step(Connectivity::Offline, 5, 20), WaitStep::KeepWaiting);
    assert_eq!(connectivity_step(Connectivity::Portal, 20, 20), WaitStep::TimedOut);
    assert_eq!(connectivity_step(Connectivity::Unknown, 0, 0), WaitStep::TimedOut);
}

#[test]
fn saved_networks_sorted_unique_without_access_points() {
    let conns = vec![
        conn(WIFI, "infrastructure", Some("Zeta")),
        conn(WIFI, "ap", Some("Hotspot")),
        conn("802-3-ethernet", "", Some("Wired")),
        conn(WIFI, "infrastructure", Some("Alpha")),
        conn(WIFI, "infrastructure", Some("Zeta")),
        conn(WIFI, "infrastructure", None),
        conn(WIFI, "infrastructure", Some("")),
        conn(WIFI, "infrastructure", Some("Al")),
    ];
    let wpa = "wpa".to_string();
    assert_eq!(
        get_saved_networks(&conns),
        vec![
            SavedNetwork { ssid: "Al".to_string(), security: wpa.clone() },
            SavedNetwork { ssid: "Alpha".to_string(), security: wpa.clone() },
            SavedNetwork { ssid: "Zeta".to_string(), security: wpa },
        ]
    );
    assert!(get_saved_networks(&vec![]).is_empty());
}

#[test]
fn selections_of_profiles() {
    let conns = vec![
        conn(WIFI, "infrastructure", Some("Home")),
        conn(WIFI, "ap", Some("Home")),
        conn(WIFI, "ap", Some("Other")),
        conn("802-3-ethernet", "", None),
        conn(WIFI, "infrastructure", Some("Home")),
        conn(WIFI, "infrastructure", None),
    ];
    assert_eq!(select_connections(&conns, Selection::SavedWithSsid, "Home"), vec![0, 4]);
    assert_eq!(select_connections(&conns, Selection::HotspotWithSsid, "Home"), vec![1]);
    assert_eq!(select_connections(&conns, Selection::AllWifi, ""), vec![0, 1, 2, 4, 5]);
    assert!(select_connections(&conns, Selection::SavedWithSsid, "Nope").is_empty());
}

#[test]
fn connected_network_guess() {
    let aps = vec![ap(Some("Weak"), 0, 40), ap(Some("Strong"), SECURITY_WPA2, 130), ap(Some("Home"), 0, 80)];
    let conns = vec![conn(WIFI, "infrastructure", Some("Strong")), conn(WIFI, "infrastructure", Some("Weak"))];
    let c = pick_connected_network(&aps, &conns, "wlan0").unwrap();
    assert_eq!(c.ssid, "Strong");
    assert_eq!(c.security, "wpa");
    assert_eq!(c.signal_strength, 100);
    assert_eq!(c.interface, "wlan0");
    assert_eq!(c.ip_address, None);
    assert_eq!(pick_connected_network(&aps, &vec![], "wlan0"), None);
}

#[test]
fn text_order() {
    assert!(text_less("Alpha", "Beta"));
    assert!(text_less("Al", "Alpha"));
    assert!(!text_less("Alpha", "Al"));
    assert!(!text_less("Same", "Same"));
    assert!(text_less("", "a"));
    assert!(text_less("Z", "a"));
}

#[test]
fn device_choice() {
    let wired = DeviceInfo { is_wifi: false, managed: false };
    let unmanaged = DeviceInfo { is_wifi: true, managed: false };
    let good = DeviceInfo { is_wifi: true, managed: true };
    assert_eq!(check_named_device(wired), Err(DeviceError::NotAWiFiDevice));
    assert_eq!(check_named_device(unmanaged), Err(DeviceError::UnmanagedDevice));
    assert_eq!(check_named_device(good), Ok(()));
    assert_eq!(first_managed_wifi(&vec![wired, unmanaged, good, good]), Ok(2));
    assert_eq!(first_managed_wifi(&vec![wired, unmanaged]), Err(DeviceError::NoWiFiDevice));
    assert_eq!(first_managed_wifi(&vec![]), Err(DeviceError::NoWiFiDevice));
}
