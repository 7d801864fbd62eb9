use nix::sys::signal::Signal;
use wifi_connect::config::Config;
use wifi_connect::dhcp::dnsmasq_args;
use wifi_connect::exit::{block_exit_signals, create_exit_sigmask};
use wifi_connect::ipv4::Ipv4;

fn config(no_dns: bool, no_gateway: bool, no_router_option: bool) -> Config {
    Config {
        interface: None,
        ssid: "WiFi Connect".to_string(),
        passphrase: None,
        gateway: Ipv4::new(192, 168, 42, 1),
        dhcp_range: "192.168.42.2,192.168.42.254".to_string(),
        forget_all: false,
        list_networks: false,
        list_connected: false,
        list_saved: false,
        forget_network: None,
        connect: None,
        start_hotspot: false,
        stop_hotspot: false,
        check_hotspot: false,
        restart_hotspot: false,
        no_dhcp_gateway: no_gateway,
        no_dhcp_dns: no_dns,
        no_dhcp_router_option: no_router_option,
        disconnect: false,
    }
}

const FIXED: [&str; 5] = [
    "--keep-in-foreground",
    "--bind-interfaces",
    "--except-interface=lo",
    "--conf-file",
    "--no-hosts",
];

fn expect(head: &[&str]) -> Vec<String> {
    head.iter().chain(FIXED.iter()).map(|s| s.to_string()).collect()
}

#[test]
fn default_dnsmasq_arguments() {
    assert_eq!(
        dnsmasq_args(&config(false, false, false), "wlan0"),
        expect(&[
            "--address=/#/192.168.42.1",
            "--dhcp-range=192.168.42.2,192.168.42.254",
            "--dhcp-option=option:router,192.168.42.1",
            "--interface=wlan0",
        ])
    );
}

#[test]
fn dnsmasq_arguments_without_dns_or_router() {
    assert_eq!(
        dnsmasq_args(&config(true, true, false), "wlan1"),
        expect(&["--dhcp-range=192.168.42.2,192.168.42.254", "--interface=wlan1"])
    );
}

#[test]
fn dnsmasq_arguments_with_empty_router_option() {
    assert_eq!(
        dnsmasq_args(&config(false, true, true), "wlan0"),
        expect(&[
            "--address=/#/192.168.42.1",
            "--dhcp-range=192.168.42.2,192.168.42.254",
            "--dhcp-option=option:router",
            "--interface=wlan0",
        ])
    );
    assert_eq!(
        dnsmasq_args(&config(false, false, true), "wlan0")[2],
        "--dhcp-option=option:router,192.168.42.1"
    );
}

#[test]
fn exit_mask_holds_the_exit_signals() {
    let mask = create_exit_sigmask();
    for sig in [Signal::SIGINT, Signal::SIGQUIT, Signal::SIGTERM, Signal::SIGHUP] {
        assert!(mask.contains(sig));
    }
    assert!(!mask.contains(Signal::SIGUSR1));
    assert!(!mask.contains(Signal::SIGCHLD));
}

#[test]
fn blocking_exit_signals_succeeds() {
    assert_eq!(block_exit_signals(), Ok(()));
}
