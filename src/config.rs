//! What the command line hands the library.
use crate::ipv4::Ipv4;
use vstd::prelude::*;

verus! {

/// The configuration of one invocation, fully populated before any core call.
#[derive(Debug, Clone, PartialEq, Eq)]
pub struct Config {
    /// The wireless interface to use; `None` picks the first managed WiFi device.
    pub interface: Option<String>,
    pub ssid: String,
    pub passphrase: Option<String>,
    pub gateway: Ipv4,
    /// The DHCP address range, `first,last`.
    pub dhcp_range: String,
    pub forget_all: bool,
    pub list_networks: bool,
    pub list_connected: bool,
    pub list_saved: bool,
    pub forget_network: Option<String>,
    /// SSID and passphrase of a network to join.
    pub connect: Option<(String, String)>,
    pub start_hotspot: bool,
    pub stop_hotspot: bool,
    pub check_hotspot: bool,
    pub restart_hotspot: bool,
    /// Do not advertise the gateway as router.
    pub no_dhcp_gateway: bool,
    /// Do not answer every DNS name with the gateway.
    pub no_dhcp_dns: bool,
    /// With `no_dhcp_gateway`, send an empty router option so that clients
    /// do not pick a gateway themselves.
    pub no_dhcp_router_option: bool,
    pub disconnect: bool,
}

} // verus!
