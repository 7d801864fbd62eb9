//! The arguments of the DHCP/DNS daemon (dnsmasq) that backs a hotspot.
use crate::config::Config;
use crate::ipv4::{ipv4_text, Ipv4};
use vstd::prelude::*;
use vstd::string::*;

verus! {

/// The argument list for a hotspot on `interface`, in order: the wildcard
/// DNS answer unless DNS advertisement is off; the address range; the
/// router option, or with router advertisement off an empty one if asked;
/// the interface; then the fixed options.
pub open spec fn dnsmasq_args_spec(
    gateway: Ipv4,
    dhcp_range: Seq<char>,
    interface: Seq<char>,
    no_dns: bool,
    no_gateway: bool,
    no_router_option: bool,
) -> Seq<Seq<char>> {
    let dns: Seq<Seq<char>> = if no_dns {
        seq![]
    } else {
        seq!["--address=/#/"@ + ipv4_text(gateway)]
    };
    let router: Seq<Seq<char>> = if !no_gateway {
        seq!["--dhcp-option=option:router,"@ + ipv4_text(gateway)]
    } else if no_router_option {
        seq!["--dhcp-option=option:router"@]
    } else {
        seq![]
    };
    dns + seq!["--dhcp-range="@ + dhcp_range] + router + seq![
        "--interface="@ + interface,
        "--keep-in-foreground"@,
        "--bind-interfaces"@,
        "--except-interface=lo"@,
        "--conf-file"@,
        "--no-hosts"@,
    ]
}

pub open spec fn strings_view(v: Seq<String>) -> Seq<Seq<char>> {
    v.map_values(|s: String| s@)
}

fn prefixed(prefix: &str, rest: &str) -> (r: String)
    ensures
        r@ == prefix@ + rest@,
{
    let mut s = String::from_str(prefix);
    s.append(rest);
    s
}

/// The daemon's arguments for a hotspot on `interface`, as
/// [`dnsmasq_args_spec`] lists them.
pub fn dnsmasq_args(config: &Config, interface: &str) -> (r: Vec<String>)
    ensures
        strings_view(r@) == dnsmasq_args_spec(
            config.gateway,
            config.dhcp_range@,
            interface@,
            config.no_dhcp_dns,
            config.no_dhcp_gateway,
            config.no_dhcp_router_option,
        ),
{
    let gateway = config.gateway.to_text();
    let mut args: Vec<String> = Vec::new();
    if !config.no_dhcp_dns {
        args.push(prefixed("--address=/#/", gateway.as_str()));
    }
    args.push(prefixed("--dhcp-range=", config.dhcp_range.as_str()));
    if !config.no_dhcp_gateway {
        args.push(prefixed("--dhcp-option=option:router,", gateway.as_str()));
    } else if config.no_dhcp_router_option {
        args.push(String::from_str("--dhcp-option=option:router"));
    }
    args.push(prefixed("--interface=", interface));
    args.push(String::from_str("--keep-in-foreground"));
    args.push(String::from_str("--bind-interfaces"));
    args.push(String::from_str("--except-interface=lo"));
    args.push(String::from_str("--conf-file"));
    args.push(String::from_str("--no-hosts"));
    assert(strings_view(args@) =~= dnsmasq_args_spec(
        config.gateway,
        config.dhcp_range@,
        interface@,
        config.no_dhcp_dns,
        config.no_dhcp_gateway,
        config.no_dhcp_router_option,
    ));
    args
}

} // verus!
