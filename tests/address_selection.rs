use ddns_updater::address::{
    first_ipv6, first_matching_interface, resolve, BoundAddress, Family, Interface, ResolveError,
};

fn v4(text: &str) -> BoundAddress {
    BoundAddress { family: Family::V4, text: text.to_string() }
}

fn v6(text: &str) -> BoundAddress {
    BoundAddress { family: Family::V6, text: text.to_string() }
}

fn iface(name: &str, addrs: Vec<BoundAddress>) -> Interface {
    Interface { name: name.to_string(), addrs }
}

#[test]
fn first_ipv6_of_mixed_list_is_chosen() {
    let ifaces = vec![iface(
        "eth0",
        vec![v4("192.0.2.1"), v6("2001:db8::b"), v6("2001:db8::c")],
    )];
    assert_eq!(resolve(&ifaces, "eth"), Ok("2001:db8::b".to_string()));
}

#[test]
fn first_ipv6_index_skips_ipv4() {
    let addrs = vec![v4("192.0.2.1"), v4("192.0.2.2"), v6("fe80::1"), v6("2001:db8::1")];
    assert_eq!(first_ipv6(&addrs), Some(2));
    assert_eq!(first_ipv6(&vec![v4("192.0.2.1")]), None);
    assert_eq!(first_ipv6(&vec![]), None);
}

#[test]
fn first_matching_interface_in_system_order() {
    let ifaces = vec![
        iface("lo", vec![v6("::1")]),
        iface("wlan0", vec![v6("2001:db8::1")]),
        iface("eth1", vec![v6("2001:db8::2")]),
        iface("eth0", vec![v6("2001:db8::3")]),
    ];
    assert_eq!(first_matching_interface(&ifaces, "eth"), Some(2));
    assert_eq!(first_matching_interface(&ifaces, "wlan0"), Some(1));
    assert_eq!(first_matching_interface(&ifaces, "wlan01"), None);
    assert_eq!(resolve(&ifaces, "eth"), Ok("2001:db8::2".to_string()));
}

#[test]
fn empty_prefix_matches_first_interface() {
    let ifaces = vec![iface("lo", vec![v6("::1")]), iface("eth0", vec![v6("2001:db8::3")])];
    assert_eq!(first_matching_interface(&ifaces, ""), Some(0));
    assert_eq!(resolve(&ifaces, ""), Ok("::1".to_string()));
}

#[test]
fn prefix_must_start_the_name() {
    let ifaces = vec![iface("veth0", vec![v6("2001:db8::1")])];
    assert_eq!(resolve(&ifaces, "eth"), Err(ResolveError::NoMatchingInterface));
}

#[test]
fn no_interfaces_is_no_match() {
    assert_eq!(resolve(&vec![], "eth"), Err(ResolveError::NoMatchingInterface));
}

#[test]
fn matching_interface_without_ipv6() {
    let ifaces = vec![
        iface("eth0", vec![v4("192.0.2.1")]),
        iface("eth1", vec![v6("2001:db8::1")]),
    ];
    assert_eq!(resolve(&ifaces, "eth"), Err(ResolveError::NoIpv6Address));
}
