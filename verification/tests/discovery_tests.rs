use nanvr_core::discovery::{register_peer, DiscoveryError, PeerSet, ResolvedEvent};
use nanvr_core::sockets::{instance_name, ip_is_unspecified};

fn event(
    hostname: &str,
    device_id: Option<&str>,
    protocol: Option<&str>,
    address: Option<&str>,
) -> ResolvedEvent {
    ResolvedEvent {
        hostname: hostname.to_string(),
        device_id: device_id.map(|s| s.to_string()),
        protocol: protocol.map(|s| s.to_string()),
        address: address.map(|s| s.to_string()),
    }
}

#[test]
fn empty_poll_yields_empty_mapping() {
    let peers = PeerSet::new();
    assert_eq!(peers.len(), 0);
    assert!(peers.lookup("anyone.local.").is_none());
}

#[test]
fn later_event_overwrites_earlier_address() {
    let mut peers = PeerSet::new();
    let first = event("headset.local.", None, Some("21"), Some("192.168.0.5"));
    let second = event("headset.local.", None, Some("21"), Some("192.168.0.9"));
    register_peer(&mut peers, first, "21").unwrap();
    register_peer(&mut peers, second, "21").unwrap();
    assert_eq!(peers.len(), 1);
    assert_eq!(peers.lookup("headset.local.").unwrap(), "192.168.0.9");
}

#[test]
fn mismatched_protocol_peer_is_still_included() {
    let mut peers = PeerSet::new();
    let ev = event("old-headset.local.", None, Some("20"), Some("192.168.0.7"));
    let matched = register_peer(&mut peers, ev, "21").unwrap();
    assert!(!matched);
    assert_eq!(peers.lookup("old-headset.local.").unwrap(), "192.168.0.7");
}

#[test]
fn matching_protocol_is_reported_as_matched() {
    let mut peers = PeerSet::new();
    let ev = event("headset.local.", None, Some("21"), Some("192.168.0.7"));
    let matched = register_peer(&mut peers, ev, "21").unwrap();
    assert!(matched);
}

#[test]
fn device_id_attribute_overrides_hostname() {
    let mut peers = PeerSet::new();
    let ev = event(
        "advertised.local.",
        Some("device-7"),
        Some("21"),
        Some("10.0.0.3"),
    );
    register_peer(&mut peers, ev, "21").unwrap();
    assert!(peers.lookup("advertised.local.").is_none());
    assert_eq!(peers.lookup("device-7").unwrap(), "10.0.0.3");
}

#[test]
fn event_without_address_fails_the_poll() {
    let mut peers = PeerSet::new();
    let ok = event("a.local.", None, Some("21"), Some("10.0.0.1"));
    register_peer(&mut peers, ok, "21").unwrap();
    let malformed = event("b.local.", None, Some("21"), None);
    let err = register_peer(&mut peers, malformed, "21").unwrap_err();
    assert_eq!(err, DiscoveryError::MalformedDiscoveryEvent);
    // The failing event changed nothing.
    assert_eq!(peers.len(), 1);
    assert_eq!(peers.lookup("a.local.").unwrap(), "10.0.0.1");
}

#[test]
fn event_without_protocol_fails_the_poll() {
    let mut peers = PeerSet::new();
    let malformed = event("b.local.", None, None, Some("10.0.0.2"));
    let err = register_peer(&mut peers, malformed, "21").unwrap_err();
    assert_eq!(err, DiscoveryError::MalformedDiscoveryEvent);
    assert_eq!(peers.len(), 0);
}

#[test]
fn distinct_hostnames_accumulate() {
    let mut peers = PeerSet::new();
    for (host, addr) in [
        ("one.local.", "10.0.0.1"),
        ("two.local.", "10.0.0.2"),
        ("three.local.", "10.0.0.3"),
    ] {
        let ev = event(host, None, Some("21"), Some(addr));
        register_peer(&mut peers, ev, "21").unwrap();
    }
    assert_eq!(peers.len(), 3);
    assert_eq!(peers.lookup("two.local.").unwrap(), "10.0.0.2");
}

#[test]
fn instance_names_carry_the_product_prefix() {
    assert_eq!(instance_name(0), "nanvr0");
    assert_eq!(instance_name(1234), "nanvr1234");
    assert_eq!(instance_name(u16::MAX), "nanvr65535");
}

#[test]
fn unspecified_addresses_are_recognized() {
    assert!(ip_is_unspecified("0.0.0.0"));
    assert!(ip_is_unspecified("::"));
    assert!(!ip_is_unspecified("192.168.0.1"));
    assert!(!ip_is_unspecified("fe80::1"));
}
