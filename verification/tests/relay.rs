use rustdesk::relay::{
    is_rendezvous_source, try_into_v4, validate_uuid, RelayRequests, SocketAddr, TargetAddr,
    RELAY_SETUP_TIMEOUT_MS,
};

const RELAY_UUID: &str = "550e8400-e29b-41d4-a716-446655440000";

fn v4(a: u8, b: u8, c: u8, d: u8, port: u16) -> SocketAddr {
    SocketAddr::V4 {
        ip: u32::from_be_bytes([a, b, c, d]),
        port,
    }
}

fn peer() -> SocketAddr {
    v4(192, 0, 2, 10, 40000)
}

fn mapped(a: u8, b: u8, c: u8, d: u8, port: u16) -> SocketAddr {
    SocketAddr::V6 {
        ip: (0xffffu128 << 32) | u128::from(u32::from_be_bytes([a, b, c, d])),
        port,
        flowinfo: 0,
        scope_id: 0,
    }
}

#[test]
fn rejects_injected_and_noncanonical_uuids() {
    assert!(validate_uuid(RELAY_UUID).is_ok());
    for value in [
        "",
        "marker\r\nPING\r\n",
        "550e8400-e29b-41d4-a716-446655440000\r\nPING\r\n",
        "550e8400e29b41d4a716446655440000",
        "550E8400-E29B-41D4-A716-446655440000",
        "550e8400-e29b-11d4-a716-446655440000",
        "00000000-0000-0000-0000-000000000000",
    ] {
        assert!(validate_uuid(value).is_err(), "accepted {:?}", value);
    }
}

#[test]
fn other_uuid_variants_are_rejected() {
    // Version four, but the variant bits of the NCS and Microsoft layouts.
    assert_eq!(
        validate_uuid("550e8400-e29b-41d4-2716-446655440000"),
        Err("Invalid relay UUID")
    );
    assert!(validate_uuid("550e8400-e29b-41d4-c716-446655440000").is_err());
    assert!(validate_uuid("{550e8400-e29b-41d4-a716-446655440000}").is_err());
    assert!(validate_uuid("urn:uuid:550e8400-e29b-41d4-a716-446655440000").is_err());
    assert!(validate_uuid("ffffffff-ffff-4fff-bfff-ffffffffffff").is_ok());
}

#[test]
fn rejects_unsolicited_and_ambiguous_relay_destinations() {
    let mut relays = RelayRequests::default();
    let now = 1_000;
    assert!(relays.select(peer(), "127.0.0.1:6379", now).is_err());
    relays.remember(peer(), "relay.example.test:21117", now);
    relays.remember(peer(), "second.example.test:21117", now);
    for destination in [
        "127.0.0.1:6379",
        "attacker.example.test:21117",
        "relay.example.test:6379",
    ] {
        assert!(relays.select(peer(), destination, now).is_err());
    }
}

#[test]
fn refusals_say_why() {
    let mut relays = RelayRequests::default();
    assert_eq!(
        relays.select(peer(), "relay.test", 5),
        Err("Relay address was not selected for this peer's punch exchange")
    );
    relays.remember(peer(), "a.test", 5);
    relays.remember(peer(), "b.test", 5);
    assert_eq!(
        relays.select(peer(), "c.test", 5),
        Err("Relay request does not identify a unique selected relay")
    );
    assert_eq!(relays.select(peer(), "b.test", 5), Ok("b.test".to_owned()));
}

#[test]
fn retains_its_own_relay_choice_when_legacy_hbbs_rewrites_the_address() {
    let mut relays = RelayRequests::default();
    let now = 1_000;
    let selected = "10.0.0.5:22000";
    relays.remember(peer(), selected, now);
    for advertised in [
        "public.example.test:22000",
        "127.0.0.1:6379",
        "attacker.example.test",
    ] {
        assert_eq!(relays.select(peer(), advertised, now).unwrap(), selected);
    }
}

#[test]
fn preserves_selected_private_relays_custom_ports_and_legacy_retries() {
    let mut relays = RelayRequests::default();
    let now = 1_000;
    let choices = [
        "relay.example.test",
        "10.0.0.5:22000",
        "[fd00::1]:22001",
        "127.0.0.1:22002",
    ];
    for destination in choices {
        relays.remember(peer(), destination, now);
    }
    for destination in choices {
        let retry = v4(192, 0, 2, 10, 40001);
        assert!(relays.select(retry, destination, now).is_ok());
        assert!(relays.select(peer(), destination, now).is_ok());
    }
}

#[test]
fn excludes_other_controllers_and_expired_choices() {
    let mut relays = RelayRequests::default();
    let now = 1_000;
    relays.remember(peer(), "relay.test", now);
    assert!(relays
        .select(v4(192, 0, 2, 11, 40000), "relay.test", now)
        .is_err());
    assert!(relays
        .select(peer(), "relay.test", now + RELAY_SETUP_TIMEOUT_MS)
        .is_err());
    assert!(relays
        .select(peer(), "relay.test", now + RELAY_SETUP_TIMEOUT_MS - 1)
        .is_ok());
}

#[test]
fn fresh_punch_refreshes_expired_selection_after_controller_address_change() {
    let mut relays = RelayRequests::default();
    let now = 1_000;
    relays.remember(peer(), "old.test", now);
    let later = now + RELAY_SETUP_TIMEOUT_MS + 1_000;
    let current = v4(198, 51, 100, 10, 40001);
    let relay = "10.0.0.5:22000";
    assert!(relays.select(current, relay, later).is_err());
    relays.remember(current, relay, later);
    assert_eq!(relays.select(current, relay, later), Ok(relay.to_owned()));
    assert!(relays.select(peer(), "old.test", later).is_err());
}

#[test]
fn handles_ipv4_mapped_addresses() {
    let mut relays = RelayRequests::default();
    let now = 1_000;
    relays.remember(peer(), "relay.test", now);
    assert!(relays
        .select(mapped(192, 0, 2, 10, 40001), "relay.test", now)
        .is_ok());
}

#[test]
fn only_accepts_the_configured_rendezvous_udp_source() {
    let expected = TargetAddr::Ip(v4(192, 0, 2, 20, 21116));
    assert!(is_rendezvous_source(&expected, &expected));
    for source in [v4(192, 0, 2, 30, 21116), v4(192, 0, 2, 20, 21117)] {
        let source = TargetAddr::Ip(source);
        assert!(!is_rendezvous_source(&source, &expected));
    }
}

#[test]
fn rendezvous_source_may_be_mapped_but_not_a_name() {
    let expected = TargetAddr::Ip(v4(192, 0, 2, 20, 21116));
    assert!(is_rendezvous_source(
        &TargetAddr::Ip(mapped(192, 0, 2, 20, 21116)),
        &expected
    ));
    assert!(!is_rendezvous_source(
        &TargetAddr::Domain("relay.test".to_owned(), 21116),
        &expected
    ));
    let loopback = SocketAddr::V6 {
        ip: 1,
        port: 1,
        flowinfo: 0,
        scope_id: 0,
    };
    assert_eq!(try_into_v4(loopback), loopback);
}
