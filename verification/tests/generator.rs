use tunnel_preflight::net::{IpAddress, Ipv4Address, Ipv6Address, SocketAddress};
use tunnel_preflight::tunnel::error::{to_engine_outcome, Error, ParameterGenerationError};
use tunnel_preflight::tunnel::generation::{Generation, Reply, Request, Settings, Stage};
use tunnel_preflight::tunnel::generator::{Flight, ParametersGenerator, Progress};
use tunnel_preflight::tunnel::migration::{Binary32, VersionCache};
use tunnel_preflight::tunnel::parameters::{
    Endpoint, GenericOptions, ObfuscatorConfig, OpenVpnConnectionConfig, OpenVpnOptions,
    OpenVpnParameters, PeerConfig, PrivateKey, ProxySettings, PublicKey, TransportProtocol,
    TunnelConfig, TunnelOptions, TunnelParameters, WireguardConnectionConfig, WireguardOptions,
    WireguardParameters, WireguardSettings,
};
use tunnel_preflight::tunnel::relay::{
    take_hostname, Coordinate, GeoIpLocation, LastSelectedRelays, Location, Relay,
};
use tunnel_preflight::tunnel::selection::{
    AccountAndDevice, CustomConnectionConfig, CustomTunnelEndpoint, MullvadEndpoint,
    MullvadWireguardEndpoint, NormalSelectedBridge, NormalSelectedRelay, SelectedBridge,
    SelectedObfuscator, SelectedRelay, Selection, SelectorError,
};

fn value(x: f32) -> Binary32 {
    Binary32::from_bits(x.to_bits())
}

fn options() -> TunnelOptions {
    TunnelOptions {
        openvpn: OpenVpnOptions { mssfix: Some(1300) },
        wireguard: WireguardSettings {
            options: WireguardOptions { mtu: Some(1380) },
            rotation_interval: Some(86_400),
        },
        generic: GenericOptions { enable_ipv6: true },
    }
}

fn other_options() -> TunnelOptions {
    TunnelOptions {
        openvpn: OpenVpnOptions { mssfix: None },
        wireguard: WireguardSettings {
            options: WireguardOptions { mtu: Some(1280) },
            rotation_interval: None,
        },
        generic: GenericOptions { enable_ipv6: false },
    }
}

fn relay(hostname: &str, city: &str) -> Relay {
    Relay {
        hostname: hostname.to_string(),
        location: Some(Location {
            country: "Sweden".to_string(),
            city: city.to_string(),
            latitude: Coordinate { bits: 57.70887f64.to_bits() },
            longitude: Coordinate { bits: 11.97456f64.to_bits() },
        }),
    }
}

fn socket(last: u8, port: u16) -> SocketAddress {
    SocketAddress::v4(Ipv4Address::new(185, 213, 154, last), port)
}

fn peer(tag: u8) -> PeerConfig {
    PeerConfig { public_key: PublicKey { bytes: [tag; 32] }, endpoint: socket(tag, 51820) }
}

fn wireguard_endpoint() -> MullvadWireguardEndpoint {
    MullvadWireguardEndpoint {
        peer: peer(1),
        exit_peer: Some(peer(2)),
        ipv4_gateway: Ipv4Address::new(10, 64, 0, 1),
        ipv6_gateway: Ipv6Address::new(0xfc00, 0xbbbb, 0xbbbb, 0xbb01, 0, 0, 0, 1),
    }
}

fn openvpn_endpoint() -> Endpoint {
    Endpoint { address: socket(7, 1194), protocol: TransportProtocol::Udp }
}

fn device() -> AccountAndDevice {
    AccountAndDevice {
        account_token: "1234567890123456".to_string(),
        private_key: PrivateKey { bytes: [9; 32] },
        ipv4_address: Ipv4Address::new(10, 99, 0, 7),
        ipv6_address: Ipv6Address::new(0xfc00, 0xbbbb, 0xbbbb, 0xbb01, 0, 0, 0, 7),
    }
}

fn obfuscator() -> SelectedObfuscator {
    SelectedObfuscator {
        config: ObfuscatorConfig::Udp2Tcp { endpoint: socket(3, 443) },
        relay: relay("se-got-obf-001", "Gothenburg"),
    }
}

fn bridge() -> SelectedBridge {
    SelectedBridge::Normal(NormalSelectedBridge {
        settings: ProxySettings::Shadowsocks { peer: socket(5, 443) },
        relay: relay("se-got-br-001", "Gothenburg"),
    })
}

fn wireguard_selection() -> Selection {
    Selection {
        relay: SelectedRelay::Normal(NormalSelectedRelay {
            exit_relay: relay("se-got-wg-001", "Gothenburg"),
            entry_relay: Some(relay("se-sto-wg-002", "Stockholm")),
            endpoint: MullvadEndpoint::Wireguard(wireguard_endpoint()),
        }),
        bridge: None,
        obfuscator: Some(obfuscator()),
    }
}

fn openvpn_selection() -> Selection {
    Selection {
        relay: SelectedRelay::Normal(NormalSelectedRelay {
            exit_relay: relay("se-got-ovpn-001", "Gothenburg"),
            entry_relay: None,
            endpoint: MullvadEndpoint::OpenVpn(openvpn_endpoint()),
        }),
        bridge: Some(bridge()),
        obfuscator: None,
    }
}

fn custom_endpoint() -> CustomTunnelEndpoint {
    CustomTunnelEndpoint {
        host: "vpn.example.com".to_string(),
        config: CustomConnectionConfig::OpenVpn(OpenVpnConnectionConfig {
            endpoint: openvpn_endpoint(),
            username: "user".to_string(),
            password: "secret".to_string(),
        }),
    }
}

fn custom_parameters() -> TunnelParameters {
    TunnelParameters::OpenVpn(OpenVpnParameters {
        config: OpenVpnConnectionConfig {
            endpoint: openvpn_endpoint(),
            username: "user".to_string(),
            password: "secret".to_string(),
        },
        options: options().openvpn,
        generic_options: options().generic,
        proxy: None,
    })
}

fn pending(progress: Progress) -> (Flight, Request) {
    match progress {
        Progress::Pending(flight, request) => (flight, request),
        other => panic!("the generation does not go on: {:?}", other),
    }
}

fn mismatch(progress: Progress) -> Flight {
    match progress {
        Progress::Mismatch(flight) => flight,
        other => panic!("the reply was taken: {:?}", other),
    }
}

/// Drives a generation to the point where the relay selector has been asked.
fn up_to_selection(
    generator: &mut ParametersGenerator,
    retry_attempt: u32,
    cache: Option<VersionCache>,
    draw: f32,
) -> (Flight, Request) {
    let (flight, request) = generator.begin(retry_attempt);
    assert_eq!(request, Request::LoadVersionCache);
    let (flight, request) = pending(flight.advance(Reply::VersionCache(cache)));
    assert_eq!(request, Request::LoadSettings);
    let settings = Settings { migration_random: Some(value(draw)) };
    let (flight, request) = pending(flight.advance(Reply::Settings(settings)));
    assert_eq!(request, Request::QueryDevice);
    pending(flight.advance(Reply::Device(Some(device()))))
}

/// Runs a whole generation for a selection of the relay selector.
fn generate(
    generator: &mut ParametersGenerator,
    selection: Result<Selection, SelectorError>,
    data: Option<AccountAndDevice>,
) -> Result<TunnelParameters, Error> {
    let (flight, _) = up_to_selection(generator, 0, None, 0.5);
    match flight.advance(Reply::Relay(selection)) {
        Progress::Done(outcome) => outcome,
        Progress::Pending(flight, Request::QueryDevice) => {
            assert!(flight.advances(&Reply::Device(data.clone())));
            match flight.advance(Reply::Device(data)) {
                Progress::Done(outcome) => outcome,
                other => panic!("the generation is not over: {:?}", other),
            }
        }
        other => panic!("unexpected progress: {:?}", other),
    }
}

#[test]
fn new_generator_has_no_location() {
    let generator = ParametersGenerator::new(options(), true);
    assert!(generator.knows_location());
    assert_eq!(generator.get_last_location(), None);
}

#[test]
fn generation_starts_with_the_version_cache() {
    let mut generator = ParametersGenerator::new(options(), true);
    let (flight, request) = generator.begin(4);
    assert_eq!(flight.generation, Generation { retry_attempt: 4, stage: Stage::VersionCache });
    assert_eq!(request, Request::LoadVersionCache);
}

#[test]
fn selector_is_asked_with_attempt_and_preference() {
    let mut generator = ParametersGenerator::new(options(), true);
    let cache = Some(VersionCache { threshold: Some(value(0.3)) });
    let (flight, request) = up_to_selection(&mut generator, 5, cache, 0.2);
    assert_eq!(flight.generation, Generation { retry_attempt: 5, stage: Stage::Relay });
    assert_eq!(request, Request::SelectRelay { retry_attempt: 5, default_to_new_protocol: true });
    let (_, request) = up_to_selection(&mut generator, 6, cache, 0.4);
    assert_eq!(request, Request::SelectRelay { retry_attempt: 6, default_to_new_protocol: false });
}

#[test]
fn unreadable_cache_prefers_new_protocol() {
    let mut generator = ParametersGenerator::new(options(), true);
    for draw in [0.0f32, 0.3, 0.999_999_94] {
        let (_, request) = up_to_selection(&mut generator, 0, None, draw);
        assert_eq!(request, Request::SelectRelay { retry_attempt: 0, default_to_new_protocol: true });
        let cache = Some(VersionCache { threshold: None });
        let (_, request) = up_to_selection(&mut generator, 0, cache, draw);
        assert_eq!(request, Request::SelectRelay { retry_attempt: 0, default_to_new_protocol: true });
    }
}

#[test]
fn zero_threshold_prefers_old_protocol() {
    let mut generator = ParametersGenerator::new(options(), true);
    let cache = Some(VersionCache { threshold: Some(value(0.0)) });
    for draw in [0.0f32, 0.3, 0.999_999_94] {
        let (_, request) = up_to_selection(&mut generator, 1, cache, draw);
        assert_eq!(request, Request::SelectRelay { retry_attempt: 1, default_to_new_protocol: false });
    }
}

#[test]
fn missing_draw_is_drawn_and_stored() {
    let mut generator = ParametersGenerator::new(options(), true);
    let (flight, _) = generator.begin(2);
    let cache = Some(VersionCache { threshold: Some(value(0.5)) });
    let (flight, _) = pending(flight.advance(Reply::VersionCache(cache)));
    let (flight, request) =
        pending(flight.advance(Reply::Settings(Settings { migration_random: None })));
    assert_eq!(request, Request::DrawRandom);
    assert_eq!(flight.generation.stage, Stage::Draw { threshold: value(0.5) });
    let (flight, request) = pending(flight.advance(Reply::Random(value(0.75))));
    assert_eq!(request, Request::PersistRandom(value(0.75)));
    assert_eq!(flight.generation.stage, Stage::Persist { default_to_new_protocol: false });
    let (flight, request) = pending(flight.advance(Reply::Persisted(true)));
    assert_eq!(request, Request::QueryDevice);
    let (_, request) = pending(flight.advance(Reply::Device(Some(device()))));
    assert_eq!(request, Request::SelectRelay { retry_attempt: 2, default_to_new_protocol: false });
}

#[test]
fn draw_that_could_not_be_stored_is_still_used() {
    let mut generator = ParametersGenerator::new(options(), true);
    let (flight, _) = generator.begin(0);
    let (flight, _) = pending(flight.advance(Reply::VersionCache(None)));
    let (flight, _) = pending(flight.advance(Reply::Settings(Settings { migration_random: None })));
    let (flight, _) = pending(flight.advance(Reply::Random(value(0.9))));
    let (flight, request) = pending(flight.advance(Reply::Persisted(false)));
    assert_eq!(request, Request::QueryDevice);
    assert_eq!(flight.generation.stage, Stage::Device { default_to_new_protocol: true });
}

#[test]
fn stored_draw_is_reused_not_redrawn() {
    let mut generator = ParametersGenerator::new(options(), true);
    let cache = Some(VersionCache { threshold: Some(value(0.5)) });
    let stored = Settings { migration_random: Some(value(0.75)) };
    for attempt in 0..3 {
        let (flight, _) = generator.begin(attempt);
        let (flight, _) = pending(flight.advance(Reply::VersionCache(cache)));
        let (flight, request) = pending(flight.advance(Reply::Settings(stored)));
        assert_eq!(request, Request::QueryDevice);
        assert_eq!(flight.generation.stage, Stage::Device { default_to_new_protocol: false });
    }
}

#[test]
fn no_device_is_no_auth_details() {
    let mut generator = ParametersGenerator::new(options(), true);
    let (flight, _) = generator.begin(0);
    let (flight, _) = pending(flight.advance(Reply::VersionCache(None)));
    let settings = Settings { migration_random: Some(value(0.5)) };
    let (flight, _) = pending(flight.advance(Reply::Settings(settings)));
    assert_eq!(flight.advance(Reply::Device(None)), Progress::Done(Err(Error::NoAuthDetails)));
}

#[test]
fn device_lost_before_building_is_no_auth_details() {
    let mut generator = ParametersGenerator::new(options(), true);
    assert_eq!(generate(&mut generator, Ok(wireguard_selection()), None), Err(Error::NoAuthDetails));
    assert_eq!(generator.get_last_location(), None);
}

#[test]
fn missing_bridge_is_no_bridge_available() {
    let mut generator = ParametersGenerator::new(options(), true);
    assert_eq!(
        generate(&mut generator, Err(SelectorError::NoBridge), Some(device())),
        Err(Error::NoBridgeAvailable)
    );
}

#[test]
fn other_selector_failure_is_no_relay_available() {
    let mut generator = ParametersGenerator::new(options(), true);
    assert_eq!(
        generate(&mut generator, Err(SelectorError::Other), Some(device())),
        Err(Error::NoRelayAvailable)
    );
}

#[test]
fn wireguard_parameters_are_built_from_device_and_endpoint() {
    let mut generator = ParametersGenerator::new(options(), true);
    let parameters = generate(&mut generator, Ok(wireguard_selection()), Some(device())).unwrap();
    let expected = TunnelParameters::Wireguard(WireguardParameters {
        connection: WireguardConnectionConfig {
            tunnel: TunnelConfig {
                private_key: PrivateKey { bytes: [9; 32] },
                addresses: vec![
                    IpAddress::V4(Ipv4Address::new(10, 99, 0, 7)),
                    IpAddress::V6(Ipv6Address::new(0xfc00, 0xbbbb, 0xbbbb, 0xbb01, 0, 0, 0, 7)),
                ],
            },
            peer: peer(1),
            exit_peer: Some(peer(2)),
            ipv4_gateway: Ipv4Address::new(10, 64, 0, 1),
            ipv6_gateway: Some(Ipv6Address::new(0xfc00, 0xbbbb, 0xbbbb, 0xbb01, 0, 0, 0, 1)),
        },
        options: WireguardOptions { mtu: Some(1380) },
        generic_options: GenericOptions { enable_ipv6: true },
        obfuscation: Some(ObfuscatorConfig::Udp2Tcp { endpoint: socket(3, 443) }),
    });
    assert_eq!(parameters, expected);
}

#[test]
fn openvpn_parameters_are_built_from_account_and_bridge() {
    let mut generator = ParametersGenerator::new(options(), true);
    let parameters = generate(&mut generator, Ok(openvpn_selection()), Some(device())).unwrap();
    let expected = TunnelParameters::OpenVpn(OpenVpnParameters {
        config: OpenVpnConnectionConfig {
            endpoint: openvpn_endpoint(),
            username: "1234567890123456".to_string(),
            password: "-".to_string(),
        },
        options: OpenVpnOptions { mssfix: Some(1300) },
        generic_options: GenericOptions { enable_ipv6: true },
        proxy: Some(ProxySettings::Shadowsocks { peer: socket(5, 443) }),
    });
    assert_eq!(parameters, expected);
}

#[test]
fn openvpn_with_custom_bridge_keeps_settings_and_no_bridge_relay() {
    let mut generator = ParametersGenerator::new(options(), true);
    let mut selection = openvpn_selection();
    let settings = ProxySettings::Local { port: 1080, peer: socket(8, 22) };
    selection.bridge = Some(SelectedBridge::Custom(settings));
    match generate(&mut generator, Ok(selection), Some(device())).unwrap() {
        TunnelParameters::OpenVpn(parameters) => assert_eq!(parameters.proxy, Some(settings)),
        other => panic!("not an OpenVPN tunnel: {:?}", other),
    }
    let location = generator.get_last_location().unwrap();
    assert_eq!(location.hostname, Some("se-got-ovpn-001".to_string()));
    assert_eq!(location.bridge_hostname, None);
}

#[test]
fn openvpn_without_bridge_has_no_proxy() {
    let mut generator = ParametersGenerator::new(options(), true);
    let mut selection = openvpn_selection();
    selection.bridge = None;
    match generate(&mut generator, Ok(selection), Some(device())).unwrap() {
        TunnelParameters::OpenVpn(parameters) => assert_eq!(parameters.proxy, None),
        other => panic!("not an OpenVPN tunnel: {:?}", other),
    }
    assert_eq!(generator.get_last_location().unwrap().bridge_hostname, None);
}

#[test]
fn wireguard_without_obfuscator_or_entry() {
    let mut generator = ParametersGenerator::new(options(), true);
    let selection = Selection {
        relay: SelectedRelay::Normal(NormalSelectedRelay {
            exit_relay: relay("se-got-wg-001", "Gothenburg"),
            entry_relay: None,
            endpoint: MullvadEndpoint::Wireguard(MullvadWireguardEndpoint {
                exit_peer: None,
                ..wireguard_endpoint()
            }),
        }),
        bridge: Some(bridge()),
        obfuscator: None,
    };
    match generate(&mut generator, Ok(selection), Some(device())).unwrap() {
        TunnelParameters::Wireguard(parameters) => {
            assert_eq!(parameters.obfuscation, None);
            assert_eq!(parameters.connection.exit_peer, None);
            assert_eq!(parameters.connection.peer, peer(1));
        }
        other => panic!("not a WireGuard tunnel: {:?}", other),
    }
    let location = generator.get_last_location().unwrap();
    assert_eq!(location.entry_hostname, None);
    assert_eq!(location.obfuscator_hostname, None);
    assert_eq!(location.bridge_hostname, None);
}

#[test]
fn location_after_wireguard_generation() {
    let mut generator = ParametersGenerator::new(options(), true);
    generate(&mut generator, Ok(wireguard_selection()), Some(device())).unwrap();
    assert!(generator.knows_location());
    let expected = GeoIpLocation {
        ipv4: None,
        ipv6: None,
        country: "Sweden".to_string(),
        city: Some("Gothenburg".to_string()),
        latitude: Coordinate { bits: 57.70887f64.to_bits() },
        longitude: Coordinate { bits: 11.97456f64.to_bits() },
        mullvad_exit_ip: true,
        hostname: Some("se-got-wg-001".to_string()),
        bridge_hostname: None,
        entry_hostname: Some("se-sto-wg-002".to_string()),
        obfuscator_hostname: Some("se-got-obf-001".to_string()),
    };
    assert_eq!(generator.get_last_location(), Some(expected));
}

#[test]
fn location_after_openvpn_generation() {
    let mut generator = ParametersGenerator::new(options(), true);
    generate(&mut generator, Ok(openvpn_selection()), Some(device())).unwrap();
    let expected = GeoIpLocation {
        ipv4: None,
        ipv6: None,
        country: "Sweden".to_string(),
        city: Some("Gothenburg".to_string()),
        latitude: Coordinate { bits: 57.70887f64.to_bits() },
        longitude: Coordinate { bits: 11.97456f64.to_bits() },
        mullvad_exit_ip: true,
        hostname: Some("se-got-ovpn-001".to_string()),
        bridge_hostname: Some("se-got-br-001".to_string()),
        entry_hostname: None,
        obfuscator_hostname: None,
    };
    assert_eq!(generator.get_last_location(), Some(expected));
}

#[test]
fn last_relays_are_overwritten_not_merged() {
    let mut generator = ParametersGenerator::new(options(), true);
    generate(&mut generator, Ok(wireguard_selection()), Some(device())).unwrap();
    generate(&mut generator, Ok(openvpn_selection()), Some(device())).unwrap();
    let location = generator.get_last_location().unwrap();
    assert_eq!(location.hostname, Some("se-got-ovpn-001".to_string()));
    assert_eq!(location.entry_hostname, None);
    assert_eq!(location.obfuscator_hostname, None);
    assert_eq!(location.bridge_hostname, Some("se-got-br-001".to_string()));
}

#[test]
fn failed_generation_keeps_the_last_location() {
    let mut generator = ParametersGenerator::new(options(), true);
    generate(&mut generator, Ok(wireguard_selection()), Some(device())).unwrap();
    let before = generator.get_last_location();
    assert_eq!(
        generate(&mut generator, Err(SelectorError::Other), Some(device())),
        Err(Error::NoRelayAvailable)
    );
    assert_eq!(generate(&mut generator, Ok(openvpn_selection()), None), Err(Error::NoAuthDetails));
    assert_eq!(generator.get_last_location(), before);
}

#[test]
fn abandoned_generation_leaves_no_trace() {
    let mut generator = ParametersGenerator::new(options(), true);
    let untouched = generator.clone();
    let (flight, _) = up_to_selection(&mut generator, 0, None, 0.5);
    let (flight, request) = pending(flight.advance(Reply::Relay(Ok(wireguard_selection()))));
    assert_eq!(request, Request::QueryDevice);
    drop(flight);
    assert_eq!(generator, untouched);
    assert_eq!(generator.get_last_location(), None);
}

#[test]
fn generations_take_effect_one_after_the_other() {
    let mut generator = ParametersGenerator::new(options(), true);
    let (first, _) = up_to_selection(&mut generator, 0, None, 0.5);
    let (first, _) = pending(first.advance(Reply::Relay(Ok(wireguard_selection()))));
    assert_eq!(first.generator.get_last_location(), None);
    assert!(matches!(
        first.advance(Reply::Device(Some(device()))),
        Progress::Done(Ok(TunnelParameters::Wireguard(_)))
    ));
    let location = generator.get_last_location().unwrap();
    assert_eq!(location.hostname, Some("se-got-wg-001".to_string()));
    let (second, _) = up_to_selection(&mut generator, 1, None, 0.5);
    let (second, _) = pending(second.advance(Reply::Relay(Ok(openvpn_selection()))));
    assert_eq!(
        second.generator.get_last_location().unwrap().hostname,
        Some("se-got-wg-001".to_string())
    );
    assert!(matches!(
        second.advance(Reply::Device(Some(device()))),
        Progress::Done(Ok(TunnelParameters::OpenVpn(_)))
    ));
    let location = generator.get_last_location().unwrap();
    assert_eq!(location.hostname, Some("se-got-ovpn-001".to_string()));
    assert_eq!(location.entry_hostname, None);
}

#[test]
fn custom_relay_is_resolved_outside() {
    let mut generator = ParametersGenerator::new(options(), true);
    let (flight, _) = up_to_selection(&mut generator, 0, None, 0.5);
    let selection = Selection {
        relay: SelectedRelay::Custom(custom_endpoint()),
        bridge: Some(bridge()),
        obfuscator: Some(obfuscator()),
    };
    let (flight, request) = pending(flight.advance(Reply::Relay(Ok(selection))));
    assert_eq!(
        request,
        Request::ResolveCustomRelay { relay: custom_endpoint(), tunnel_options: options() }
    );
    assert_eq!(flight.generation.stage, Stage::CustomResolution);
    assert_eq!(
        flight.advance(Reply::CustomResolved(Some(custom_parameters()))),
        Progress::Done(Ok(custom_parameters()))
    );
    assert_eq!(generator.get_last_location(), None);
}

#[test]
fn custom_relay_that_does_not_resolve() {
    let mut generator = ParametersGenerator::new(options(), true);
    let (flight, _) = up_to_selection(&mut generator, 0, None, 0.5);
    let selection =
        Selection { relay: SelectedRelay::Custom(custom_endpoint()), bridge: None, obfuscator: None };
    let (flight, _) = pending(flight.advance(Reply::Relay(Ok(selection))));
    assert_eq!(
        flight.advance(Reply::CustomResolved(None)),
        Progress::Done(Err(Error::ResolveCustomHostname))
    );
}

#[test]
fn custom_relay_keeps_the_location_of_the_last_listed_relay() {
    let mut generator = ParametersGenerator::new(options(), true);
    generate(&mut generator, Ok(wireguard_selection()), Some(device())).unwrap();
    let before = generator.get_last_location();
    let (flight, _) = up_to_selection(&mut generator, 0, None, 0.5);
    let selection =
        Selection { relay: SelectedRelay::Custom(custom_endpoint()), bridge: None, obfuscator: None };
    let (flight, _) = pending(flight.advance(Reply::Relay(Ok(selection))));
    assert!(matches!(
        flight.advance(Reply::CustomResolved(Some(custom_parameters()))),
        Progress::Done(Ok(_))
    ));
    assert_eq!(generator.get_last_location(), before);
}

#[test]
fn new_options_take_effect_on_the_next_generation() {
    let mut generator = ParametersGenerator::new(options(), true);
    generator.set_tunnel_options(&other_options());
    match generate(&mut generator, Ok(wireguard_selection()), Some(device())).unwrap() {
        TunnelParameters::Wireguard(parameters) => {
            assert_eq!(parameters.options, WireguardOptions { mtu: Some(1280) });
            assert_eq!(parameters.generic_options, GenericOptions { enable_ipv6: false });
        }
        other => panic!("not a WireGuard tunnel: {:?}", other),
    }
    match generate(&mut generator, Ok(openvpn_selection()), Some(device())).unwrap() {
        TunnelParameters::OpenVpn(parameters) => {
            assert_eq!(parameters.options, OpenVpnOptions { mssfix: None });
            assert_eq!(parameters.generic_options, GenericOptions { enable_ipv6: false });
        }
        other => panic!("not an OpenVPN tunnel: {:?}", other),
    }
}

#[test]
fn set_tunnel_options_keeps_the_last_location() {
    let mut generator = ParametersGenerator::new(options(), true);
    generate(&mut generator, Ok(wireguard_selection()), Some(device())).unwrap();
    let before = generator.get_last_location();
    generator.set_tunnel_options(&other_options());
    assert_eq!(generator.get_last_location(), before);
}

#[test]
fn reply_of_the_wrong_kind_changes_nothing() {
    let mut generator = ParametersGenerator::new(options(), true);
    let (flight, _) = generator.begin(9);
    let flight = mismatch(flight.advance(Reply::Persisted(true)));
    assert_eq!(flight.generation, Generation { retry_attempt: 9, stage: Stage::VersionCache });
    let (flight, request) = pending(flight.advance(Reply::VersionCache(None)));
    assert_eq!(request, Request::LoadSettings);
    drop(flight);
    let (flight, _) = up_to_selection(&mut generator, 9, None, 0.5);
    assert!(!flight.generation.expects(&Reply::Device(Some(device()))));
    assert!(flight.generation.expects(&Reply::Relay(Err(SelectorError::Other))));
    let flight = mismatch(flight.advance(Reply::Device(Some(device()))));
    assert_eq!(flight.generation, Generation { retry_attempt: 9, stage: Stage::Relay });
    drop(flight);
    assert_eq!(generator, ParametersGenerator::new(options(), true));
}

#[test]
fn platform_without_openvpn_builds_wireguard_only() {
    let mut generator = ParametersGenerator::new(options(), false);
    assert!(generator.builds(&MullvadEndpoint::Wireguard(wireguard_endpoint())));
    assert!(!generator.builds(&MullvadEndpoint::OpenVpn(openvpn_endpoint())));
    let (flight, _) = up_to_selection(&mut generator, 0, None, 0.5);
    let (flight, _) = pending(flight.advance(Reply::Relay(Ok(openvpn_selection()))));
    assert!(!flight.advances(&Reply::Device(Some(device()))));
    assert!(flight.advances(&Reply::Device(None)));
    assert_eq!(flight.advance(Reply::Device(None)), Progress::Done(Err(Error::NoAuthDetails)));
    assert!(generate(&mut generator, Ok(wireguard_selection()), Some(device())).is_ok());
}

#[test]
fn create_tunnel_parameters_records_the_relays() {
    let mut generator = ParametersGenerator::new(options(), true);
    let parameters = generator.create_tunnel_parameters(
        relay("se-got-wg-001", "Gothenburg"),
        None,
        MullvadEndpoint::Wireguard(wireguard_endpoint()),
        None,
        Some(obfuscator()),
        device(),
    );
    assert!(matches!(parameters, TunnelParameters::Wireguard(_)));
    let location = generator.get_last_location().unwrap();
    assert_eq!(location.hostname, Some("se-got-wg-001".to_string()));
    assert_eq!(location.obfuscator_hostname, Some("se-got-obf-001".to_string()));
    assert_eq!(location.entry_hostname, None);
}

#[test]
fn relay_without_location_cannot_be_reported() {
    let mut generator = ParametersGenerator::new(options(), true);
    let unlocated = Relay { hostname: "se-got-wg-001".to_string(), location: None };
    generator.create_tunnel_parameters(
        unlocated,
        None,
        MullvadEndpoint::Wireguard(wireguard_endpoint()),
        None,
        None,
        device(),
    );
    assert!(!generator.knows_location());
}

#[test]
fn relays_report_the_location_of_the_exit() {
    let relays = LastSelectedRelays::WireGuard {
        wg_entry: Some(relay("se-sto-wg-002", "Stockholm")),
        wg_exit: relay("se-got-wg-001", "Gothenburg"),
        obfuscator: None,
    };
    assert!(relays.is_located());
    let location = relays.to_location();
    assert_eq!(location.city, Some("Gothenburg".to_string()));
    assert_eq!(location.country, "Sweden".to_string());
    assert!(location.mullvad_exit_ip);
    assert_eq!(location.ipv4, None);
    assert_eq!(location.ipv6, None);
    assert_eq!(take_hostname(&Some(relay("a", "b"))), Some("a".to_string()));
    assert_eq!(take_hostname(&None), None);
}

#[test]
fn relay_clone_is_equal() {
    let original = relay("se-got-wg-001", "Gothenburg");
    assert_eq!(original.clone(), original);
    let unlocated = Relay { hostname: "x".to_string(), location: None };
    assert_eq!(unlocated.clone(), unlocated);
}

#[test]
fn errors_are_narrowed_for_the_engine() {
    assert_eq!(Error::NoBridgeAvailable.narrow(), ParameterGenerationError::NoMatchingBridgeRelay);
    assert_eq!(
        Error::ResolveCustomHostname.narrow(),
        ParameterGenerationError::CustomTunnelHostResolutionError
    );
    assert_eq!(Error::NoAuthDetails.narrow(), ParameterGenerationError::NoMatchingRelay);
    assert_eq!(Error::NoRelayAvailable.narrow(), ParameterGenerationError::NoMatchingRelay);
}

#[test]
fn only_the_retry_cases_keep_their_cause() {
    assert!(Error::NoBridgeAvailable.keeps_cause());
    assert!(Error::ResolveCustomHostname.keeps_cause());
    assert!(!Error::NoAuthDetails.keeps_cause());
    assert!(!Error::NoRelayAvailable.keeps_cause());
}

#[test]
fn engine_outcome_passes_parameters_and_narrows_errors() {
    assert_eq!(to_engine_outcome(Ok(custom_parameters())), Ok(custom_parameters()));
    assert_eq!(
        to_engine_outcome(Err(Error::NoAuthDetails)),
        Err(ParameterGenerationError::NoMatchingRelay)
    );
    assert_eq!(
        to_engine_outcome(Err(Error::NoBridgeAvailable)),
        Err(ParameterGenerationError::NoMatchingBridgeRelay)
    );
}
