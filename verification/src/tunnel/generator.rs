//! The tunnel parameter generator.
//!
//! A generator holds the tunnel options in force and the relays of the last
//! successful generation. One generation is a conversation with the outside:
//! each step names a request, and the reply to it decides the next step. A
//! generation holds the generator from its first step to its last, so that
//! generations on one generator follow one another and never alternate. The
//! generator itself changes in one step only, the one that builds parameters
//! for a relay of the relay list.

use crate::net::IpAddress;
use crate::tunnel::error::Error;
use crate::tunnel::generation::{Generation, ProgressView, Reply, Request, Stage};
use crate::tunnel::migration::{
    default_to_new_protocol, migration_threshold, prefers_new_protocol, threshold_in_force,
};
use crate::tunnel::parameters::{
    ObfuscatorConfig, OpenVpnConnectionConfig, OpenVpnConnectionConfigView, OpenVpnParameters,
    OpenVpnParametersView, ProxySettings, TunnelConfig, TunnelConfigView, TunnelOptions,
    TunnelParameters, TunnelParametersView, WireguardConnectionConfig,
    WireguardConnectionConfigView, WireguardParameters, WireguardParametersView,
};
use crate::tunnel::relay::{GeoIpLocation, LastSelectedRelays, Relay};
use crate::tunnel::selection::{
    AccountAndDevice, MullvadEndpoint, SelectedBridge, SelectedObfuscator, SelectedRelay,
    Selection, SelectorError,
};
use vstd::prelude::*;

verus! {

/// The proxy settings that a selected bridge brings.
pub open spec fn bridge_settings(bridge: Option<SelectedBridge>) -> Option<ProxySettings> {
    match bridge {
        Some(bridge) => Some(bridge.settings()),
        None => None,
    }
}

/// The relay behind a selected bridge.
pub open spec fn bridge_relay(bridge: Option<SelectedBridge>) -> Option<Relay> {
    match bridge {
        Some(bridge) => bridge.relay(),
        None => None,
    }
}

/// The configuration that a selected obfuscator brings.
pub open spec fn obfuscator_config(obfuscator: Option<SelectedObfuscator>) -> Option<
    ObfuscatorConfig,
> {
    match obfuscator {
        Some(obfuscator) => Some(obfuscator.config),
        None => None,
    }
}

/// The relay of a selected obfuscator.
pub open spec fn obfuscator_relay(obfuscator: Option<SelectedObfuscator>) -> Option<Relay> {
    match obfuscator {
        Some(obfuscator) => Some(obfuscator.relay),
        None => None,
    }
}

/// The relays to remember for a tunnel to `endpoint`.
pub open spec fn relays_selected(
    relay: Relay,
    entry_relay: Option<Relay>,
    endpoint: MullvadEndpoint,
    bridge: Option<SelectedBridge>,
    obfuscator: Option<SelectedObfuscator>,
) -> LastSelectedRelays {
    match endpoint {
        MullvadEndpoint::OpenVpn(_) => LastSelectedRelays::OpenVpn {
            relay,
            bridge: bridge_relay(bridge),
        },
        MullvadEndpoint::Wireguard(_) => LastSelectedRelays::WireGuard {
            wg_entry: entry_relay,
            wg_exit: relay,
            obfuscator: obfuscator_relay(obfuscator),
        },
    }
}

/// The parameters of a tunnel to `endpoint` for the device `data` under
/// `options`. An OpenVPN tunnel authenticates with the account token as its
/// user name and `-` as its password, and goes through the proxy of the
/// bridge. A WireGuard tunnel uses the key of the device and its two
/// addresses, IPv4 first, and the configuration of the obfuscator.
pub open spec fn parameters_for(
    options: TunnelOptions,
    endpoint: MullvadEndpoint,
    bridge: Option<SelectedBridge>,
    obfuscator: Option<SelectedObfuscator>,
    data: AccountAndDevice,
) -> TunnelParametersView {
    match endpoint {
        MullvadEndpoint::OpenVpn(endpoint) => TunnelParametersView::OpenVpn(
            OpenVpnParametersView {
                config: OpenVpnConnectionConfigView {
                    endpoint,
                    username: data.account_token@,
                    password: "-"@,
                },
                options: options.openvpn,
                generic_options: options.generic,
                proxy: bridge_settings(bridge),
            },
        ),
        MullvadEndpoint::Wireguard(endpoint) => TunnelParametersView::Wireguard(
            WireguardParametersView {
                connection: WireguardConnectionConfigView {
                    tunnel: TunnelConfigView {
                        private_key: data.private_key,
                        addresses: seq![
                            IpAddress::V4(data.ipv4_address),
                            IpAddress::V6(data.ipv6_address),
                        ],
                    },
                    peer: endpoint.peer,
                    exit_peer: endpoint.exit_peer,
                    ipv4_gateway: endpoint.ipv4_gateway,
                    ipv6_gateway: Some(endpoint.ipv6_gateway),
                },
                options: options.wireguard.options,
                generic_options: options.generic,
                obfuscation: obfuscator_config(obfuscator),
            },
        ),
    }
}

/// Generates tunnel parameters and remembers the relays they lead to.
#[derive(Clone, Debug, PartialEq, Eq)]
pub struct ParametersGenerator {
    tunnel_options: TunnelOptions,
    last_generated_relays: Option<LastSelectedRelays>,
    openvpn_supported: bool,
}

/// What a generator holds.
pub struct GeneratorView {
    /// The tunnel options in force.
    pub tunnel_options: TunnelOptions,
    /// The relays of the last successful generation for a relay of the relay
    /// list.
    pub last_generated_relays: Option<LastSelectedRelays>,
    /// Whether this platform runs OpenVPN tunnels.
    pub openvpn_supported: bool,
}

impl View for ParametersGenerator {
    type V = GeneratorView;

    closed spec fn view(&self) -> GeneratorView {
        GeneratorView {
            tunnel_options: self.tunnel_options,
            last_generated_relays: self.last_generated_relays,
            openvpn_supported: self.openvpn_supported,
        }
    }
}

impl GeneratorView {
    /// A generator that has generated nothing yet.
    pub open spec fn initial(
        tunnel_options: TunnelOptions,
        openvpn_supported: bool,
    ) -> GeneratorView {
        GeneratorView { tunnel_options, last_generated_relays: None, openvpn_supported }
    }

    /// Whether a location can be derived from what the generator remembers:
    /// it remembers nothing, or an exit relay that has a location.
    pub open spec fn location_known(self) -> bool {
        self.last_generated_relays matches Some(relays) ==> relays.located()
    }

    /// The location of the last generated tunnel parameters.
    pub open spec fn last_location(self) -> Option<GeoIpLocation>
        recommends
            self.location_known(),
    {
        match self.last_generated_relays {
            Some(relays) => Some(relays.location()),
            None => None,
        }
    }

    /// Whether the generator can build a tunnel to `endpoint`: every endpoint
    /// but an OpenVPN one on a platform without OpenVPN.
    pub open spec fn can_build(self, endpoint: MullvadEndpoint) -> bool {
        endpoint is OpenVpn ==> self.openvpn_supported
    }

    /// Whether the generator can take `reply` for `generation`: always, unless
    /// the reply would have it build an OpenVPN tunnel on a platform without
    /// OpenVPN.
    pub open spec fn can_advance(self, generation: Generation, reply: Reply) -> bool {
        match (generation.stage, reply) {
            (Stage::DeviceForParameters { relay, .. }, Reply::Device(Some(_))) => self.can_build(
                relay.endpoint,
            ),
            _ => true,
        }
    }

    /// The generator with other tunnel options.
    pub open spec fn with_options(self, tunnel_options: TunnelOptions) -> GeneratorView {
        GeneratorView { tunnel_options, ..self }
    }

    /// The generator after it has built parameters for these relays.
    pub open spec fn remembering(self, relays: LastSelectedRelays) -> GeneratorView {
        GeneratorView { last_generated_relays: Some(relays), ..self }
    }

    /// How a generation goes on from `reply`, and what becomes of the
    /// generator.
    ///
    /// From the version cache the threshold is decided. A number that the
    /// settings hold is used as it is; without one, a number is drawn, and is
    /// used whether or not it could be stored. Without a device the generation
    /// fails. A failure of the relay selector ends it; a custom relay is
    /// resolved outside, under the options in force; for a relay of the relay
    /// list the device is asked for again, and parameters are built for it.
    ///
    /// The generator changes in that last case only: it then remembers the
    /// selected relays. In every other case it stays as it was.
    pub open spec fn step(self, generation: Generation, reply: Reply) -> (
        GeneratorView,
        ProgressView,
    ) {
        match (generation.stage, reply) {
            (Stage::VersionCache, Reply::VersionCache(cache)) => (
                self,
                ProgressView::Pending(
                    generation.at(Stage::Settings { threshold: threshold_in_force(cache) }),
                    Request::LoadSettings,
                ),
            ),
            (Stage::Settings { threshold }, Reply::Settings(settings)) => (
                self,
                match settings.migration_random {
                    Some(draw) => ProgressView::Pending(
                        generation.at(
                            Stage::Device {
                                default_to_new_protocol: prefers_new_protocol(draw, threshold),
                            },
                        ),
                        Request::QueryDevice,
                    ),
                    None => ProgressView::Pending(
                        generation.at(Stage::Draw { threshold }),
                        Request::DrawRandom,
                    ),
                },
            ),
            (Stage::Draw { threshold }, Reply::Random(draw)) => (
                self,
                ProgressView::Pending(
                    generation.at(
                        Stage::Persist {
                            default_to_new_protocol: prefers_new_protocol(draw, threshold),
                        },
                    ),
                    Request::PersistRandom(draw),
                ),
            ),
            (Stage::Persist { default_to_new_protocol }, Reply::Persisted(_)) => (
                self,
                ProgressView::Pending(
                    generation.at(Stage::Device { default_to_new_protocol }),
                    Request::QueryDevice,
                ),
            ),
            (Stage::Device { default_to_new_protocol }, Reply::Device(device)) => (
                self,
                match device {
                    None => ProgressView::Done(Err(Error::NoAuthDetails)),
                    Some(_) => ProgressView::Pending(
                        generation.at(Stage::Relay),
                        Request::SelectRelay {
                            retry_attempt: generation.retry_attempt,
                            default_to_new_protocol,
                        },
                    ),
                },
            ),
            (Stage::Relay, Reply::Relay(outcome)) => (
                self,
                match outcome {
                    Err(SelectorError::NoBridge) => ProgressView::Done(
                        Err(Error::NoBridgeAvailable),
                    ),
                    Err(SelectorError::Other) => ProgressView::Done(Err(Error::NoRelayAvailable)),
                    Ok(Selection { relay: SelectedRelay::Custom(relay), .. }) => {
                        ProgressView::Pending(
                            generation.at(Stage::CustomResolution),
                            Request::ResolveCustomRelay {
                                relay,
                                tunnel_options: self.tunnel_options,
                            },
                        )
                    },
                    Ok(Selection { relay: SelectedRelay::Normal(relay), bridge, obfuscator }) => {
                        ProgressView::Pending(
                            generation.at(Stage::DeviceForParameters { relay, bridge, obfuscator }),
                            Request::QueryDevice,
                        )
                    },
                },
            ),
            (Stage::CustomResolution, Reply::CustomResolved(resolved)) => (
                self,
                match resolved {
                    Some(parameters) => ProgressView::Done(Ok(parameters@)),
                    None => ProgressView::Done(Err(Error::ResolveCustomHostname)),
                },
            ),
            (Stage::DeviceForParameters { relay, bridge, obfuscator }, Reply::Device(device)) => {
                match device {
                    None => (self, ProgressView::Done(Err(Error::NoAuthDetails))),
                    Some(data) => (
                        self.remembering(
                            relays_selected(
                                relay.exit_relay,
                                relay.entry_relay,
                                relay.endpoint,
                                bridge,
                                obfuscator,
                            ),
                        ),
                        ProgressView::Done(
                            Ok(
                                parameters_for(
                                    self.tunnel_options,
                                    relay.endpoint,
                                    bridge,
                                    obfuscator,
                                    data,
                                ),
                            ),
                        ),
                    ),
                }
            },
            _ => (self, ProgressView::Mismatch(generation)),
        }
    }

    /// How far a sequence of replies brings a generation, and what becomes of
    /// the generator: each reply is taken where the one before it left the
    /// generation, and the replies that follow the end of the generation, or
    /// a reply of the wrong kind, are not looked at. `request` is what the
    /// generation waits for before the first reply.
    pub open spec fn run(
        self,
        generation: Generation,
        request: Request,
        replies: Seq<Reply>,
    ) -> (GeneratorView, ProgressView)
        decreases replies.len(),
    {
        if replies.len() == 0 {
            (self, ProgressView::Pending(generation, request))
        } else {
            match self.step(generation, replies[0]) {
                (next, ProgressView::Pending(generation, request)) => next.run(
                    generation,
                    request,
                    replies.skip(1),
                ),
                over => over,
            }
        }
    }

    /// What a generation for the attempt after `retry_attempt` failed ones
    /// comes to with these replies.
    pub open spec fn generate(self, retry_attempt: u32, replies: Seq<Reply>) -> (
        GeneratorView,
        ProgressView,
    ) {
        self.run(Generation::initial(retry_attempt), Request::LoadVersionCache, replies)
    }
}

impl ParametersGenerator {
    /// A generator with the given tunnel options that has generated nothing
    /// yet. `openvpn_supported` says whether this platform runs OpenVPN tunnels.
    pub fn new(tunnel_options: TunnelOptions, openvpn_supported: bool) -> (generator:
        ParametersGenerator)
        ensures
            generator@ == GeneratorView::initial(tunnel_options, openvpn_supported),
    {
        ParametersGenerator { tunnel_options, last_generated_relays: None, openvpn_supported }
    }

    /// Sets the tunnel options to use when generating new tunnel parameters.
    pub fn set_tunnel_options(&mut self, tunnel_options: &TunnelOptions)
        ensures
            final(self)@ == old(self)@.with_options(*tunnel_options),
    {
        self.tunnel_options = *tunnel_options;
    }

    /// Tells whether `get_last_location` can be called.
    pub fn knows_location(&self) -> (known: bool)
        ensures
            known == self@.location_known(),
    {
        match &self.last_generated_relays {
            Some(relays) => relays.is_located(),
            None => true,
        }
    }

    /// Gets the location associated with the last generated tunnel parameters:
    /// none before the first successful generation for a relay of the relay
    /// list.
    pub fn get_last_location(&self) -> (location: Option<GeoIpLocation>)
        requires
            self@.location_known(),
        ensures
            location == self@.last_location(),
    {
        match &self.last_generated_relays {
            Some(relays) => Some(relays.to_location()),
            None => None,
        }
    }

    /// Tells whether the generator can build a tunnel to `endpoint`.
    pub fn builds(&self, endpoint: &MullvadEndpoint) -> (possible: bool)
        ensures
            possible == self@.can_build(*endpoint),
    {
        match endpoint {
            MullvadEndpoint::OpenVpn(_) => self.openvpn_supported,
            MullvadEndpoint::Wireguard(_) => true,
        }
    }

    /// Builds the parameters of a tunnel to `endpoint` of `relay` for the
    /// device `data`, and remembers the relays on the way.
    pub fn create_tunnel_parameters(
        &mut self,
        relay: Relay,
        entry_relay: Option<Relay>,
        endpoint: MullvadEndpoint,
        bridge: Option<SelectedBridge>,
        obfuscator: Option<SelectedObfuscator>,
        data: AccountAndDevice,
    ) -> (parameters: TunnelParameters)
        requires
            old(self)@.can_build(endpoint),
        ensures
            parameters@ == parameters_for(
                old(self)@.tunnel_options,
                endpoint,
                bridge,
                obfuscator,
                data,
            ),
            final(self)@ == old(self)@.remembering(
                relays_selected(relay, entry_relay, endpoint, bridge, obfuscator),
            ),
    {
        match endpoint {
            MullvadEndpoint::OpenVpn(endpoint) => {
                let (bridge_settings, bridge_relay) = match bridge {
                    Some(SelectedBridge::Normal(bridge)) => (
                        Some(bridge.settings),
                        Some(bridge.relay),
                    ),
                    Some(SelectedBridge::Custom(settings)) => (Some(settings), None),
                    None => (None, None),
                };
                self.last_generated_relays = Some(
                    LastSelectedRelays::OpenVpn { relay, bridge: bridge_relay },
                );
                TunnelParameters::OpenVpn(
                    OpenVpnParameters {
                        config: OpenVpnConnectionConfig::new(
                            endpoint,
                            data.account_token,
                            "-".to_string(),
                        ),
                        options: self.tunnel_options.openvpn,
                        generic_options: self.tunnel_options.generic,
                        proxy: bridge_settings,
                    },
                )
            },
            MullvadEndpoint::Wireguard(endpoint) => {
                let mut addresses: Vec<IpAddress> = Vec::new();
                addresses.push(IpAddress::V4(data.ipv4_address));
                addresses.push(IpAddress::V6(data.ipv6_address));
                assert(addresses@ =~= seq![
                    IpAddress::V4(data.ipv4_address),
                    IpAddress::V6(data.ipv6_address),
                ]);
                let tunnel = TunnelConfig { private_key: data.private_key, addresses };
                let (obfuscator_relay, obfuscator_config) = match obfuscator {
                    Some(obfuscator) => (Some(obfuscator.relay), Some(obfuscator.config)),
                    None => (None, None),
                };
                self.last_generated_relays = Some(
                    LastSelectedRelays::WireGuard {
                        wg_entry: entry_relay,
                        wg_exit: relay,
                        obfuscator: obfuscator_relay,
                    },
                );
                TunnelParameters::Wireguard(
                    WireguardParameters {
                        connection: WireguardConnectionConfig {
                            tunnel,
                            peer: endpoint.peer,
                            exit_peer: endpoint.exit_peer,
                            ipv4_gateway: endpoint.ipv4_gateway,
                            ipv6_gateway: Some(endpoint.ipv6_gateway),
                        },
                        options: self.tunnel_options.wireguard.options,
                        generic_options: self.tunnel_options.generic,
                        obfuscation: obfuscator_config,
                    },
                )
            },
        }
    }

    /// Begins a generation for an attempt that follows `retry_attempt` failed
    /// ones. The generation holds the generator until it is over or given up,
    /// so that no other generation, and no other use of the generator, can
    /// come between its steps. Its first request is for the version cache.
    pub fn begin(&mut self, retry_attempt: u32) -> (start: (Flight<'_>, Request))
        ensures
            start.0.generation == Generation::initial(retry_attempt),
            start.0.generator@ == old(self)@,
            final(start.0.generator)@ == final(self)@,
            start.1 == Request::LoadVersionCache,
    {
        (
            Flight {
                generator: self,
                generation: Generation { retry_attempt, stage: Stage::VersionCache },
            },
            Request::LoadVersionCache,
        )
    }
}

/// A generation in flight: how far it has come, and the generator, which it
/// holds for as long as it lasts. A flight that is dropped gives the generator
/// back as it is.
#[derive(Debug, PartialEq, Eq)]
pub struct Flight<'a> {
    pub generator: &'a mut ParametersGenerator,
    pub generation: Generation,
}

/// How far a reply brought a generation.
#[derive(Debug, PartialEq, Eq)]
pub enum Progress<'a> {
    /// The generation waits for the reply to this request.
    Pending(Flight<'a>, Request),
    /// The generation is over, and the generator is free again.
    Done(Result<TunnelParameters, Error>),
    /// The reply was not the one that the generation waits for. The generation
    /// is handed back as it was.
    Mismatch(Flight<'a>),
}

impl<'a> View for Progress<'a> {
    type V = ProgressView;

    open spec fn view(&self) -> ProgressView {
        match *self {
            Progress::Pending(flight, request) => ProgressView::Pending(
                flight.generation,
                request,
            ),
            Progress::Done(Ok(parameters)) => ProgressView::Done(Ok(parameters@)),
            Progress::Done(Err(error)) => ProgressView::Done(Err(error)),
            Progress::Mismatch(flight) => ProgressView::Mismatch(flight.generation),
        }
    }
}

impl<'a> Flight<'a> {
    /// Tells whether `advance` can be called with `reply`.
    pub fn advances(&self, reply: &Reply) -> (possible: bool)
        ensures
            possible == old(self.generator)@.can_advance(self.generation, *reply),
    {
        match (&self.generation.stage, reply) {
            (Stage::DeviceForParameters { relay, .. }, Reply::Device(Some(_))) => {
                self.generator.builds(&relay.endpoint)
            },
            _ => true,
        }
    }

    /// Takes the generation one step further with the reply to its request.
    ///
    /// While the generation goes on, the generator stays as it was and stays
    /// with the generation. When the generation ends, the generator is left
    /// as the step leaves it.
    pub fn advance(self, reply: Reply) -> (progress: Progress<'a>)
        requires
            old(self.generator)@.can_advance(self.generation, reply),
        ensures
            progress@ == old(self.generator)@.step(self.generation, reply).1,
            match progress {
                Progress::Pending(flight, _) | Progress::Mismatch(flight) => {
                    &&& flight.generator@ == old(self.generator)@
                    &&& final(flight.generator)@ == final(self.generator)@
                },
                Progress::Done(_) => final(self.generator)@ == old(self.generator)@.step(
                    self.generation,
                    reply,
                ).0,
            },
    {
        let Flight { generator, generation } = self;
        let retry_attempt = generation.retry_attempt;
        match (generation.stage, reply) {
            (Stage::VersionCache, Reply::VersionCache(cache)) => Progress::Pending(
                Flight {
                    generator,
                    generation: Generation {
                        retry_attempt,
                        stage: Stage::Settings { threshold: migration_threshold(cache) },
                    },
                },
                Request::LoadSettings,
            ),
            (Stage::Settings { threshold }, Reply::Settings(settings)) => {
                match settings.migration_random {
                    Some(draw) => Progress::Pending(
                        Flight {
                            generator,
                            generation: Generation {
                                retry_attempt,
                                stage: Stage::Device {
                                    default_to_new_protocol: default_to_new_protocol(
                                        draw,
                                        threshold,
                                    ),
                                },
                            },
                        },
                        Request::QueryDevice,
                    ),
                    None => Progress::Pending(
                        Flight {
                            generator,
                            generation: Generation {
                                retry_attempt,
                                stage: Stage::Draw { threshold },
                            },
                        },
                        Request::DrawRandom,
                    ),
                }
            },
            (Stage::Draw { threshold }, Reply::Random(draw)) => Progress::Pending(
                Flight {
                    generator,
                    generation: Generation {
                        retry_attempt,
                        stage: Stage::Persist {
                            default_to_new_protocol: default_to_new_protocol(draw, threshold),
                        },
                    },
                },
                Request::PersistRandom(draw),
            ),
            (Stage::Persist { default_to_new_protocol }, Reply::Persisted(_)) => Progress::Pending(
                Flight {
                    generator,
                    generation: Generation {
                        retry_attempt,
                        stage: Stage::Device { default_to_new_protocol },
                    },
                },
                Request::QueryDevice,
            ),
            (Stage::Device { default_to_new_protocol }, Reply::Device(device)) => match device {
                None => Progress::Done(Err(Error::NoAuthDetails)),
                Some(_) => Progress::Pending(
                    Flight {
                        generator,
                        generation: Generation { retry_attempt, stage: Stage::Relay },
                    },
                    Request::SelectRelay { retry_attempt, default_to_new_protocol },
                ),
            },
            (Stage::Relay, Reply::Relay(outcome)) => match outcome {
                Err(SelectorError::NoBridge) => Progress::Done(Err(Error::NoBridgeAvailable)),
                Err(SelectorError::Other) => Progress::Done(Err(Error::NoRelayAvailable)),
                Ok(Selection { relay: SelectedRelay::Custom(relay), .. }) => {
                    let tunnel_options = generator.tunnel_options;
                    Progress::Pending(
                        Flight {
                            generator,
                            generation: Generation {
                                retry_attempt,
                                stage: Stage::CustomResolution,
                            },
                        },
                        Request::ResolveCustomRelay { relay, tunnel_options },
                    )
                },
                Ok(Selection { relay: SelectedRelay::Normal(relay), bridge, obfuscator }) => {
                    Progress::Pending(
                        Flight {
                            generator,
                            generation: Generation {
                                retry_attempt,
                                stage: Stage::DeviceForParameters { relay, bridge, obfuscator },
                            },
                        },
                        Request::QueryDevice,
                    )
                },
            },
            (Stage::CustomResolution, Reply::CustomResolved(resolved)) => match resolved {
                Some(parameters) => Progress::Done(Ok(parameters)),
                None => Progress::Done(Err(Error::ResolveCustomHostname)),
            },
            (Stage::DeviceForParameters { relay, bridge, obfuscator }, Reply::Device(device)) => {
                match device {
                    None => Progress::Done(Err(Error::NoAuthDetails)),
                    Some(data) => Progress::Done(
                        Ok(
                            generator.create_tunnel_parameters(
                                relay.exit_relay,
                                relay.entry_relay,
                                relay.endpoint,
                                bridge,
                                obfuscator,
                                data,
                            ),
                        ),
                    ),
                }
            },
            (stage, _) => Progress::Mismatch(
                Flight { generator, generation: Generation { retry_attempt, stage } },
            ),
        }
    }
}

} // verus!
