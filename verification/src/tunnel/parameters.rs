//! The parameters of a tunnel, as the tunnel engine consumes them.

use crate::net::{IpAddress, Ipv4Address, Ipv6Address, SocketAddress};
use vstd::prelude::*;

verus! {

/// The transport that carries a tunnel.
#[derive(Clone, Copy, Debug, PartialEq, Eq, Structural)]
pub enum TransportProtocol {
    Udp,
    Tcp,
}

/// Where a tunnel connects to, and over which transport.
#[derive(Clone, Copy, Debug, PartialEq, Eq)]
pub struct Endpoint {
    pub address: SocketAddress,
    pub protocol: TransportProtocol,
}

/// A WireGuard public key.
#[derive(Clone, Copy, Debug, PartialEq, Eq)]
pub struct PublicKey {
    pub bytes: [u8; 32],
}

/// A WireGuard private key.
#[derive(Clone, Copy, Debug, PartialEq, Eq)]
pub struct PrivateKey {
    pub bytes: [u8; 32],
}

/// A WireGuard peer: its key and where it listens.
#[derive(Clone, Copy, Debug, PartialEq, Eq)]
pub struct PeerConfig {
    pub public_key: PublicKey,
    pub endpoint: SocketAddress,
}

/// How an OpenVPN tunnel reaches its relay through a proxy.
#[derive(Clone, Copy, Debug, PartialEq, Eq)]
pub enum ProxySettings {
    /// A proxy that runs on this machine and forwards to `peer`.
    Local { port: u16, peer: SocketAddress },
    /// A proxy at a remote address.
    Remote { address: SocketAddress },
    /// A Shadowsocks bridge.
    Shadowsocks { peer: SocketAddress },
}

/// How WireGuard traffic is disguised.
#[derive(Clone, Copy, Debug, PartialEq, Eq)]
pub enum ObfuscatorConfig {
    /// The traffic is wrapped in TCP and sent to `endpoint`.
    Udp2Tcp { endpoint: SocketAddress },
}

/// Options that hold for tunnels of every protocol.
#[derive(Clone, Copy, Debug, PartialEq, Eq, Structural)]
pub struct GenericOptions {
    pub enable_ipv6: bool,
}

/// Options of an OpenVPN tunnel.
#[derive(Clone, Copy, Debug, PartialEq, Eq, Structural)]
pub struct OpenVpnOptions {
    pub mssfix: Option<u16>,
}

/// Options of a WireGuard tunnel.
#[derive(Clone, Copy, Debug, PartialEq, Eq, Structural)]
pub struct WireguardOptions {
    pub mtu: Option<u16>,
}

/// The WireGuard settings of a client: the options of its tunnels, and how
/// often its key is rotated.
#[derive(Clone, Copy, Debug, PartialEq, Eq, Structural)]
pub struct WireguardSettings {
    pub options: WireguardOptions,
    /// Seconds between two key rotations, where the default is not used.
    pub rotation_interval: Option<u64>,
}

/// The tunnel options of a client.
#[derive(Clone, Copy, Debug, PartialEq, Eq, Structural)]
pub struct TunnelOptions {
    pub openvpn: OpenVpnOptions,
    pub wireguard: WireguardSettings,
    pub generic: GenericOptions,
}

/// How an OpenVPN tunnel connects and authenticates.
#[derive(Clone, Debug, PartialEq, Eq)]
pub struct OpenVpnConnectionConfig {
    pub endpoint: Endpoint,
    pub username: String,
    pub password: String,
}

/// What an OpenVPN connection configuration holds.
pub struct OpenVpnConnectionConfigView {
    pub endpoint: Endpoint,
    pub username: Seq<char>,
    pub password: Seq<char>,
}

impl View for OpenVpnConnectionConfig {
    type V = OpenVpnConnectionConfigView;

    open spec fn view(&self) -> OpenVpnConnectionConfigView {
        OpenVpnConnectionConfigView {
            endpoint: self.endpoint,
            username: self.username@,
            password: self.password@,
        }
    }
}

impl OpenVpnConnectionConfig {
    /// The configuration of a connection to `endpoint` with these credentials.
    pub fn new(endpoint: Endpoint, username: String, password: String) -> (config:
        OpenVpnConnectionConfig)
        ensures
            config == (OpenVpnConnectionConfig { endpoint, username, password }),
            config@ == (OpenVpnConnectionConfigView {
                endpoint,
                username: username@,
                password: password@,
            }),
    {
        OpenVpnConnectionConfig { endpoint, username, password }
    }
}

/// The parameters of an OpenVPN tunnel.
#[derive(Clone, Debug, PartialEq, Eq)]
pub struct OpenVpnParameters {
    pub config: OpenVpnConnectionConfig,
    pub options: OpenVpnOptions,
    pub generic_options: GenericOptions,
    pub proxy: Option<ProxySettings>,
}

/// What the parameters of an OpenVPN tunnel hold.
pub struct OpenVpnParametersView {
    pub config: OpenVpnConnectionConfigView,
    pub options: OpenVpnOptions,
    pub generic_options: GenericOptions,
    pub proxy: Option<ProxySettings>,
}

impl View for OpenVpnParameters {
    type V = OpenVpnParametersView;

    open spec fn view(&self) -> OpenVpnParametersView {
        OpenVpnParametersView {
            config: self.config@,
            options: self.options,
            generic_options: self.generic_options,
            proxy: self.proxy,
        }
    }
}

/// The local end of a WireGuard tunnel.
#[derive(Clone, Debug, PartialEq, Eq)]
pub struct TunnelConfig {
    pub private_key: PrivateKey,
    pub addresses: Vec<IpAddress>,
}

/// What the local end of a WireGuard tunnel holds.
pub struct TunnelConfigView {
    pub private_key: PrivateKey,
    pub addresses: Seq<IpAddress>,
}

impl View for TunnelConfig {
    type V = TunnelConfigView;

    open spec fn view(&self) -> TunnelConfigView {
        TunnelConfigView { private_key: self.private_key, addresses: self.addresses@ }
    }
}

/// How a WireGuard tunnel connects.
#[derive(Clone, Debug, PartialEq, Eq)]
pub struct WireguardConnectionConfig {
    pub tunnel: TunnelConfig,
    /// The peer that the client talks to: the entry relay of a multi-hop
    /// tunnel, the exit relay otherwise.
    pub peer: PeerConfig,
    /// The exit relay of a multi-hop tunnel.
    pub exit_peer: Option<PeerConfig>,
    pub ipv4_gateway: Ipv4Address,
    pub ipv6_gateway: Option<Ipv6Address>,
}

/// What the connection configuration of a WireGuard tunnel holds.
pub struct WireguardConnectionConfigView {
    pub tunnel: TunnelConfigView,
    pub peer: PeerConfig,
    pub exit_peer: Option<PeerConfig>,
    pub ipv4_gateway: Ipv4Address,
    pub ipv6_gateway: Option<Ipv6Address>,
}

impl View for WireguardConnectionConfig {
    type V = WireguardConnectionConfigView;

    open spec fn view(&self) -> WireguardConnectionConfigView {
        WireguardConnectionConfigView {
            tunnel: self.tunnel@,
            peer: self.peer,
            exit_peer: self.exit_peer,
            ipv4_gateway: self.ipv4_gateway,
            ipv6_gateway: self.ipv6_gateway,
        }
    }
}

/// The parameters of a WireGuard tunnel.
#[derive(Clone, Debug, PartialEq, Eq)]
pub struct WireguardParameters {
    pub connection: WireguardConnectionConfig,
    pub options: WireguardOptions,
    pub generic_options: GenericOptions,
    pub obfuscation: Option<ObfuscatorConfig>,
}

/// What the parameters of a WireGuard tunnel hold.
pub struct WireguardParametersView {
    pub connection: WireguardConnectionConfigView,
    pub options: WireguardOptions,
    pub generic_options: GenericOptions,
    pub obfuscation: Option<ObfuscatorConfig>,
}

impl View for WireguardParameters {
    type V = WireguardParametersView;

    open spec fn view(&self) -> WireguardParametersView {
        WireguardParametersView {
            connection: self.connection@,
            options: self.options,
            generic_options: self.generic_options,
            obfuscation: self.obfuscation,
        }
    }
}

/// The parameters of a tunnel of either protocol.
#[derive(Clone, Debug, PartialEq, Eq)]
pub enum TunnelParameters {
    OpenVpn(OpenVpnParameters),
    Wireguard(WireguardParameters),
}

/// What the parameters of a tunnel hold.
pub enum TunnelParametersView {
    OpenVpn(OpenVpnParametersView),
    Wireguard(WireguardParametersView),
}

impl View for TunnelParameters {
    type V = TunnelParametersView;

    open spec fn view(&self) -> TunnelParametersView {
        match *self {
            TunnelParameters::OpenVpn(parameters) => TunnelParametersView::OpenVpn(parameters@),
            TunnelParameters::Wireguard(parameters) => TunnelParametersView::Wireguard(
                parameters@,
            ),
        }
    }
}

} // verus!
