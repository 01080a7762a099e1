//! What the collaborators of a generation hand to it: the relays that the relay
//! selector chose, and the device that the account manager holds.

use crate::net::{Ipv4Address, Ipv6Address};
use crate::tunnel::parameters::{
    Endpoint, ObfuscatorConfig, OpenVpnConnectionConfig, PeerConfig, PrivateKey, ProxySettings,
    WireguardConnectionConfig,
};
use crate::tunnel::relay::Relay;
use vstd::prelude::*;

verus! {

/// The WireGuard endpoint of a selected relay.
#[derive(Clone, Copy, Debug, PartialEq, Eq)]
pub struct MullvadWireguardEndpoint {
    pub peer: PeerConfig,
    pub exit_peer: Option<PeerConfig>,
    pub ipv4_gateway: Ipv4Address,
    pub ipv6_gateway: Ipv6Address,
}

/// The endpoint of a selected relay, by protocol.
#[derive(Clone, Copy, Debug, PartialEq, Eq)]
pub enum MullvadEndpoint {
    OpenVpn(Endpoint),
    Wireguard(MullvadWireguardEndpoint),
}

/// A relay from the relay list, with the endpoint to reach it.
#[derive(Clone, Debug, PartialEq, Eq)]
pub struct NormalSelectedRelay {
    pub exit_relay: Relay,
    /// The hop before the exit relay of a multi-hop tunnel.
    pub entry_relay: Option<Relay>,
    pub endpoint: MullvadEndpoint,
}

/// The connection of a relay that the user described.
#[derive(Clone, Debug, PartialEq, Eq)]
pub enum CustomConnectionConfig {
    OpenVpn(OpenVpnConnectionConfig),
    Wireguard(WireguardConnectionConfig),
}

/// A relay that the user described: a host whose name is still to be resolved,
/// and how to connect to it.
#[derive(Clone, Debug, PartialEq, Eq)]
pub struct CustomTunnelEndpoint {
    pub host: String,
    pub config: CustomConnectionConfig,
}

/// The relay that the relay selector chose.
#[derive(Clone, Debug, PartialEq, Eq)]
pub enum SelectedRelay {
    Custom(CustomTunnelEndpoint),
    Normal(NormalSelectedRelay),
}

/// A bridge from the relay list, with its proxy settings.
#[derive(Clone, Debug, PartialEq, Eq)]
pub struct NormalSelectedBridge {
    pub settings: ProxySettings,
    pub relay: Relay,
}

/// The bridge that the relay selector chose.
#[derive(Clone, Debug, PartialEq, Eq)]
pub enum SelectedBridge {
    Normal(NormalSelectedBridge),
    /// A proxy that the user described; no relay stands behind it.
    Custom(ProxySettings),
}

impl SelectedBridge {
    /// The proxy settings of the bridge.
    pub open spec fn settings(self) -> ProxySettings {
        match self {
            SelectedBridge::Normal(bridge) => bridge.settings,
            SelectedBridge::Custom(settings) => settings,
        }
    }

    /// The relay behind the bridge, where there is one.
    pub open spec fn relay(self) -> Option<Relay> {
        match self {
            SelectedBridge::Normal(bridge) => Some(bridge.relay),
            SelectedBridge::Custom(_) => None,
        }
    }
}

/// The obfuscator that the relay selector chose.
#[derive(Clone, Debug, PartialEq, Eq)]
pub struct SelectedObfuscator {
    pub config: ObfuscatorConfig,
    pub relay: Relay,
}

/// All that the relay selector chose for one attempt.
#[derive(Clone, Debug, PartialEq, Eq)]
pub struct Selection {
    pub relay: SelectedRelay,
    pub bridge: Option<SelectedBridge>,
    pub obfuscator: Option<SelectedObfuscator>,
}

/// Why the relay selector chose nothing.
#[derive(Clone, Copy, Debug, PartialEq, Eq, Structural)]
pub enum SelectorError {
    /// No bridge matches the constraints.
    NoBridge,
    /// Any other failure.
    Other,
}

/// The account and device that the client is logged in with: what tunnel
/// parameters are built from.
#[derive(Clone, Debug, PartialEq, Eq)]
pub struct AccountAndDevice {
    pub account_token: String,
    pub private_key: PrivateKey,
    /// The address of the device inside the tunnel.
    pub ipv4_address: Ipv4Address,
    pub ipv6_address: Ipv6Address,
}

} // verus!
