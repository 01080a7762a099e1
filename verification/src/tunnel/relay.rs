//! Relays, and the location that is reported for the relays in use.

use crate::net::{Ipv4Address, Ipv6Address};
use vstd::prelude::*;

verus! {

/// A latitude or a longitude in degrees, held as the IEEE 754 binary64 bit
/// pattern of its value. The library passes coordinates on and never computes
/// with them.
#[derive(Clone, Copy, Debug, PartialEq, Eq, Structural)]
pub struct Coordinate {
    pub bits: u64,
}

/// Where a relay stands.
#[derive(Debug, PartialEq, Eq)]
pub struct Location {
    pub country: String,
    pub city: String,
    pub latitude: Coordinate,
    pub longitude: Coordinate,
}

impl Clone for Location {
    fn clone(&self) -> (copy: Location)
        ensures
            copy == *self,
    {
        Location {
            country: self.country.clone(),
            city: self.city.clone(),
            latitude: self.latitude,
            longitude: self.longitude,
        }
    }
}

/// A server that tunnels connect to or pass through: the part of its
/// description that location reporting reads.
#[derive(Debug, PartialEq, Eq)]
pub struct Relay {
    pub hostname: String,
    pub location: Option<Location>,
}

impl Clone for Relay {
    fn clone(&self) -> (copy: Relay)
        ensures
            copy == *self,
    {
        let location = match &self.location {
            Some(location) => Some(location.clone()),
            None => None,
        };
        Relay { hostname: self.hostname.clone(), location }
    }
}

/// The hostname of a relay that may be absent.
pub open spec fn hostname_of(relay: Option<Relay>) -> Option<String> {
    match relay {
        Some(relay) => Some(relay.hostname),
        None => None,
    }
}

/// Copies the hostname of a relay that may be absent.
pub fn take_hostname(relay: &Option<Relay>) -> (hostname: Option<String>)
    ensures
        hostname == hostname_of(*relay),
{
    match relay {
        Some(relay) => Some(relay.hostname.clone()),
        None => None,
    }
}

/// The location reported for a connection.
#[derive(Clone, Debug, PartialEq, Eq)]
pub struct GeoIpLocation {
    pub ipv4: Option<Ipv4Address>,
    pub ipv6: Option<Ipv6Address>,
    pub country: String,
    pub city: Option<String>,
    pub latitude: Coordinate,
    pub longitude: Coordinate,
    pub mullvad_exit_ip: bool,
    pub hostname: Option<String>,
    pub bridge_hostname: Option<String>,
    pub entry_hostname: Option<String>,
    pub obfuscator_hostname: Option<String>,
}

/// The relays that the last successful generation selected.
#[derive(Clone, Debug, PartialEq, Eq)]
pub enum LastSelectedRelays {
    /// The relays of a WireGuard tunnel. Traffic flows from the client through
    /// the obfuscator and the entry relay, where there are any, to the exit
    /// relay.
    WireGuard { wg_entry: Option<Relay>, wg_exit: Relay, obfuscator: Option<Relay> },
    /// The relays of an OpenVPN tunnel. Traffic flows from the client through
    /// the bridge, where there is one, to the relay.
    OpenVpn { relay: Relay, bridge: Option<Relay> },
}

impl LastSelectedRelays {
    /// The relay through which traffic leaves the tunnel.
    pub open spec fn exit(self) -> Relay {
        match self {
            LastSelectedRelays::WireGuard { wg_exit, .. } => wg_exit,
            LastSelectedRelays::OpenVpn { relay, .. } => relay,
        }
    }

    /// Whether the exit relay comes with a location, so that one can be
    /// reported.
    pub open spec fn located(self) -> bool {
        self.exit().location is Some
    }

    /// The location reported for these relays: that of the exit relay, with the
    /// hostnames of the relays on the way to it.
    pub open spec fn location(self) -> GeoIpLocation
        recommends
            self.located(),
    {
        let place = self.exit().location->0;
        GeoIpLocation {
            ipv4: None,
            ipv6: None,
            country: place.country,
            city: Some(place.city),
            latitude: place.latitude,
            longitude: place.longitude,
            mullvad_exit_ip: true,
            hostname: Some(self.exit().hostname),
            bridge_hostname: match self {
                LastSelectedRelays::OpenVpn { bridge, .. } => hostname_of(bridge),
                LastSelectedRelays::WireGuard { .. } => None,
            },
            entry_hostname: match self {
                LastSelectedRelays::WireGuard { wg_entry, .. } => hostname_of(wg_entry),
                LastSelectedRelays::OpenVpn { .. } => None,
            },
            obfuscator_hostname: match self {
                LastSelectedRelays::WireGuard { obfuscator, .. } => hostname_of(obfuscator),
                LastSelectedRelays::OpenVpn { .. } => None,
            },
        }
    }

    /// Tells whether a location can be reported for these relays.
    pub fn is_located(&self) -> (located: bool)
        ensures
            located == self.located(),
    {
        match self {
            LastSelectedRelays::WireGuard { wg_exit, .. } => wg_exit.location.is_some(),
            LastSelectedRelays::OpenVpn { relay, .. } => relay.location.is_some(),
        }
    }

    /// Derives the location to report for these relays.
    pub fn to_location(&self) -> (reported: GeoIpLocation)
        requires
            self.located(),
        ensures
            reported == self.location(),
    {
        let (exit, bridge_hostname, entry_hostname, obfuscator_hostname) = match self {
            LastSelectedRelays::WireGuard { wg_entry, wg_exit, obfuscator } => (
                wg_exit,
                None,
                take_hostname(wg_entry),
                take_hostname(obfuscator),
            ),
            LastSelectedRelays::OpenVpn { relay, bridge } => (
                relay,
                take_hostname(bridge),
                None,
                None,
            ),
        };
        let place = exit.location.as_ref().unwrap().clone();
        GeoIpLocation {
            ipv4: None,
            ipv6: None,
            country: place.country,
            city: Some(place.city),
            latitude: place.latitude,
            longitude: place.longitude,
            mullvad_exit_ip: true,
            hostname: Some(exit.hostname.clone()),
            bridge_hostname,
            entry_hostname,
            obfuscator_hostname,
        }
    }
}

} // verus!
