//! Portable network addresses: plain values, independent of how any network
//! stack stores them.

use vstd::prelude::*;

verus! {

/// An IPv4 address: its four octets, first octet first.
#[derive(Clone, Copy, Debug, PartialEq, Eq, Hash)]
pub struct Ipv4Address {
    pub octets: [u8; 4],
}

impl Ipv4Address {
    /// The address `a.b.c.d`.
    pub fn new(a: u8, b: u8, c: u8, d: u8) -> (address: Ipv4Address)
        ensures
            address.octets@ == seq![a, b, c, d],
    {
        Ipv4Address { octets: [a, b, c, d] }
    }
}

/// The high octet of a sixteen-bit group.
pub open spec fn high_octet(group: u16) -> u8 {
    (group / 256) as u8
}

/// The low octet of a sixteen-bit group.
pub open spec fn low_octet(group: u16) -> u8 {
    (group % 256) as u8
}

/// The sixteen-bit group made of two octets, high octet first.
pub open spec fn group_of(high: u8, low: u8) -> u16 {
    (high * 256 + low) as u16
}

/// The sixteen octets of eight groups, each group high octet first.
pub open spec fn octets_of_groups(groups: Seq<u16>) -> Seq<u8> {
    Seq::new(
        16,
        |i: int|
            if i % 2 == 0 {
                high_octet(groups[i / 2])
            } else {
                low_octet(groups[i / 2])
            },
    )
}

/// The eight groups of sixteen octets.
pub open spec fn groups_of_octets(octets: Seq<u8>) -> Seq<u16> {
    Seq::new(8, |i: int| group_of(octets[2 * i], octets[2 * i + 1]))
}

/// An IPv6 address: its sixteen octets, first octet first.
#[derive(Clone, Copy, Debug, PartialEq, Eq, Hash)]
pub struct Ipv6Address {
    pub octets: [u8; 16],
}

impl Ipv6Address {
    /// The address written as the eight groups `a:b:c:d:e:f:g:h`.
    pub fn new(a: u16, b: u16, c: u16, d: u16, e: u16, f: u16, g: u16, h: u16) -> (address:
        Ipv6Address)
        ensures
            address.octets@ == octets_of_groups(seq![a, b, c, d, e, f, g, h]),
    {
        let address = Ipv6Address {
            octets: [
                (a / 256) as u8,
                (a % 256) as u8,
                (b / 256) as u8,
                (b % 256) as u8,
                (c / 256) as u8,
                (c % 256) as u8,
                (d / 256) as u8,
                (d % 256) as u8,
                (e / 256) as u8,
                (e % 256) as u8,
                (f / 256) as u8,
                (f % 256) as u8,
                (g / 256) as u8,
                (g % 256) as u8,
                (h / 256) as u8,
                (h % 256) as u8,
            ],
        };
        assert(address.octets@ =~= octets_of_groups(seq![a, b, c, d, e, f, g, h]));
        address
    }

    /// The eight groups of the address.
    pub fn segments(&self) -> (groups: [u16; 8])
        ensures
            groups@ == groups_of_octets(self.octets@),
    {
        let o = &self.octets;
        let groups: [u16; 8] = [
            o[0] as u16 * 256 + o[1] as u16,
            o[2] as u16 * 256 + o[3] as u16,
            o[4] as u16 * 256 + o[5] as u16,
            o[6] as u16 * 256 + o[7] as u16,
            o[8] as u16 * 256 + o[9] as u16,
            o[10] as u16 * 256 + o[11] as u16,
            o[12] as u16 * 256 + o[13] as u16,
            o[14] as u16 * 256 + o[15] as u16,
        ];
        assert(groups@ =~= groups_of_octets(self.octets@));
        groups
    }
}

/// Splitting eight groups into octets and joining them again gives the groups
/// back.
pub proof fn lemma_groups_round_trip(groups: Seq<u16>)
    requires
        groups.len() == 8,
    ensures
        groups_of_octets(octets_of_groups(groups)) == groups,
{
    assert(groups_of_octets(octets_of_groups(groups)) =~= groups);
}

/// Joining sixteen octets into groups and splitting them again gives the octets
/// back.
pub proof fn lemma_octets_round_trip(octets: Seq<u8>)
    requires
        octets.len() == 16,
    ensures
        octets_of_groups(groups_of_octets(octets)) == octets,
{
    assert(octets_of_groups(groups_of_octets(octets)) =~= octets);
}

/// An IP address of either family.
#[derive(Clone, Copy, Debug, PartialEq, Eq, Hash)]
pub enum IpAddress {
    V4(Ipv4Address),
    V6(Ipv6Address),
}

/// An IPv4 socket address.
#[derive(Clone, Copy, Debug, PartialEq, Eq, Hash)]
pub struct SocketAddressV4 {
    pub ip: Ipv4Address,
    pub port: u16,
}

/// An IPv6 socket address, with its flow information and scope identifier.
#[derive(Clone, Copy, Debug, PartialEq, Eq, Hash)]
pub struct SocketAddressV6 {
    pub ip: Ipv6Address,
    pub port: u16,
    pub flowinfo: u32,
    pub scope_id: u32,
}

/// A socket address of either family.
#[derive(Clone, Copy, Debug, PartialEq, Eq, Hash)]
pub enum SocketAddress {
    V4(SocketAddressV4),
    V6(SocketAddressV6),
}

impl SocketAddress {
    /// The IPv4 socket address `ip:port`.
    pub fn v4(ip: Ipv4Address, port: u16) -> (address: SocketAddress)
        ensures
            address == SocketAddress::V4(SocketAddressV4 { ip, port }),
    {
        SocketAddress::V4(SocketAddressV4 { ip, port })
    }

    /// The IPv6 socket address of `ip` and `port` with the given flow
    /// information and scope identifier.
    pub fn v6(ip: Ipv6Address, port: u16, flowinfo: u32, scope_id: u32) -> (address: SocketAddress)
        ensures
            address == SocketAddress::V6(SocketAddressV6 { ip, port, flowinfo, scope_id }),
    {
        SocketAddress::V6(SocketAddressV6 { ip, port, flowinfo, scope_id })
    }

    /// The port of the address.
    pub fn port(&self) -> (port: u16)
        ensures
            port == match *self {
                SocketAddress::V4(a) => a.port,
                SocketAddress::V6(a) => a.port,
            },
    {
        match self {
            SocketAddress::V4(a) => a.port,
            SocketAddress::V6(a) => a.port,
        }
    }
}

} // verus!
