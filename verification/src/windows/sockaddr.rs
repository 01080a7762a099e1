//! Addresses as the Windows network stack stores them.
//!
//! The stack keeps an address as bytes in memory: the octets of an IP address in
//! network order, and a socket address as a 28-byte record whose first two
//! bytes name the address family. The port of a socket address is stored in
//! network byte order; the family, the flow information and the scope
//! identifier are stored in the byte order of the machine, which is
//! little-endian on every machine that runs Windows.

use crate::net::{Ipv4Address, Ipv6Address, SocketAddress, SocketAddressV4, SocketAddressV6};
use crate::windows::error::Error;
use crate::windows::family::{AF_INET, AF_INET6};
use vstd::prelude::*;

verus! {

/// The size of a `SOCKADDR_INET` in bytes.
pub const SOCKADDR_INET_SIZE: usize = 28;

/// An `IN_ADDR`: the four bytes of an IPv4 address as they lie in memory.
#[derive(Clone, Copy, Debug, PartialEq, Eq)]
pub struct InAddr {
    pub bytes: [u8; 4],
}

/// An `IN6_ADDR`: the sixteen bytes of an IPv6 address as they lie in memory.
#[derive(Clone, Copy, Debug, PartialEq, Eq)]
pub struct In6Addr {
    pub bytes: [u8; 16],
}

/// A `SOCKADDR_INET`: the bytes of a socket address of either family as they
/// lie in memory.
///
/// Bytes 0 and 1 hold the family and bytes 2 and 3 the port. An IPv4 address
/// follows in bytes 4 to 7; the rest is unused. For IPv6 the flow information
/// is in bytes 4 to 7, the address in bytes 8 to 23 and the scope identifier in
/// bytes 24 to 27.
#[derive(Clone, Copy, Debug, PartialEq, Eq)]
pub struct SockaddrInet {
    pub bytes: [u8; 28],
}

/// The byte of `value` at `index`, counted from the least significant one.
pub open spec fn byte_of(value: int, index: int) -> u8 {
    if index == 0 {
        (value % 256) as u8
    } else if index == 1 {
        (value / 256 % 256) as u8
    } else if index == 2 {
        (value / 65536 % 256) as u8
    } else {
        (value / 16777216 % 256) as u8
    }
}

/// The sixteen-bit value whose low byte is `low`.
pub open spec fn u16_of(low: u8, high: u8) -> u16 {
    (low + 256 * high) as u16
}

/// The thirty-two-bit value whose bytes are these, least significant first.
pub open spec fn u32_of(b0: u8, b1: u8, b2: u8, b3: u8) -> u32 {
    (b0 + 256 * b1 + 65536 * b2 + 16777216 * b3) as u32
}

/// The `IN_ADDR` of an IPv4 address.
pub open spec fn in_addr_of(addr: Ipv4Address) -> InAddr {
    InAddr { bytes: addr.octets }
}

/// The `IN6_ADDR` of an IPv6 address.
pub open spec fn in6_addr_of(addr: Ipv6Address) -> In6Addr {
    In6Addr { bytes: addr.octets }
}

/// The IPv4 address in an `IN_ADDR`.
pub open spec fn ipv4_in(addr: InAddr) -> Ipv4Address {
    Ipv4Address { octets: addr.bytes }
}

/// The IPv6 address in an `IN6_ADDR`.
pub open spec fn ipv6_in(addr: In6Addr) -> Ipv6Address {
    Ipv6Address { octets: addr.bytes }
}

impl InAddr {
    /// The address as the thirty-two-bit number that the stack reads from its
    /// four bytes.
    pub open spec fn s_addr_value(self) -> u32 {
        u32_of(self.bytes[0], self.bytes[1], self.bytes[2], self.bytes[3])
    }

    /// The address whose bytes are those of the number `s_addr`.
    pub open spec fn of_s_addr(s_addr: u32) -> InAddr {
        InAddr {
            bytes: [
                byte_of(s_addr as int, 0),
                byte_of(s_addr as int, 1),
                byte_of(s_addr as int, 2),
                byte_of(s_addr as int, 3),
            ],
        }
    }

    /// The `S_addr` member: the four bytes read as one number.
    pub fn s_addr(&self) -> (s_addr: u32)
        ensures
            s_addr == self.s_addr_value(),
    {
        self.bytes[0] as u32 + 256 * (self.bytes[1] as u32) + 65536 * (self.bytes[2] as u32)
            + 16777216 * (self.bytes[3] as u32)
    }

    /// The address with the given `S_addr` member.
    pub fn from_s_addr(s_addr: u32) -> (addr: InAddr)
        ensures
            addr == InAddr::of_s_addr(s_addr),
    {
        InAddr {
            bytes: [
                (s_addr % 256) as u8,
                (s_addr / 256 % 256) as u8,
                (s_addr / 65536 % 256) as u8,
                (s_addr / 16777216 % 256) as u8,
            ],
        }
    }
}

/// Converts an `Ipv4Address` to `IN_ADDR`
pub fn inaddr_from_ipaddr(addr: Ipv4Address) -> (native: InAddr)
    ensures
        native == in_addr_of(addr),
{
    InAddr { bytes: addr.octets }
}

/// Converts an `Ipv6Address` to `IN6_ADDR`
pub fn in6addr_from_ipaddr(addr: Ipv6Address) -> (native: In6Addr)
    ensures
        native == in6_addr_of(addr),
{
    In6Addr { bytes: addr.octets }
}

/// Converts an `IN_ADDR` to `Ipv4Address`
pub fn ipaddr_from_inaddr(addr: InAddr) -> (portable: Ipv4Address)
    ensures
        portable == ipv4_in(addr),
{
    Ipv4Address { octets: addr.bytes }
}

/// Converts an `IN6_ADDR` to `Ipv6Address`
pub fn ipaddr_from_in6addr(addr: In6Addr) -> (portable: Ipv6Address)
    ensures
        portable == ipv6_in(addr),
{
    Ipv6Address { octets: addr.bytes }
}

/// The `SOCKADDR_INET` of a socket address. Bytes that the family does not
/// use are zero.
pub open spec fn sockaddr_inet_of(addr: SocketAddress) -> SockaddrInet {
    match addr {
        SocketAddress::V4(v4) => SockaddrInet {
            bytes: [
                byte_of(AF_INET as int, 0),
                byte_of(AF_INET as int, 1),
                byte_of(v4.port as int, 1),
                byte_of(v4.port as int, 0),
                v4.ip.octets[0],
                v4.ip.octets[1],
                v4.ip.octets[2],
                v4.ip.octets[3],
                0,
                0,
                0,
                0,
                0,
                0,
                0,
                0,
                0,
                0,
                0,
                0,
                0,
                0,
                0,
                0,
                0,
                0,
                0,
                0,
            ],
        },
        SocketAddress::V6(v6) => SockaddrInet {
            bytes: [
                byte_of(AF_INET6 as int, 0),
                byte_of(AF_INET6 as int, 1),
                byte_of(v6.port as int, 1),
                byte_of(v6.port as int, 0),
                byte_of(v6.flowinfo as int, 0),
                byte_of(v6.flowinfo as int, 1),
                byte_of(v6.flowinfo as int, 2),
                byte_of(v6.flowinfo as int, 3),
                v6.ip.octets[0],
                v6.ip.octets[1],
                v6.ip.octets[2],
                v6.ip.octets[3],
                v6.ip.octets[4],
                v6.ip.octets[5],
                v6.ip.octets[6],
                v6.ip.octets[7],
                v6.ip.octets[8],
                v6.ip.octets[9],
                v6.ip.octets[10],
                v6.ip.octets[11],
                v6.ip.octets[12],
                v6.ip.octets[13],
                v6.ip.octets[14],
                v6.ip.octets[15],
                byte_of(v6.scope_id as int, 0),
                byte_of(v6.scope_id as int, 1),
                byte_of(v6.scope_id as int, 2),
                byte_of(v6.scope_id as int, 3),
            ],
        },
    }
}

impl SockaddrInet {
    /// The family code in the record.
    pub open spec fn family(self) -> u16 {
        u16_of(self.bytes[0], self.bytes[1])
    }

    /// The port in the record.
    pub open spec fn port(self) -> u16 {
        u16_of(self.bytes[3], self.bytes[2])
    }

    /// The record read as an IPv4 socket address.
    pub open spec fn ipv4(self) -> SocketAddressV4 {
        SocketAddressV4 {
            ip: Ipv4Address {
                octets: [self.bytes[4], self.bytes[5], self.bytes[6], self.bytes[7]],
            },
            port: self.port(),
        }
    }

    /// The record read as an IPv6 socket address.
    pub open spec fn ipv6(self) -> SocketAddressV6 {
        SocketAddressV6 {
            ip: Ipv6Address {
                octets: [
                    self.bytes[8],
                    self.bytes[9],
                    self.bytes[10],
                    self.bytes[11],
                    self.bytes[12],
                    self.bytes[13],
                    self.bytes[14],
                    self.bytes[15],
                    self.bytes[16],
                    self.bytes[17],
                    self.bytes[18],
                    self.bytes[19],
                    self.bytes[20],
                    self.bytes[21],
                    self.bytes[22],
                    self.bytes[23],
                ],
            },
            port: self.port(),
            flowinfo: u32_of(self.bytes[4], self.bytes[5], self.bytes[6], self.bytes[7]),
            scope_id: u32_of(self.bytes[24], self.bytes[25], self.bytes[26], self.bytes[27]),
        }
    }

    /// The socket address in the record, or the error for a record of another
    /// family.
    pub open spec fn socket_address(self) -> Result<SocketAddress, Error> {
        if self.family() == AF_INET {
            Ok(SocketAddress::V4(self.ipv4()))
        } else if self.family() == AF_INET6 {
            Ok(SocketAddress::V6(self.ipv6()))
        } else {
            Err(Error::UnknownAddressFamily(self.family() as i32))
        }
    }

    /// Whether the record is one that a conversion from a socket address
    /// writes: its family is IPv4 or IPv6, and the bytes that an IPv4 record
    /// leaves unused are zero.
    pub open spec fn is_canonical(self) -> bool {
        ||| self.family() == AF_INET6
        ||| self.family() == AF_INET && forall|i: int| 8 <= i < 28 ==> self.bytes[i] == 0
    }

    /// Reads the family code of the record.
    pub fn si_family(&self) -> (family: u16)
        ensures
            family == self.family(),
    {
        self.bytes[0] as u16 + 256 * (self.bytes[1] as u16)
    }
}

/// Converts a `SocketAddress` to `SOCKADDR_INET`
pub fn inet_sockaddr_from_socketaddr(addr: SocketAddress) -> (native: SockaddrInet)
    ensures
        native == sockaddr_inet_of(addr),
{
    let native = match addr {
        SocketAddress::V4(v4) => {
            let ip = &v4.ip.octets;
            SockaddrInet {
                bytes: [
                    (AF_INET % 256) as u8,
                    (AF_INET / 256) as u8,
                    (v4.port / 256) as u8,
                    (v4.port % 256) as u8,
                    ip[0],
                    ip[1],
                    ip[2],
                    ip[3],
                    0,
                    0,
                    0,
                    0,
                    0,
                    0,
                    0,
                    0,
                    0,
                    0,
                    0,
                    0,
                    0,
                    0,
                    0,
                    0,
                    0,
                    0,
                    0,
                    0,
                ],
            }
        },
        SocketAddress::V6(v6) => {
            let ip = &v6.ip.octets;
            SockaddrInet {
                bytes: [
                    (AF_INET6 % 256) as u8,
                    (AF_INET6 / 256) as u8,
                    (v6.port / 256) as u8,
                    (v6.port % 256) as u8,
                    (v6.flowinfo % 256) as u8,
                    (v6.flowinfo / 256 % 256) as u8,
                    (v6.flowinfo / 65536 % 256) as u8,
                    (v6.flowinfo / 16777216 % 256) as u8,
                    ip[0],
                    ip[1],
                    ip[2],
                    ip[3],
                    ip[4],
                    ip[5],
                    ip[6],
                    ip[7],
                    ip[8],
                    ip[9],
                    ip[10],
                    ip[11],
                    ip[12],
                    ip[13],
                    ip[14],
                    ip[15],
                    (v6.scope_id % 256) as u8,
                    (v6.scope_id / 256 % 256) as u8,
                    (v6.scope_id / 65536 % 256) as u8,
                    (v6.scope_id / 16777216 % 256) as u8,
                ],
            }
        },
    };
    assert(native.bytes =~= sockaddr_inet_of(addr).bytes);
    native
}

/// Converts a `SOCKADDR_INET` to `SocketAddress`. Returns an error if the
/// address family is invalid.
pub fn try_socketaddr_from_inet_sockaddr(addr: SockaddrInet) -> (portable: Result<
    SocketAddress,
    Error,
>)
    ensures
        portable == addr.socket_address(),
{
    let b = &addr.bytes;
    let family = addr.si_family();
    let port: u16 = b[3] as u16 + 256 * (b[2] as u16);
    if family == AF_INET {
        let v4 = SocketAddressV4 { ip: Ipv4Address { octets: [b[4], b[5], b[6], b[7]] }, port };
        assert(v4.ip.octets =~= addr.ipv4().ip.octets);
        Ok(SocketAddress::V4(v4))
    } else if family == AF_INET6 {
        let v6 = SocketAddressV6 {
            ip: Ipv6Address {
                octets: [
                    b[8],
                    b[9],
                    b[10],
                    b[11],
                    b[12],
                    b[13],
                    b[14],
                    b[15],
                    b[16],
                    b[17],
                    b[18],
                    b[19],
                    b[20],
                    b[21],
                    b[22],
                    b[23],
                ],
            },
            port,
            flowinfo: b[4] as u32 + 256 * (b[5] as u32) + 65536 * (b[6] as u32) + 16777216 * (
            b[7] as u32),
            scope_id: b[24] as u32 + 256 * (b[25] as u32) + 65536 * (b[26] as u32) + 16777216 * (
            b[27] as u32),
        };
        assert(v6.ip.octets =~= addr.ipv6().ip.octets);
        Ok(SocketAddress::V6(v6))
    } else {
        Err(Error::UnknownAddressFamily(family as i32))
    }
}

/// An IP address comes back unchanged from its native form, and a native
/// address from its portable form.
pub proof fn lemma_ip_address_round_trip(v4: Ipv4Address, v6: Ipv6Address, n4: InAddr, n6: In6Addr)
    ensures
        ipv4_in(in_addr_of(v4)) == v4,
        ipv6_in(in6_addr_of(v6)) == v6,
        in_addr_of(ipv4_in(n4)) == n4,
        in6_addr_of(ipv6_in(n6)) == n6,
{
}

/// A sixteen-bit value is made of its two bytes.
pub proof fn lemma_u16_of_its_bytes(value: u16)
    ensures
        u16_of(byte_of(value as int, 0), byte_of(value as int, 1)) == value,
{
}

/// The bytes of a sixteen-bit value are the ones it was made of.
pub proof fn lemma_bytes_of_u16(low: u8, high: u8)
    ensures
        byte_of(u16_of(low, high) as int, 0) == low,
        byte_of(u16_of(low, high) as int, 1) == high,
{
}

/// A thirty-two-bit value is made of its four bytes.
pub proof fn lemma_u32_of_its_bytes(value: u32)
    ensures
        u32_of(
            byte_of(value as int, 0),
            byte_of(value as int, 1),
            byte_of(value as int, 2),
            byte_of(value as int, 3),
        ) == value,
{
}

/// The bytes of a thirty-two-bit value are the ones it was made of.
pub proof fn lemma_bytes_of_u32(b0: u8, b1: u8, b2: u8, b3: u8)
    ensures
        byte_of(u32_of(b0, b1, b2, b3) as int, 0) == b0,
        byte_of(u32_of(b0, b1, b2, b3) as int, 1) == b1,
        byte_of(u32_of(b0, b1, b2, b3) as int, 2) == b2,
        byte_of(u32_of(b0, b1, b2, b3) as int, 3) == b3,
{
    let upper: int = b2 + 256 * b3;
    let middle: int = b1 + 256 * upper;
    let value: int = b0 + 256 * middle;
    assert(value == u32_of(b0, b1, b2, b3));
    assert(value % 256 == b0 && value / 256 == middle);
    assert(middle % 256 == b1 && middle / 256 == upper);
    assert(value == b0 + 256 * b1 + 65536 * upper);
    assert(value / 65536 == upper);
    assert(upper % 256 == b2 && upper / 256 == b3);
    assert(value == b0 + 256 * b1 + 65536 * b2 + 16777216 * b3);
    assert(value / 16777216 == b3);
}

/// The four bytes of an `IN_ADDR` and its `S_addr` member determine each
/// other.
pub proof fn lemma_s_addr_round_trip(addr: InAddr, s_addr: u32)
    ensures
        InAddr::of_s_addr(addr.s_addr_value()) == addr,
        InAddr::of_s_addr(s_addr).s_addr_value() == s_addr,
{
    lemma_bytes_of_u32(addr.bytes[0], addr.bytes[1], addr.bytes[2], addr.bytes[3]);
    assert(InAddr::of_s_addr(addr.s_addr_value()).bytes =~= addr.bytes);
    lemma_u32_of_its_bytes(s_addr);
}

/// Every socket address, of either family and whatever its flow information
/// and scope identifier, comes back unchanged from its `SOCKADDR_INET`.
pub proof fn lemma_socket_address_round_trip(addr: SocketAddress)
    ensures
        sockaddr_inet_of(addr).socket_address() == Ok::<SocketAddress, Error>(addr),
{
    let native = sockaddr_inet_of(addr);
    match addr {
        SocketAddress::V4(v4) => {
            assert(native.family() == AF_INET);
            lemma_u16_of_its_bytes(v4.port);
            assert(native.port() == v4.port);
            assert(native.ipv4().ip.octets =~= v4.ip.octets);
        },
        SocketAddress::V6(v6) => {
            assert(native.family() == AF_INET6);
            lemma_u16_of_its_bytes(v6.port);
            assert(native.port() == v6.port);
            lemma_u32_of_its_bytes(v6.flowinfo);
            assert(native.ipv6().flowinfo == v6.flowinfo);
            lemma_u32_of_its_bytes(v6.scope_id);
            assert(native.ipv6().scope_id == v6.scope_id);
            assert(native.ipv6().ip.octets =~= v6.ip.octets);
        },
    }
}

/// A canonical `SOCKADDR_INET` holds a socket address, and converting that
/// address gives the record back byte for byte.
pub proof fn lemma_sockaddr_inet_round_trip(native: SockaddrInet)
    requires
        native.is_canonical(),
    ensures
        native.socket_address() matches Ok(addr) && sockaddr_inet_of(addr) == native,
{
    let b = native.bytes;
    lemma_bytes_of_u16(b[0], b[1]);
    lemma_bytes_of_u16(b[3], b[2]);
    if native.family() == AF_INET {
        let back = sockaddr_inet_of(SocketAddress::V4(native.ipv4()));
        assert forall|i: int| 0 <= i < 28 implies back.bytes[i] == b[i] by {
            if i >= 8 {
                assert(b[i] == 0);
            }
        }
        assert(back.bytes =~= b);
    } else {
        lemma_bytes_of_u32(b[4], b[5], b[6], b[7]);
        lemma_bytes_of_u32(b[24], b[25], b[26], b[27]);
        let back = sockaddr_inet_of(SocketAddress::V6(native.ipv6()));
        assert forall|i: int| 0 <= i < 28 implies back.bytes[i] == b[i] by {
        }
        assert(back.bytes =~= b);
    }
}

/// A record converts to a socket address exactly when its family is IPv4 or
/// IPv6; any other family is reported with its code.
pub proof fn lemma_unknown_family_is_reported(native: SockaddrInet)
    ensures
        native.socket_address() is Ok <==> native.family() == AF_INET || native.family()
            == AF_INET6,
        native.socket_address() matches Err(error) ==> error == Error::UnknownAddressFamily(
            native.family() as i32,
        ),
{
}

} // verus!
