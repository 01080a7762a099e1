//! Address families and their `AF_*` codes.

use crate::windows::error::Error;
use vstd::prelude::*;

verus! {

/// The code that stands for no particular address family.
pub const AF_UNSPEC: u16 = 0;

/// The code of the IPv4 address family.
pub const AF_INET: u16 = 2;

/// The code of the IPv6 address family.
pub const AF_INET6: u16 = 23;

/// Address family. These correspond to the `AF_*` constants.
#[derive(Clone, Copy, Debug, PartialEq, Eq, Structural)]
pub enum AddressFamily {
    /// IPv4 address family
    Ipv4,
    /// IPv6 address family
    Ipv6,
}

impl AddressFamily {
    /// The `AF_*` code of the family.
    pub open spec fn code(self) -> u16 {
        match self {
            AddressFamily::Ipv4 => AF_INET,
            AddressFamily::Ipv6 => AF_INET6,
        }
    }

    /// The family that a code stands for, or the error for a code that stands
    /// for neither family.
    pub open spec fn of_code(family: u16) -> Result<AddressFamily, Error> {
        if family == AF_INET {
            Ok(AddressFamily::Ipv4)
        } else if family == AF_INET6 {
            Ok(AddressFamily::Ipv6)
        } else {
            Err(Error::UnknownAddressFamily(family as i32))
        }
    }

    /// Converts the family to its `AF_*` constant.
    pub fn to_af_family(self) -> (family: u16)
        ensures
            family == self.code(),
    {
        match self {
            AddressFamily::Ipv4 => AF_INET,
            AddressFamily::Ipv6 => AF_INET6,
        }
    }

    /// Converts one of the `AF_*` constants to an [`AddressFamily`].
    pub fn try_from_af_family(family: u16) -> (converted: Result<AddressFamily, Error>)
        ensures
            converted == AddressFamily::of_code(family),
    {
        if family == AF_INET {
            Ok(AddressFamily::Ipv4)
        } else if family == AF_INET6 {
            Ok(AddressFamily::Ipv6)
        } else {
            Err(Error::UnknownAddressFamily(family as i32))
        }
    }

    /// The name of the family, with its constant.
    pub fn name(&self) -> (name: &'static str)
        ensures
            name@ == match *self {
                AddressFamily::Ipv4 => "IPv4 (AF_INET)"@,
                AddressFamily::Ipv6 => "IPv6 (AF_INET6)"@,
            },
    {
        match self {
            AddressFamily::Ipv4 => "IPv4 (AF_INET)",
            AddressFamily::Ipv6 => "IPv6 (AF_INET6)",
        }
    }
}

/// The family code to hand to the network stack: that of the family, and
/// `AF_UNSPEC` where every family is meant.
pub open spec fn family_code(family: Option<AddressFamily>) -> u16 {
    match family {
        Some(family) => family.code(),
        None => AF_UNSPEC,
    }
}

/// Converts a family that may be left open to the code that the network stack
/// takes.
pub fn af_family_from_family(family: Option<AddressFamily>) -> (code: u16)
    ensures
        code == family_code(family),
{
    match family {
        Some(family) => family.to_af_family(),
        None => AF_UNSPEC,
    }
}

/// A family comes back from its own code.
pub proof fn lemma_family_code_round_trip(family: AddressFamily)
    ensures
        AddressFamily::of_code(family.code()) == Ok::<AddressFamily, Error>(family),
{
}

/// A code that stands for a family is the code of that family, and no other
/// code stands for a family.
pub proof fn lemma_code_family_round_trip(code: u16)
    ensures
        AddressFamily::of_code(code) matches Ok(family) ==> family.code() == code,
        AddressFamily::of_code(code) is Ok <==> code == AF_INET || code == AF_INET6,
{
}

} // verus!
