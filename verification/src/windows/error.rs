//! Errors of the network stack and of the waits built on it.

use vstd::prelude::*;
use vstd::std_specs::convert::FromSpecImpl;

verus! {

/// The duplicate address detection state of an address that is not valid.
pub const IP_DAD_STATE_INVALID: u32 = 0;

/// The state of an address whose uniqueness is still being verified.
pub const IP_DAD_STATE_TENTATIVE: u32 = 1;

/// The state of an address that another node already uses.
pub const IP_DAD_STATE_DUPLICATE: u32 = 2;

/// The state of an address that should no longer be used.
pub const IP_DAD_STATE_DEPRECATED: u32 = 3;

/// The state of an address that is verified and usable.
pub const IP_DAD_STATE_PREFERRED: u32 = 4;

/// An error code of the operating system.
#[derive(Clone, Copy, Debug, PartialEq, Eq, Structural)]
pub struct OsError {
    pub code: i32,
}

/// A duplicate address detection state that is neither tentative nor
/// preferred.
#[derive(Clone, Copy, Debug, PartialEq, Eq, Structural)]
pub enum DadStateError {
    /// Invalid DAD state.
    Invalid,
    /// A duplicate IP address was detected.
    Duplicate,
    /// The IP address has been deprecated.
    Deprecated,
    /// A state that is none of these three, with its code.
    Unknown(u32),
}

impl DadStateError {
    /// The error that stands for a state code. The codes of the tentative and
    /// the preferred state are no errors; handed in all the same, they come
    /// back as unknown.
    pub open spec fn of_state(state: u32) -> DadStateError {
        if state == IP_DAD_STATE_INVALID {
            DadStateError::Invalid
        } else if state == IP_DAD_STATE_DUPLICATE {
            DadStateError::Duplicate
        } else if state == IP_DAD_STATE_DEPRECATED {
            DadStateError::Deprecated
        } else {
            DadStateError::Unknown(state)
        }
    }
}

impl FromSpecImpl<u32> for DadStateError {
    open spec fn obeys_from_spec() -> bool {
        true
    }

    open spec fn from_spec(state: u32) -> DadStateError {
        DadStateError::of_state(state)
    }
}

impl From<u32> for DadStateError {
    fn from(state: u32) -> (error: DadStateError) {
        if state == IP_DAD_STATE_INVALID {
            DadStateError::Invalid
        } else if state == IP_DAD_STATE_DUPLICATE {
            DadStateError::Duplicate
        } else if state == IP_DAD_STATE_DEPRECATED {
            DadStateError::Deprecated
        } else {
            DadStateError::Unknown(state)
        }
    }
}

/// Why an interface could not be identified, or did not become ready.
#[derive(Clone, Copy, Debug, PartialEq, Eq, Structural)]
pub enum Error {
    /// No LUID was found for the adapter.
    NoDeviceLuid(OsError),
    /// The unicast address table, or an entry of it, could not be read.
    ObtainUnicastAddress(OsError),
    /// The adapter has no unicast address.
    NoUnicastAddress,
    /// An address left the tentative state for one that is not preferred.
    DadStateError(DadStateError),
    /// The addresses did not become usable in time.
    DeviceReadyTimeout,
    /// The result of the address check was never delivered.
    UnicastSenderDropped,
    /// An address family that is neither IPv4 nor IPv6, with its code.
    UnknownAddressFamily(i32),
}

} // verus!
