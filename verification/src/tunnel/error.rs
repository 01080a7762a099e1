//! Why a generation fails, and what the tunnel engine is told of it.

use crate::tunnel::parameters::TunnelParameters;
use vstd::prelude::*;

verus! {

/// Why no tunnel parameters were generated.
#[derive(Clone, Copy, Debug, PartialEq, Eq, Structural)]
pub enum Error {
    /// The client is not logged in on a valid device.
    NoAuthDetails,
    /// The relay selector found no relay.
    NoRelayAvailable,
    /// The relay selector found no bridge.
    NoBridgeAvailable,
    /// The hostname of a custom relay did not resolve.
    ResolveCustomHostname,
}

/// What the tunnel engine distinguishes when a generation fails: whether
/// another bridge may help, whether a custom host failed to resolve, or whether
/// there is nothing else to try.
#[derive(Clone, Copy, Debug, PartialEq, Eq, Structural)]
pub enum ParameterGenerationError {
    NoMatchingBridgeRelay,
    CustomTunnelHostResolutionError,
    NoMatchingRelay,
}

impl Error {
    /// The error that the tunnel engine sees for this one.
    pub open spec fn narrowed(self) -> ParameterGenerationError {
        match self {
            Error::NoBridgeAvailable => ParameterGenerationError::NoMatchingBridgeRelay,
            Error::ResolveCustomHostname => {
                ParameterGenerationError::CustomTunnelHostResolutionError
            },
            Error::NoAuthDetails | Error::NoRelayAvailable => {
                ParameterGenerationError::NoMatchingRelay
            },
        }
    }

    /// Whether the tunnel engine's error stands for this error alone. The
    /// others lose their cause on the way, so they are worth a log entry
    /// before they are narrowed.
    pub open spec fn survives_narrowing(self) -> bool {
        self == Error::NoBridgeAvailable || self == Error::ResolveCustomHostname
    }

    /// Narrows the error to what the tunnel engine understands.
    pub fn narrow(self) -> (narrowed: ParameterGenerationError)
        ensures
            narrowed == self.narrowed(),
    {
        match self {
            Error::NoBridgeAvailable => ParameterGenerationError::NoMatchingBridgeRelay,
            Error::ResolveCustomHostname => {
                ParameterGenerationError::CustomTunnelHostResolutionError
            },
            _ => ParameterGenerationError::NoMatchingRelay,
        }
    }

    /// Tells whether narrowing keeps the cause of this error.
    pub fn keeps_cause(self) -> (kept: bool)
        ensures
            kept == self.survives_narrowing(),
    {
        match self {
            Error::NoBridgeAvailable | Error::ResolveCustomHostname => true,
            _ => false,
        }
    }
}

/// What the tunnel engine is handed for the outcome of a generation.
pub open spec fn engine_outcome(outcome: Result<TunnelParameters, Error>) -> Result<
    TunnelParameters,
    ParameterGenerationError,
> {
    match outcome {
        Ok(parameters) => Ok(parameters),
        Err(error) => Err(error.narrowed()),
    }
}

/// Hands the outcome of a generation to the tunnel engine: parameters pass
/// unchanged, an error is narrowed.
pub fn to_engine_outcome(outcome: Result<TunnelParameters, Error>) -> (narrowed: Result<
    TunnelParameters,
    ParameterGenerationError,
>)
    ensures
        narrowed == engine_outcome(outcome),
{
    match outcome {
        Ok(parameters) => Ok(parameters),
        Err(error) => Err(error.narrow()),
    }
}

/// The tunnel engine is told of a missing bridge, or of a custom host that did
/// not resolve, exactly when that is what happened.
pub proof fn lemma_narrowing_keeps_the_retry_cases(error: Error)
    ensures
        error.narrowed() == ParameterGenerationError::NoMatchingBridgeRelay <==> error
            == Error::NoBridgeAvailable,
        error.narrowed() == ParameterGenerationError::CustomTunnelHostResolutionError <==> error
            == Error::ResolveCustomHostname,
        error.narrowed() == ParameterGenerationError::NoMatchingRelay
            <==> !error.survives_narrowing(),
{
}

} // verus!
