//! One generation of tunnel parameters, as a conversation.
//!
//! A generation cannot do its outside work itself: reading the version cache
//! and the settings, drawing a number, asking the account manager and the
//! relay selector, resolving a hostname. It names each piece of work as a
//! `Request`; whoever drives the generation does the work and answers with the
//! matching `Reply`.

use crate::tunnel::error::Error;
use crate::tunnel::migration::{Binary32, VersionCache};
use crate::tunnel::parameters::{TunnelOptions, TunnelParameters, TunnelParametersView};
use crate::tunnel::selection::{
    AccountAndDevice, CustomTunnelEndpoint, NormalSelectedRelay, SelectedBridge,
    SelectedObfuscator, Selection, SelectorError,
};
use vstd::prelude::*;

verus! {

/// The settings that a generation reads.
#[derive(Clone, Copy, Debug, PartialEq, Eq, Structural)]
pub struct Settings {
    /// The number drawn for this installation, once one was drawn and kept.
    pub migration_random: Option<Binary32>,
}

/// Outside work that a generation waits for.
#[derive(Clone, Debug, PartialEq, Eq)]
pub enum Request {
    /// Read the version cache. Answered by `Reply::VersionCache`.
    LoadVersionCache,
    /// Read the settings. Answered by `Reply::Settings`.
    LoadSettings,
    /// Draw a number uniformly from the half-open interval from zero to one.
    /// Answered by `Reply::Random`.
    DrawRandom,
    /// Keep the drawn number in the settings. Answered by `Reply::Persisted`.
    PersistRandom(Binary32),
    /// Ask the account manager for the device that the client is logged in
    /// with. Answered by `Reply::Device`.
    QueryDevice,
    /// Ask the relay selector for relays. Answered by `Reply::Relay`.
    SelectRelay { retry_attempt: u32, default_to_new_protocol: bool },
    /// Resolve the host of a custom relay and build its tunnel parameters
    /// under these options, without a proxy. Answered by
    /// `Reply::CustomResolved`.
    ResolveCustomRelay { relay: CustomTunnelEndpoint, tunnel_options: TunnelOptions },
}

/// The outcome of a piece of outside work.
#[derive(Debug, PartialEq, Eq)]
pub enum Reply {
    /// The version cache, or `None` where it could not be read.
    VersionCache(Option<VersionCache>),
    /// The settings.
    Settings(Settings),
    /// The number that was drawn.
    Random(Binary32),
    /// Whether the number was kept in the settings.
    Persisted(bool),
    /// The device, or `None` where the client is not logged in on a valid one.
    Device(Option<AccountAndDevice>),
    /// What the relay selector chose.
    Relay(Result<Selection, SelectorError>),
    /// The parameters of the custom relay, or `None` where its host did not
    /// resolve.
    CustomResolved(Option<TunnelParameters>),
}

/// What a generation waits for, with what it has decided so far.
#[derive(Clone, Debug, PartialEq, Eq)]
pub enum Stage {
    /// Waits for the version cache.
    VersionCache,
    /// Waits for the settings; the threshold is decided.
    Settings { threshold: Binary32 },
    /// Waits for a fresh draw, the settings holding none.
    Draw { threshold: Binary32 },
    /// Waits for the fresh draw to be kept; the preference is decided.
    Persist { default_to_new_protocol: bool },
    /// Waits for the device, to know that the client is logged in.
    Device { default_to_new_protocol: bool },
    /// Waits for the relay selector.
    Relay,
    /// Waits for the parameters of a custom relay.
    CustomResolution,
    /// Waits for the device, to build parameters for the selected relay.
    DeviceForParameters {
        relay: NormalSelectedRelay,
        bridge: Option<SelectedBridge>,
        obfuscator: Option<SelectedObfuscator>,
    },
}

/// How far a generation has come.
#[derive(Clone, Debug, PartialEq, Eq)]
pub struct Generation {
    /// How many attempts to connect failed before this one.
    pub retry_attempt: u32,
    pub stage: Stage,
}

/// How far a reply brings a generation, with the parameters that it may end
/// with taken by what they hold.
pub enum ProgressView {
    Pending(Generation, Request),
    Done(Result<TunnelParametersView, Error>),
    Mismatch(Generation),
}

impl Reply {
    /// Whether the reply names a device.
    pub open spec fn names_device(self) -> bool {
        self matches Reply::Device(Some(_))
    }

    /// Whether the reply brings the parameters of a custom relay.
    pub open spec fn brings_parameters(self) -> bool {
        self matches Reply::CustomResolved(Some(_))
    }
}

impl ProgressView {
    /// Whether the generation has ended with parameters.
    pub open spec fn succeeded(self) -> bool {
        self matches ProgressView::Done(Ok(_))
    }
}

impl Stage {
    /// The number of replies that a generation at this stage can still take
    /// at most.
    pub open spec fn replies_left(self) -> nat {
        match self {
            Stage::VersionCache => 7,
            Stage::Settings { .. } => 6,
            Stage::Draw { .. } => 5,
            Stage::Persist { .. } => 4,
            Stage::Device { .. } => 3,
            Stage::Relay => 2,
            Stage::CustomResolution => 1,
            Stage::DeviceForParameters { .. } => 1,
        }
    }
}

impl Generation {
    /// Whether `reply` is the kind of reply that the generation waits for.
    pub open spec fn awaits(self, reply: Reply) -> bool {
        match (self.stage, reply) {
            (Stage::VersionCache, Reply::VersionCache(_)) => true,
            (Stage::Settings { .. }, Reply::Settings(_)) => true,
            (Stage::Draw { .. }, Reply::Random(_)) => true,
            (Stage::Persist { .. }, Reply::Persisted(_)) => true,
            (Stage::Device { .. }, Reply::Device(_)) => true,
            (Stage::Relay, Reply::Relay(_)) => true,
            (Stage::CustomResolution, Reply::CustomResolved(_)) => true,
            (Stage::DeviceForParameters { .. }, Reply::Device(_)) => true,
            _ => false,
        }
    }

    /// The generation at `stage` of the same attempt.
    pub open spec fn at(self, stage: Stage) -> Generation {
        Generation { retry_attempt: self.retry_attempt, stage }
    }

    /// A generation that has just begun, for an attempt that follows
    /// `retry_attempt` failed ones. It waits for the version cache.
    pub open spec fn initial(retry_attempt: u32) -> Generation {
        Generation { retry_attempt, stage: Stage::VersionCache }
    }

    /// Tells whether `reply` is the kind of reply that the generation waits
    /// for.
    pub fn expects(&self, reply: &Reply) -> (expected: bool)
        ensures
            expected == self.awaits(*reply),
    {
        match (&self.stage, reply) {
            (Stage::VersionCache, Reply::VersionCache(_)) => true,
            (Stage::Settings { .. }, Reply::Settings(_)) => true,
            (Stage::Draw { .. }, Reply::Random(_)) => true,
            (Stage::Persist { .. }, Reply::Persisted(_)) => true,
            (Stage::Device { .. }, Reply::Device(_)) => true,
            (Stage::Relay, Reply::Relay(_)) => true,
            (Stage::CustomResolution, Reply::CustomResolved(_)) => true,
            (Stage::DeviceForParameters { .. }, Reply::Device(_)) => true,
            _ => false,
        }
    }
}

} // verus!
