//! Generation of tunnel parameters.

pub mod error;
pub mod generation;
pub mod generator;
pub mod laws;
pub mod migration;
pub mod parameters;
pub mod relay;
pub mod selection;
