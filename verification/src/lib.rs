//! Core of an endless-runner: procedural track streaming and locomotion
//! control, driven by a fixed-timestep tick pipeline.
//!
//! The world is modelled on a single forward axis in integer distance units
//! (a caller picks the physical scale, e.g. micro-units per world unit) and
//! integer time units (e.g. microseconds).  The surrounding engine — rigid
//! bodies, shape casts, rendering, input devices — is an external
//! collaborator: each tick it hands the core plain values (the player body's
//! lateral position and velocity, the result of the downward shape cast, the
//! decoded command queue) and takes plain values back (which chunks to
//! spawn or retire, the lateral force, jump impulses).

use vstd::prelude::*;

pub mod lane;
pub mod probe;
pub mod sim;
pub mod track;

verus! {

/// A fatal configuration error, detected when the level is assembled.
/// Initialization must abort on these rather than run with undefined
/// geometry.
#[derive(Clone, Copy, Debug, PartialEq, Eq, Structural)]
pub enum ConfigError {
    /// A chunk template whose length is not positive: the spawn loop would
    /// never advance the cursor.
    NonPositiveChunkLength,
    /// The ground probe was handed a collider that is not a capsule.
    NonCapsuleCollider,
}

impl ConfigError {
    /// A diagnostic line for halting the level on a configuration error.
    pub fn describe(&self) -> (s: &'static str)
        ensures
            *self is NonPositiveChunkLength ==> s@ == "chunk length must be positive"@,
            *self is NonCapsuleCollider ==> s@ == "ground probe requires a capsule collider"@,
    {
        match self {
            ConfigError::NonPositiveChunkLength => "chunk length must be positive",
            ConfigError::NonCapsuleCollider => "ground probe requires a capsule collider",
        }
    }
}

} // verus!
