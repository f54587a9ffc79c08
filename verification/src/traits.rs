//! The two capabilities the evidence core takes from outside: a source of
//! hardware entropy, and an engine that derives a jitter value.

use vstd::prelude::*;
use crate::types::{Error, Jitter, PhysHash};

verus! {

/// A source of physical entropy, sampled from hardware.
pub trait EntropySource {
    /// Collects an entropy sample, mixed with `inputs`.
    ///
    /// Fails with [`Error::InsufficientEntropy`] when the sample is too weak.
    /// What comes back depends on the hardware at the moment of the call, so
    /// nothing is promised of it.
    fn sample(&self, inputs: &[u8]) -> Result<PhysHash, Error>;

    /// Whether a captured hash meets this source's requirements.
    fn validate(&self, hash: PhysHash) -> bool;
}

/// An engine that derives a jitter delay from a secret, an input and entropy.
pub trait JitterEngine {
    /// The jitter this engine derives from the three inputs. An engine is
    /// deterministic: on the same inputs `compute_jitter` always gives this
    /// value. An engine in unverified code defines it by calling
    /// `compute_jitter`.
    spec fn derived_jitter(&self, secret: &[u8; 32], inputs: &[u8], entropy: PhysHash) -> Jitter;

    /// Computes the jitter delay for `inputs` under `secret` and `entropy`.
    fn compute_jitter(&self, secret: &[u8; 32], inputs: &[u8], entropy: PhysHash) -> (jitter:
        Jitter)
        ensures
            jitter == self.derived_jitter(secret, inputs, entropy),
    ;
}

} // verus!
