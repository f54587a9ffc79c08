//! The plain values that evidence records are made of.

use vstd::prelude::*;

verus! {

/// A timing delay, in microseconds.
pub type Jitter = u32;

/// A hash of a hardware-entropy sample, with the strength claimed for it.
#[derive(Debug, Clone, Copy, Hash, Eq)]
pub struct PhysHash {
    /// SHA-256 of the sampled entropy.
    pub hash: [u8; 32],
    /// Claimed entropy of the sample, in bits.
    pub entropy_bits: u8,
}

/// Whether two 32-byte arrays hold the same bytes.
pub fn bytes32_eq(left: &[u8; 32], right: &[u8; 32]) -> (equal: bool)
    ensures
        equal == (left@ == right@),
{
    let mut i: usize = 0;
    while i < 32
        invariant
            i <= 32,
            forall|k: int| 0 <= k < i ==> left@[k] == right@[k],
        decreases 32 - i,
    {
        if left[i] != right[i] {
            return false;
        }
        i += 1;
    }
    assert(left@ =~= right@);
    true
}

impl PartialEq for PhysHash {
    fn eq(&self, other: &Self) -> (equal: bool) {
        let same = self.entropy_bits == other.entropy_bits && bytes32_eq(&self.hash, &other.hash);
        proof {
            if same {
                assert(self.hash =~= other.hash);
            }
        }
        same
    }
}

impl vstd::std_specs::cmp::PartialEqSpecImpl for PhysHash {
    open spec fn obeys_eq_spec() -> bool {
        true
    }

    open spec fn eq_spec(&self, other: &Self) -> bool {
        *self == *other
    }
}

impl PhysHash {
    /// The entropy value that stands in where no hardware sample was taken.
    pub open spec fn zero() -> PhysHash {
        PhysHash { hash: vstd::array::spec_array_fill_for_copy_type::<u8, 32>(0u8), entropy_bits: 0 }
    }
}

impl From<[u8; 32]> for PhysHash {
    fn from(hash: [u8; 32]) -> (phys_hash: PhysHash) {
        PhysHash { hash, entropy_bits: 0 }
    }
}

impl vstd::std_specs::convert::FromSpecImpl<[u8; 32]> for PhysHash {
    open spec fn obeys_from_spec() -> bool {
        true
    }

    open spec fn from_spec(hash: [u8; 32]) -> PhysHash {
        PhysHash { hash, entropy_bits: 0 }
    }
}

/// What can go wrong while collecting entropy.
#[derive(Debug, Clone, Copy, PartialEq, Eq, Structural)]
pub enum Error {
    /// The sample held fewer bits of entropy than were required.
    InsufficientEntropy {
        /// Bits required.
        required: u8,
        /// Bits found.
        found: u8,
    },
}

} // verus!
