//! Evidence records: one capture event each, with a canonical byte encoding
//! and a check that re-derives the recorded jitter.

use vstd::prelude::*;
use crate::clock::current_timestamp_us;
use crate::crypto::{ct_eq, HmacSha256, MacView, Sha256Hasher};
use crate::encoding::{
    lemma_le_bytes_len, lemma_u32_le_injective, lemma_u64_le_injective, u32_le, u32_to_le, u64_le,
    u64_to_le,
};
use crate::traits::JitterEngine;
use crate::types::{Jitter, PhysHash};

verus! {

/// The first canonical byte of an entropy-bound record.
pub const TAG_PHYS: u8 = 0x00;

/// The first canonical byte of a secret-only record.
pub const TAG_PURE: u8 = 0x01;

/// Evidence of one jitter computation.
#[derive(Debug, Eq)]
pub enum Evidence {
    /// Entropy-bound evidence: the jitter was derived with a hardware sample.
    Phys {
        /// Hash of the hardware entropy sample.
        phys_hash: PhysHash,
        /// Computed jitter delay in microseconds.
        jitter: Jitter,
        /// Time of capture, in microseconds since the Unix epoch.
        timestamp_us: u64,
    },
    /// Secret-only evidence: the jitter was derived from the secret alone.
    Pure {
        /// Computed jitter delay in microseconds.
        jitter: Jitter,
        /// Time of capture, in microseconds since the Unix epoch.
        timestamp_us: u64,
    },
}

impl Clone for Evidence {
    fn clone(&self) -> (copy: Self)
        ensures
            copy == *self,
    {
        match self {
            Evidence::Phys { phys_hash, jitter, timestamp_us } => Evidence::Phys {
                phys_hash: *phys_hash,
                jitter: *jitter,
                timestamp_us: *timestamp_us,
            },
            Evidence::Pure { jitter, timestamp_us } => Evidence::Pure {
                jitter: *jitter,
                timestamp_us: *timestamp_us,
            },
        }
    }
}

impl PartialEq for Evidence {
    fn eq(&self, other: &Self) -> (equal: bool) {
        match (self, other) {
            (
                Evidence::Phys { phys_hash: h1, jitter: j1, timestamp_us: t1 },
                Evidence::Phys { phys_hash: h2, jitter: j2, timestamp_us: t2 },
            ) => h1 == h2 && *j1 == *j2 && *t1 == *t2,
            (
                Evidence::Pure { jitter: j1, timestamp_us: t1 },
                Evidence::Pure { jitter: j2, timestamp_us: t2 },
            ) => *j1 == *j2 && *t1 == *t2,
            _ => false,
        }
    }
}

impl vstd::std_specs::cmp::PartialEqSpecImpl for Evidence {
    open spec fn obeys_eq_spec() -> bool {
        true
    }

    open spec fn eq_spec(&self, other: &Self) -> bool {
        *self == *other
    }
}

impl Evidence {
    /// The jitter value, whichever the variant.
    pub open spec fn spec_jitter(&self) -> Jitter {
        match *self {
            Evidence::Phys { jitter, .. } => jitter,
            Evidence::Pure { jitter, .. } => jitter,
        }
    }

    /// Whether the record is entropy-bound.
    pub open spec fn spec_is_phys(&self) -> bool {
        *self is Phys
    }

    /// The capture time, whichever the variant.
    pub open spec fn spec_timestamp_us(&self) -> u64 {
        match *self {
            Evidence::Phys { timestamp_us, .. } => timestamp_us,
            Evidence::Pure { timestamp_us, .. } => timestamp_us,
        }
    }

    /// The entropy the jitter is derived with: the recorded sample for an
    /// entropy-bound record, the all-zero value for a secret-only one.
    pub open spec fn entropy(&self) -> PhysHash {
        match *self {
            Evidence::Phys { phys_hash, .. } => phys_hash,
            Evidence::Pure { .. } => PhysHash::zero(),
        }
    }

    /// The canonical encoding that integrity codes are computed over:
    /// the type tag; for an entropy-bound record the 32 hash bytes and the
    /// entropy strength; then the jitter as four little-endian bytes and the
    /// timestamp as eight.
    pub open spec fn canonical_bytes(&self) -> Seq<u8> {
        match *self {
            Evidence::Phys { phys_hash, jitter, timestamp_us } => seq![TAG_PHYS] + phys_hash.hash@
                + seq![phys_hash.entropy_bits] + u32_le(jitter) + u64_le(timestamp_us),
            Evidence::Pure { jitter, timestamp_us } => seq![TAG_PURE] + u32_le(jitter) + u64_le(
                timestamp_us,
            ),
        }
    }

    /// Whether `engine` derives the recorded jitter from `secret` and
    /// `inputs`, together with the record's entropy.
    pub open spec fn spec_verify<E: JitterEngine>(
        &self,
        secret: &[u8; 32],
        inputs: &[u8],
        engine: &E,
    ) -> bool {
        engine.derived_jitter(secret, inputs, self.entropy()) == self.spec_jitter()
    }

    /// Entropy-bound evidence of `jitter`, stamped with the current time.
    pub fn phys(phys_hash: PhysHash, jitter: Jitter) -> (evidence: Self)
        ensures
            evidence is Phys,
            evidence->phys_hash == phys_hash,
            evidence.spec_jitter() == jitter,
    {
        Evidence::Phys { phys_hash, jitter, timestamp_us: current_timestamp_us() }
    }

    /// Secret-only evidence of `jitter`, stamped with the current time.
    pub fn pure(jitter: Jitter) -> (evidence: Self)
        ensures
            evidence is Pure,
            evidence.spec_jitter() == jitter,
    {
        Evidence::Pure { jitter, timestamp_us: current_timestamp_us() }
    }

    /// Feeds the canonical encoding of the record to `hasher`.
    pub fn hash_into(&self, hasher: &mut Sha256Hasher)
        ensures
            final(hasher)@ == old(hasher)@ + self.canonical_bytes(),
    {
        match self {
            Evidence::Phys { phys_hash, jitter, timestamp_us } => {
                let tag: [u8; 1] = [TAG_PHYS];
                let strength: [u8; 1] = [phys_hash.entropy_bits];
                let jitter_bytes = u32_to_le(*jitter);
                let timestamp_bytes = u64_to_le(*timestamp_us);
                hasher.update(&tag);
                hasher.update(&phys_hash.hash);
                hasher.update(&strength);
                hasher.update(&jitter_bytes);
                hasher.update(&timestamp_bytes);
                assert(hasher@ =~= old(hasher)@ + self.canonical_bytes());
            },
            Evidence::Pure { jitter, timestamp_us } => {
                let tag: [u8; 1] = [TAG_PURE];
                let jitter_bytes = u32_to_le(*jitter);
                let timestamp_bytes = u64_to_le(*timestamp_us);
                hasher.update(&tag);
                hasher.update(&jitter_bytes);
                hasher.update(&timestamp_bytes);
                assert(hasher@ =~= old(hasher)@ + self.canonical_bytes());
            },
        }
    }

    /// Feeds the canonical encoding of the record to `mac`.
    pub fn hash_into_mac(&self, mac: &mut HmacSha256)
        ensures
            final(mac)@ == (MacView {
                key: old(mac)@.key,
                message: old(mac)@.message + self.canonical_bytes(),
            }),
    {
        match self {
            Evidence::Phys { phys_hash, jitter, timestamp_us } => {
                let tag: [u8; 1] = [TAG_PHYS];
                let strength: [u8; 1] = [phys_hash.entropy_bits];
                let jitter_bytes = u32_to_le(*jitter);
                let timestamp_bytes = u64_to_le(*timestamp_us);
                mac.update(&tag);
                mac.update(&phys_hash.hash);
                mac.update(&strength);
                mac.update(&jitter_bytes);
                mac.update(&timestamp_bytes);
                assert(mac@.message =~= old(mac)@.message + self.canonical_bytes());
            },
            Evidence::Pure { jitter, timestamp_us } => {
                let tag: [u8; 1] = [TAG_PURE];
                let jitter_bytes = u32_to_le(*jitter);
                let timestamp_bytes = u64_to_le(*timestamp_us);
                mac.update(&tag);
                mac.update(&jitter_bytes);
                mac.update(&timestamp_bytes);
                assert(mac@.message =~= old(mac)@.message + self.canonical_bytes());
            },
        }
    }

    /// The jitter value, whichever the variant.
    #[verifier::when_used_as_spec(spec_jitter)]
    pub fn jitter(&self) -> (jitter: Jitter)
        ensures
            jitter == self.spec_jitter(),
    {
        match self {
            Evidence::Phys { jitter, .. } => *jitter,
            Evidence::Pure { jitter, .. } => *jitter,
        }
    }

    /// Whether the record is entropy-bound.
    #[verifier::when_used_as_spec(spec_is_phys)]
    pub fn is_phys(&self) -> (phys: bool)
        ensures
            phys == self.spec_is_phys(),
    {
        match self {
            Evidence::Phys { .. } => true,
            Evidence::Pure { .. } => false,
        }
    }

    /// The capture time in microseconds since the Unix epoch.
    #[verifier::when_used_as_spec(spec_timestamp_us)]
    pub fn timestamp_us(&self) -> (timestamp_us: u64)
        ensures
            timestamp_us == self.spec_timestamp_us(),
    {
        match self {
            Evidence::Phys { timestamp_us, .. } => *timestamp_us,
            Evidence::Pure { timestamp_us, .. } => *timestamp_us,
        }
    }

    /// Whether `recomputed` is the recorded jitter. The two are compared as
    /// little-endian bytes, in constant time.
    pub fn matches_jitter(&self, recomputed: Jitter) -> (same: bool)
        ensures
            same == (recomputed == self.spec_jitter()),
    {
        let recomputed_bytes = u32_to_le(recomputed);
        let stored_bytes = u32_to_le(self.jitter());
        let same = ct_eq(&recomputed_bytes, &stored_bytes);
        proof {
            if same {
                lemma_u32_le_injective(recomputed, self.spec_jitter());
            }
        }
        same
    }

    /// Recomputes the jitter from `secret` and `inputs` with `engine` and
    /// checks it against the recorded value.
    ///
    /// An entropy-bound record is recomputed with its recorded entropy, a
    /// secret-only record with the all-zero entropy value.
    pub fn verify<E: JitterEngine>(&self, secret: &[u8; 32], inputs: &[u8], engine: &E) -> (valid:
        bool)
        ensures
            valid == self.spec_verify(secret, inputs, engine),
    {
        match self {
            Evidence::Phys { phys_hash, .. } => {
                let recomputed = engine.compute_jitter(secret, inputs, *phys_hash);
                self.matches_jitter(recomputed)
            },
            Evidence::Pure { .. } => {
                let recomputed = engine.compute_jitter(secret, inputs, PhysHash::from([0u8; 32]));
                self.matches_jitter(recomputed)
            },
        }
    }
}

/// The canonical encoding tells records apart: two records with the same
/// canonical bytes are the same record.
pub proof fn lemma_canonical_bytes_injective(left: Evidence, right: Evidence)
    requires
        left.canonical_bytes() == right.canonical_bytes(),
    ensures
        left == right,
{
    let l = left.canonical_bytes();
    let r = right.canonical_bytes();
    lemma_le_bytes_len(left.spec_jitter() as nat, 4);
    lemma_le_bytes_len(right.spec_jitter() as nat, 4);
    lemma_le_bytes_len(left.spec_timestamp_us() as nat, 8);
    lemma_le_bytes_len(right.spec_timestamp_us() as nat, 8);
    assert(l[0] == r[0]);
    match (left, right) {
        (
            Evidence::Phys { phys_hash: h1, jitter: j1, timestamp_us: t1 },
            Evidence::Phys { phys_hash: h2, jitter: j2, timestamp_us: t2 },
        ) => {
            assert(l.len() == 46 && r.len() == 46);
            assert(h1.hash@ =~= l.subrange(1, 33));
            assert(h2.hash@ =~= r.subrange(1, 33));
            assert(h1.hash =~= h2.hash);
            assert(l[33] == h1.entropy_bits && r[33] == h2.entropy_bits);
            assert(u32_le(j1) =~= l.subrange(34, 38));
            assert(u32_le(j2) =~= r.subrange(34, 38));
            assert(u64_le(t1) =~= l.subrange(38, 46));
            assert(u64_le(t2) =~= r.subrange(38, 46));
            lemma_u32_le_injective(j1, j2);
            lemma_u64_le_injective(t1, t2);
        },
        (
            Evidence::Pure { jitter: j1, timestamp_us: t1 },
            Evidence::Pure { jitter: j2, timestamp_us: t2 },
        ) => {
            assert(l.len() == 13 && r.len() == 13);
            assert(u32_le(j1) =~= l.subrange(1, 5));
            assert(u32_le(j2) =~= r.subrange(1, 5));
            assert(u64_le(t1) =~= l.subrange(5, 13));
            assert(u64_le(t2) =~= r.subrange(5, 13));
            lemma_u32_le_injective(j1, j2);
            lemma_u64_le_injective(t1, t2);
        },
        (Evidence::Phys { .. }, Evidence::Pure { .. }) => {
            assert(l[0] == TAG_PHYS && r[0] == TAG_PURE);
        },
        (Evidence::Pure { .. }, Evidence::Phys { .. }) => {
            assert(l[0] == TAG_PURE && r[0] == TAG_PHYS);
        },
    }
}

} // verus!
