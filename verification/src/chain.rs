//! The evidence ledger: an append-only sequence of records under one rolling
//! authentication code.

use vstd::prelude::*;
use crate::crypto::{
    ct_eq, hmac_sha256, secret_clone, secret_expose, secret_new, sha256, HmacSha256, SecretKey,
    Sha256Hasher,
};
use crate::evidence::Evidence;
use crate::traits::JitterEngine;
use crate::types::bytes32_eq;

verus! {

/// The ledger format that this library writes.
pub const CHAIN_VERSION: u8 = 1;

/// The rolling code of a ledger without records: 32 zero bytes.
pub open spec fn zero_mac() -> Seq<u8> {
    Seq::new(32, |i: int| 0u8)
}

/// One step of the fold: the code that follows `mac` once `record` is added.
/// With a key it is HMAC-SHA-256 under that key, without one plain SHA-256;
/// either is taken over `mac` followed by the record's canonical bytes.
pub open spec fn fold_step(key: Option<Seq<u8>>, mac: Seq<u8>, record: Evidence) -> Seq<u8> {
    match key {
        Some(k) => hmac_sha256(k, mac + record.canonical_bytes()),
        None => sha256(mac + record.canonical_bytes()),
    }
}

/// The rolling code of `records`: the fold of `fold_step` over them, in
/// order, from `zero_mac`.
pub open spec fn fold(key: Option<Seq<u8>>, records: Seq<Evidence>) -> Seq<u8>
    decreases records.len(),
{
    if records.len() == 0 {
        zero_mac()
    } else {
        fold_step(key, fold(key, records.drop_last()), records.last())
    }
}

/// How many of `records` are entropy-bound.
pub open spec fn count_phys(records: Seq<Evidence>) -> nat
    decreases records.len(),
{
    if records.len() == 0 {
        0
    } else {
        count_phys(records.drop_last()) + if records.last().spec_is_phys() {
            1nat
        } else {
            0nat
        }
    }
}

/// How many of `records` are secret-only.
pub open spec fn count_pure(records: Seq<Evidence>) -> nat
    decreases records.len(),
{
    if records.len() == 0 {
        0
    } else {
        count_pure(records.drop_last()) + if records.last().spec_is_phys() {
            0nat
        } else {
            1nat
        }
    }
}

/// A share of a whole, as two integers. The denominator is never 0.
#[derive(Debug, Clone, Copy, PartialEq, Eq, Structural)]
pub struct Ratio {
    /// The part.
    pub numerator: usize,
    /// The whole.
    pub denominator: usize,
}

/// A ledger as a mathematical value.
pub struct ChainView {
    /// Version of the ledger format.
    pub version: u8,
    /// The records, oldest first.
    pub records: Seq<Evidence>,
    /// The rolling authentication code.
    pub chain_mac: Seq<u8>,
    /// The key the ledger folds with, if it has one.
    pub key: Option<Seq<u8>>,
}

impl ChainView {
    /// The ledger without records that folds with `key`.
    pub open spec fn empty(key: Option<Seq<u8>>) -> ChainView {
        ChainView { version: CHAIN_VERSION, records: Seq::empty(), chain_mac: zero_mac(), key }
    }

    /// The ledger after `record` is appended.
    pub open spec fn append(self, record: Evidence) -> ChainView {
        ChainView {
            version: self.version,
            records: self.records.push(record),
            chain_mac: fold_step(self.key, self.chain_mac, record),
            key: self.key,
        }
    }

    /// The ledger after `records` are appended, in order.
    pub open spec fn append_all(self, records: Seq<Evidence>) -> ChainView
        decreases records.len(),
    {
        if records.len() == 0 {
            self
        } else {
            self.append_all(records.drop_last()).append(records.last())
        }
    }

    /// The ledger's invariant: it has the format version of this library, and
    /// its code is the fold of its records under its own key.
    pub open spec fn wf(self) -> bool {
        &&& self.version == CHAIN_VERSION
        &&& self.chain_mac == fold(self.key, self.records)
    }

    /// Whether the keyed fold of the records under `secret` gives the stored
    /// code. The fold is keyed whether or not the ledger itself has a key.
    pub open spec fn verify_integrity(self, secret: Seq<u8>) -> bool {
        fold(Some(secret), self.records) == self.chain_mac
    }

    /// Whether there is one input for each record, and `engine` derives each
    /// record's jitter from `secret` and the input at the same position.
    pub open spec fn verify_chain<E: JitterEngine>(
        self,
        secret: &[u8; 32],
        inputs: Seq<&[u8]>,
        engine: &E,
    ) -> bool {
        &&& inputs.len() == self.records.len()
        &&& forall|i: int|
            0 <= i < self.records.len() ==> (#[trigger] self.records[i]).spec_verify(
                secret,
                inputs[i],
                engine,
            )
    }

    /// The share of entropy-bound records among all records; 0 of 1 for a
    /// ledger without records.
    pub open spec fn phys_ratio(self) -> (nat, nat) {
        if self.records.len() == 0 {
            (0, 1)
        } else {
            (count_phys(self.records), self.records.len())
        }
    }
}

/// An append-only sequence of evidence records with a rolling
/// authentication code over them.
#[derive(Debug)]
pub struct EvidenceChain {
    /// Version of the evidence format.
    pub version: u8,
    /// The records, oldest first.
    pub records: Vec<Evidence>,
    /// Rolling code over all records, for tamper detection.
    pub chain_mac: [u8; 32],
    /// Key of the fold, for a keyed ledger. It never leaves the ledger.
    secret: Option<SecretKey>,
}

impl View for EvidenceChain {
    type V = ChainView;

    closed spec fn view(&self) -> ChainView {
        ChainView {
            version: self.version,
            records: self.records@,
            chain_mac: self.chain_mac@,
            key: match self.secret {
                Some(holder) => Some(holder@),
                None => None,
            },
        }
    }
}

/// The fold of one more record is one step from the fold of those before it.
pub proof fn lemma_fold_push(key: Option<Seq<u8>>, records: Seq<Evidence>, record: Evidence)
    ensures
        fold(key, records.push(record)) == fold_step(key, fold(key, records), record),
{
    assert(records.push(record).drop_last() =~= records);
}

/// Counting one more record adds it to the count of its kind.
pub proof fn lemma_count_push(records: Seq<Evidence>, record: Evidence)
    ensures
        count_phys(records.push(record)) == count_phys(records) + if record.spec_is_phys() {
            1nat
        } else {
            0nat
        },
        count_pure(records.push(record)) == count_pure(records) + if record.spec_is_phys() {
            0nat
        } else {
            1nat
        },
{
    assert(records.push(record).drop_last() =~= records);
}

/// Every record is of exactly one kind.
pub proof fn lemma_counts_partition(records: Seq<Evidence>)
    ensures
        count_phys(records) + count_pure(records) == records.len(),
    decreases records.len(),
{
    if records.len() > 0 {
        lemma_counts_partition(records.drop_last());
    }
}

impl EvidenceChain {
    /// An empty, unkeyed ledger. Its code is a plain SHA-256 fold.
    pub fn new() -> (chain: Self)
        ensures
            chain@ == ChainView::empty(None),
            chain@.wf(),
    {
        let chain = EvidenceChain {
            version: CHAIN_VERSION,
            records: Vec::new(),
            chain_mac: [0u8; 32],
            secret: None,
        };
        assert(chain.chain_mac@ =~= zero_mac());
        chain
    }

    /// An empty ledger keyed with `secret`. Its code is an HMAC-SHA-256 fold.
    pub fn with_secret(secret: [u8; 32]) -> (chain: Self)
        ensures
            chain@ == ChainView::empty(Some(secret@)),
            chain@.wf(),
    {
        let chain = EvidenceChain {
            version: CHAIN_VERSION,
            records: Vec::new(),
            chain_mac: [0u8; 32],
            secret: Some(secret_new(secret)),
        };
        assert(chain.chain_mac@ =~= zero_mac());
        chain
    }

    /// Appends `evidence` and folds it into the rolling code.
    pub fn append(&mut self, evidence: Evidence)
        ensures
            final(self)@ == old(self)@.append(evidence),
            old(self)@.wf() ==> final(self)@.wf(),
    {
        let next_mac = match &self.secret {
            Some(holder) => {
                let mut mac = HmacSha256::new(secret_expose(holder));
                mac.update(&self.chain_mac);
                evidence.hash_into_mac(&mut mac);
                mac.finalize()
            },
            None => {
                let mut hasher = Sha256Hasher::new();
                hasher.update(&self.chain_mac);
                evidence.hash_into(&mut hasher);
                hasher.finalize()
            },
        };
        proof {
            lemma_fold_push(self@.key, self@.records, evidence);
        }
        self.chain_mac = next_mac;
        self.records.push(evidence);
    }

    /// Recomputes the keyed fold of the records under `secret` and compares
    /// it, in constant time, with the stored code.
    ///
    /// A ledger without records verifies under every secret.
    pub fn verify_integrity(&self, secret: &[u8; 32]) -> (intact: bool)
        ensures
            intact == self@.verify_integrity(secret@),
    {
        let mut expected_mac = [0u8; 32];
        let mut i: usize = 0;
        assert(self.records@.take(0) =~= Seq::<Evidence>::empty());
        assert(expected_mac@ =~= zero_mac());
        while i < self.records.len()
            invariant
                i <= self.records.len(),
                expected_mac@ == fold(Some(secret@), self.records@.take(i as int)),
            decreases self.records.len() - i,
        {
            let mut mac = HmacSha256::new(secret);
            mac.update(&expected_mac);
            self.records[i].hash_into_mac(&mut mac);
            proof {
                lemma_fold_push(Some(secret@), self.records@.take(i as int), self.records@[i as int]);
                assert(self.records@.take(i as int).push(self.records@[i as int])
                    =~= self.records@.take(i + 1));
            }
            expected_mac = mac.finalize();
            i += 1;
        }
        assert(self.records@.take(i as int) =~= self.records@);
        ct_eq(&expected_mac, &self.chain_mac)
    }

    /// The number of entropy-bound records.
    pub fn phys_count(&self) -> (count: usize)
        ensures
            count == count_phys(self@.records),
    {
        let mut count: usize = 0;
        let mut i: usize = 0;
        assert(self.records@.take(0) =~= Seq::<Evidence>::empty());
        while i < self.records.len()
            invariant
                i <= self.records.len(),
                count == count_phys(self.records@.take(i as int)),
                count <= i,
            decreases self.records.len() - i,
        {
            proof {
                lemma_count_push(self.records@.take(i as int), self.records@[i as int]);
                assert(self.records@.take(i as int).push(self.records@[i as int])
                    =~= self.records@.take(i + 1));
            }
            if self.records[i].is_phys() {
                count += 1;
            }
            i += 1;
        }
        assert(self.records@.take(i as int) =~= self.records@);
        count
    }

    /// The number of secret-only records.
    pub fn pure_count(&self) -> (count: usize)
        ensures
            count == count_pure(self@.records),
    {
        let mut count: usize = 0;
        let mut i: usize = 0;
        assert(self.records@.take(0) =~= Seq::<Evidence>::empty());
        while i < self.records.len()
            invariant
                i <= self.records.len(),
                count == count_pure(self.records@.take(i as int)),
                count <= i,
            decreases self.records.len() - i,
        {
            proof {
                lemma_count_push(self.records@.take(i as int), self.records@[i as int]);
                assert(self.records@.take(i as int).push(self.records@[i as int])
                    =~= self.records@.take(i + 1));
            }
            if !self.records[i].is_phys() {
                count += 1;
            }
            i += 1;
        }
        assert(self.records@.take(i as int) =~= self.records@);
        count
    }

    /// The share of entropy-bound records among all records, as a fraction:
    /// 0 of 1 for a ledger without records, so that the share is then zero.
    pub fn phys_ratio(&self) -> (ratio: Ratio)
        ensures
            (ratio.numerator as nat, ratio.denominator as nat) == self@.phys_ratio(),
            ratio.denominator > 0,
            ratio.numerator <= ratio.denominator,
    {
        if self.records.len() == 0 {
            Ratio { numerator: 0, denominator: 1 }
        } else {
            proof {
                lemma_counts_partition(self.records@);
            }
            Ratio { numerator: self.phys_count(), denominator: self.records.len() }
        }
    }

    /// Checks every record against the input at its position: whether
    /// `engine` derives the recorded jitter from `secret` and that input.
    ///
    /// Fails when `inputs` has not exactly one entry for each record.
    pub fn verify_chain<E: JitterEngine>(
        &self,
        secret: &[u8; 32],
        inputs: &[&[u8]],
        engine: &E,
    ) -> (valid: bool)
        ensures
            valid == self@.verify_chain(secret, inputs@, engine),
    {
        if inputs.len() != self.records.len() {
            return false;
        }
        let mut i: usize = 0;
        while i < self.records.len()
            invariant
                i <= self.records.len(),
                inputs@.len() == self.records@.len(),
                forall|k: int|
                    0 <= k < i ==> (#[trigger] self.records@[k]).spec_verify(
                        secret,
                        inputs@[k],
                        engine,
                    ),
            decreases self.records.len() - i,
        {
            if !self.records[i].verify(secret, inputs[i], engine) {
                return false;
            }
            i += 1;
        }
        true
    }
}

impl Default for EvidenceChain {
    fn default() -> (chain: Self)
        ensures
            chain@ == ChainView::empty(None),
    {
        EvidenceChain::new()
    }
}

impl Clone for EvidenceChain {
    fn clone(&self) -> (copy: Self)
        ensures
            copy@ == self@,
    {
        let mut records: Vec<Evidence> = Vec::new();
        let mut i: usize = 0;
        while i < self.records.len()
            invariant
                i <= self.records.len(),
                records@ == self.records@.take(i as int),
            decreases self.records.len() - i,
        {
            records.push(self.records[i].clone());
            assert(records@ =~= self.records@.take(i + 1));
            i += 1;
        }
        assert(records@ =~= self.records@);
        let secret = match &self.secret {
            Some(holder) => Some(secret_clone(holder)),
            None => None,
        };
        let copy = EvidenceChain {
            version: self.version,
            records,
            chain_mac: self.chain_mac,
            secret,
        };
        copy
    }
}

impl PartialEq for EvidenceChain {
    /// Ledgers are compared by version, records and code. The key takes no
    /// part.
    fn eq(&self, other: &Self) -> (equal: bool) {
        if self.version != other.version || self.records.len() != other.records.len()
            || !bytes32_eq(&self.chain_mac, &other.chain_mac) {
            return false;
        }
        let mut i: usize = 0;
        while i < self.records.len()
            invariant
                i <= self.records.len(),
                self.records.len() == other.records.len(),
                forall|k: int| 0 <= k < i ==> self.records@[k] == other.records@[k],
            decreases self.records.len() - i,
        {
            if self.records[i] != other.records[i] {
                return false;
            }
            i += 1;
        }
        assert(self.records@ =~= other.records@);
        true
    }
}

impl vstd::std_specs::cmp::PartialEqSpecImpl for EvidenceChain {
    open spec fn obeys_eq_spec() -> bool {
        true
    }

    open spec fn eq_spec(&self, other: &Self) -> bool {
        &&& self@.version == other@.version
        &&& self@.records == other@.records
        &&& self@.chain_mac == other@.chain_mac
    }
}

impl Eq for EvidenceChain {

}

} // verus!
