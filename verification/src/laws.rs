//! What holds of every ledger: the laws that its operations obey together.

use vstd::prelude::*;
use crate::chain::{
    count_phys, count_pure, fold, lemma_count_push, lemma_counts_partition, lemma_fold_push,
    ChainView,
};
use crate::crypto::hmac_sha256;
use crate::evidence::{lemma_canonical_bytes_injective, Evidence};
use crate::traits::JitterEngine;

verus! {

/// Appending keeps the ledger's invariant.
pub proof fn law_append_keeps_wf(chain: ChainView, record: Evidence)
    requires
        chain.wf(),
    ensures
        chain.append(record).wf(),
{
    lemma_fold_push(chain.key, chain.records, record);
}

/// Appending a run of records adds exactly them, in order, after the records
/// that were there; key and version stay, and so does the invariant.
pub proof fn law_append_all(chain: ChainView, records: Seq<Evidence>)
    ensures
        chain.append_all(records).records == chain.records + records,
        chain.append_all(records).key == chain.key,
        chain.append_all(records).version == chain.version,
        chain.wf() ==> chain.append_all(records).wf(),
    decreases records.len(),
{
    if records.len() == 0 {
        assert(chain.records + records =~= chain.records);
    } else {
        let before = chain.append_all(records.drop_last());
        law_append_all(chain, records.drop_last());
        assert((chain.records + records.drop_last()).push(records.last()) =~= chain.records
            + records);
        if chain.wf() {
            law_append_keeps_wf(before, records.last());
        }
    }
}

/// A ledger built by appending, for each input, a record whose jitter the
/// engine derives from the secret, that input and the record's entropy,
/// passes `verify_chain` with the same secret, inputs and engine.
pub proof fn law_derived_chain_verifies<E: JitterEngine>(
    key: Option<Seq<u8>>,
    records: Seq<Evidence>,
    secret: &[u8; 32],
    inputs: Seq<&[u8]>,
    engine: &E,
)
    requires
        records.len() == inputs.len(),
        forall|i: int|
            0 <= i < records.len() ==> (#[trigger] records[i]).spec_jitter()
                == engine.derived_jitter(secret, inputs[i], records[i].entropy()),
    ensures
        ChainView::empty(key).append_all(records).verify_chain(secret, inputs, engine),
{
    law_append_all(ChainView::empty(key), records);
    assert(ChainView::empty(key).records + records =~= records);
}

/// Putting a wrong input in place of one input makes `verify_chain` fail,
/// where the engine derives from the wrong input another jitter than the one
/// recorded at that position.
pub proof fn law_wrong_input_fails<E: JitterEngine>(
    chain: ChainView,
    secret: &[u8; 32],
    inputs: Seq<&[u8]>,
    position: int,
    wrong: &[u8],
    engine: &E,
)
    requires
        inputs.len() == chain.records.len(),
        0 <= position < chain.records.len(),
        engine.derived_jitter(secret, wrong, chain.records[position].entropy())
            != chain.records[position].spec_jitter(),
    ensures
        !chain.verify_chain(secret, inputs.update(position, wrong), engine),
{
    let changed = inputs.update(position, wrong);
    assert(changed[position] == wrong);
    assert(!chain.records[position].spec_verify(secret, changed[position], engine));
}

/// `verify_chain` fails whenever there is not exactly one input for each
/// record.
pub proof fn law_input_count_mismatch_fails<E: JitterEngine>(
    chain: ChainView,
    secret: &[u8; 32],
    inputs: Seq<&[u8]>,
    engine: &E,
)
    requires
        inputs.len() != chain.records.len(),
    ensures
        !chain.verify_chain(secret, inputs, engine),
{
}

/// Leaving inputs off the end of the list makes `verify_chain` fail.
pub proof fn law_truncated_inputs_fail<E: JitterEngine>(
    chain: ChainView,
    secret: &[u8; 32],
    inputs: Seq<&[u8]>,
    kept: int,
    engine: &E,
)
    requires
        inputs.len() == chain.records.len(),
        0 <= kept < inputs.len(),
    ensures
        !chain.verify_chain(secret, inputs.take(kept), engine),
{
}

/// The share of entropy-bound records is 0 of 1 in a ledger without records;
/// after `k` entropy-bound and `m` secret-only records have been appended to
/// such a ledger, in any order, it is `k` of `k + m`.
pub proof fn law_phys_ratio(key: Option<Seq<u8>>, records: Seq<Evidence>)
    ensures
        ChainView::empty(key).phys_ratio() == (0nat, 1nat),
        records.len() > 0 ==> ChainView::empty(key).append_all(records).phys_ratio() == (
            count_phys(records),
            count_phys(records) + count_pure(records),
        ),
{
    law_append_all(ChainView::empty(key), records);
    assert(ChainView::empty(key).records + records =~= records);
    lemma_counts_partition(records);
}

/// Appending a record raises the count of its kind by one and leaves the
/// other count as it was.
pub proof fn law_counts_after_append(chain: ChainView, record: Evidence)
    ensures
        count_phys(chain.append(record).records) == count_phys(chain.records) + if record.spec_is_phys() {
            1nat
        } else {
            0nat
        },
        count_pure(chain.append(record).records) == count_pure(chain.records) + if record.spec_is_phys() {
            0nat
        } else {
            1nat
        },
{
    lemma_count_push(chain.records, record);
}

/// A ledger without records passes `verify_integrity` under every secret:
/// the recomputed code and the stored one are both all zero.
pub proof fn law_empty_chain_verifies_for_every_secret(chain: ChainView, secret: Seq<u8>)
    requires
        chain.wf(),
        chain.records.len() == 0,
    ensures
        chain.verify_integrity(secret),
{
}

/// A keyed ledger passes `verify_integrity` under its own key, whatever has
/// been appended to it.
pub proof fn law_keyed_chain_verifies_with_own_secret(secret: Seq<u8>, records: Seq<Evidence>)
    ensures
        ChainView::empty(Some(secret)).append_all(records).verify_integrity(secret),
{
    law_append_all(ChainView::empty(Some(secret)), records);
    assert(ChainView::empty(Some(secret)).records + records =~= records);
}

/// The message that the keyed fold of `records` hands to HMAC for the record
/// at `position`: the code of the records before it, then its canonical bytes.
pub open spec fn fold_message(secret: Seq<u8>, records: Seq<Evidence>, position: int) -> Seq<u8> {
    fold(Some(secret), records.take(position)) + records[position].canonical_bytes()
}

/// Whether HMAC under `secret` tells apart what the folds of `left` and of
/// `right` hand to it: at every position where the two messages differ, the
/// two codes differ as well.
pub open spec fn hmac_separates(secret: Seq<u8>, left: Seq<Evidence>, right: Seq<Evidence>) -> bool {
    forall|position: int|
        0 <= position < left.len() && position < right.len() && fold_message(
            secret,
            left,
            position,
        ) != fold_message(secret, right, position) ==> hmac_sha256(
            secret,
            #[trigger] fold_message(secret, left, position),
        ) != hmac_sha256(secret, fold_message(secret, right, position))
}

/// Two sequences that are equal after the same suffix is put behind each are
/// equal.
proof fn lemma_cancel_suffix(left: Seq<u8>, right: Seq<u8>, suffix: Seq<u8>)
    requires
        left + suffix == right + suffix,
    ensures
        left == right,
{
    assert((left + suffix).len() == (right + suffix).len());
    assert(left =~= (left + suffix).subrange(0, left.len() as int));
    assert(right =~= (right + suffix).subrange(0, right.len() as int));
}

/// Two sequences that are equal after each is put behind the same prefix are
/// equal.
proof fn lemma_cancel_prefix(prefix: Seq<u8>, left: Seq<u8>, right: Seq<u8>)
    requires
        prefix + left == prefix + right,
    ensures
        left == right,
{
    assert((prefix + left).len() == (prefix + right).len());
    assert(left =~= (prefix + left).subrange(prefix.len() as int, (prefix + left).len() as int));
    assert(right =~= (prefix + right).subrange(
        prefix.len() as int,
        (prefix + right).len() as int,
    ));
}

/// Once a record has been replaced, the keyed folds of the old and the new
/// records differ at every length that takes the replaced record in.
proof fn lemma_folds_diverge(
    secret: Seq<u8>,
    records: Seq<Evidence>,
    position: int,
    forged: Evidence,
    upto: int,
)
    requires
        0 <= position < upto <= records.len(),
        forged != records[position],
        hmac_separates(secret, records, records.update(position, forged)),
    ensures
        fold(Some(secret), records.take(upto)) != fold(
            Some(secret),
            records.update(position, forged).take(upto),
        ),
    decreases upto,
{
    let forgery = records.update(position, forged);
    let last = upto - 1;
    assert(records.take(upto).drop_last() =~= records.take(last));
    assert(forgery.take(upto).drop_last() =~= forgery.take(last));
    assert(records.take(upto).last() == records[last]);
    assert(forgery.take(upto).last() == forgery[last]);
    let old_message = fold_message(secret, records, last);
    let new_message = fold_message(secret, forgery, last);
    if last == position {
        assert(records.take(last) =~= forgery.take(last));
        if old_message == new_message {
            lemma_cancel_prefix(
                fold(Some(secret), records.take(last)),
                records[last].canonical_bytes(),
                forged.canonical_bytes(),
            );
            lemma_canonical_bytes_injective(records[last], forged);
        }
    } else {
        lemma_folds_diverge(secret, records, position, forged, last);
        assert(forgery[last] == records[last]);
        if old_message == new_message {
            lemma_cancel_suffix(
                fold(Some(secret), records.take(last)),
                fold(Some(secret), forgery.take(last)),
                records[last].canonical_bytes(),
            );
        }
    }
    assert(old_message != new_message);
    assert(hmac_sha256(secret, old_message) != hmac_sha256(secret, new_message));
}

/// Tampering is detected: when any record of a keyed ledger with its
/// invariant is replaced by another one, `verify_integrity` under the
/// ledger's key fails, as long as HMAC under that key tells apart the
/// messages that the folds of the old and of the new records hand to it.
pub proof fn law_tampering_is_detected(
    chain: ChainView,
    secret: Seq<u8>,
    position: int,
    forged: Evidence,
)
    requires
        chain.wf(),
        chain.key == Some(secret),
        0 <= position < chain.records.len(),
        forged != chain.records[position],
        hmac_separates(secret, chain.records, chain.records.update(position, forged)),
    ensures
        !(ChainView {
            version: chain.version,
            records: chain.records.update(position, forged),
            chain_mac: chain.chain_mac,
            key: chain.key,
        }).verify_integrity(secret),
{
    let forgery = chain.records.update(position, forged);
    lemma_folds_diverge(secret, chain.records, position, forged, chain.records.len() as int);
    assert(chain.records.take(chain.records.len() as int) =~= chain.records);
    assert(forgery.take(chain.records.len() as int) =~= forgery);
}

} // verus!
