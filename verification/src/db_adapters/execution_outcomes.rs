//! The rows of the execution outcomes of a shard, and the step they take in
//! the lineage cache: from an executed receipt to the receipts it produced.

use crate::cache::{dropped, lookup, stored, LineageEntry, ReceiptsCache};
use crate::hashes::{CryptoHash, ReceiptOrDataId};
use crate::models::execution_outcomes::{ExecutionOutcome, ExecutionOutcomeReceipt};
use crate::models::{index_column, ColumnValue};
use crate::seqs::views_of;
use crate::views::{
    ExecutionOutcomeWithIdView, IndexerExecutionOutcomeWithReceipt, IndexerShard,
};
use vstd::prelude::*;

verus! {

/// The cache after the transaction hash was filed under the first `n`
/// receipt ids.
pub open spec fn seed_produced(
    cache: Seq<LineageEntry>,
    limit: nat,
    receipt_ids: Seq<CryptoHash>,
    text: Seq<char>,
    n: nat,
) -> Seq<LineageEntry>
    recommends
        n <= receipt_ids.len(),
    decreases n,
{
    if n == 0 {
        cache
    } else {
        stored(
            seed_produced(cache, limit, receipt_ids, text, (n - 1) as nat),
            (false, receipt_ids[n - 1]@),
            text,
            limit,
        )
    }
}

/// The cache after one outcome: where the transaction of the executed
/// receipt is in the cache, it leaves its place there and is filed under
/// each receipt that the execution produced.
pub open spec fn drain_step(
    cache: Seq<LineageEntry>,
    limit: nat,
    outcome: ExecutionOutcomeWithIdView,
) -> Seq<LineageEntry> {
    let key = (false, outcome.id@);
    match lookup(cache, key) {
        Some(text) => seed_produced(
            dropped(cache, key),
            limit,
            outcome.receipt_ids@,
            text,
            outcome.receipt_ids@.len(),
        ),
        None => cache,
    }
}

/// The cache after the first `n` outcomes of a shard.
pub open spec fn drained(
    outcomes: Seq<IndexerExecutionOutcomeWithReceipt>,
    cache: Seq<LineageEntry>,
    limit: nat,
    n: nat,
) -> Seq<LineageEntry>
    recommends
        n <= outcomes.len(),
    decreases n,
{
    if n == 0 {
        cache
    } else {
        drain_step(
            drained(outcomes, cache, limit, (n - 1) as nat),
            limit,
            outcomes[n - 1].execution_outcome,
        )
    }
}

/// The rows of the outcomes of a shard, each with its place among them.
pub open spec fn outcome_rows(
    outcomes: Seq<IndexerExecutionOutcomeWithReceipt>,
    block_timestamp: u64,
    shard_id: u64,
) -> Seq<Seq<ColumnValue>> {
    Seq::new(
        outcomes.len(),
        |i: int|
            ExecutionOutcome::row_of(
                outcomes[i].execution_outcome,
                i as i32,
                block_timestamp,
                shard_id,
            ),
    )
}

/// The rows of the receipts that one execution produced, counted on from
/// `first`.
pub open spec fn produced_rows_of(
    outcome: ExecutionOutcomeWithIdView,
    block_hash: CryptoHash,
    block_timestamp: u64,
    shard_id: u64,
    first: nat,
) -> Seq<Seq<ColumnValue>> {
    Seq::new(
        outcome.receipt_ids@.len(),
        |k: int|
            ExecutionOutcomeReceipt::row_of(
                block_hash,
                block_timestamp,
                outcome.id,
                outcome.receipt_ids@[k],
                shard_id,
                (first + k) as i32,
            ),
    )
}

/// The rows of the receipts that the first `n` executions of a shard
/// produced, counted through the shard.
pub open spec fn produced_rows(
    outcomes: Seq<IndexerExecutionOutcomeWithReceipt>,
    block_hash: CryptoHash,
    block_timestamp: u64,
    shard_id: u64,
    n: nat,
) -> Seq<Seq<ColumnValue>>
    recommends
        n <= outcomes.len(),
    decreases n,
{
    if n == 0 {
        Seq::<Seq<ColumnValue>>::empty()
    } else {
        let before = produced_rows(outcomes, block_hash, block_timestamp, shard_id, (n - 1) as nat);
        before + produced_rows_of(
            outcomes[n - 1].execution_outcome,
            block_hash,
            block_timestamp,
            shard_id,
            before.len(),
        )
    }
}

/// The rows of the outcomes of a shard are numbered by their place, and the
/// rows of the receipts they produced are numbered through the shard: both
/// from zero, without a gap, as long as the places fit the column.
pub proof fn lemma_outcome_indices_are_dense(
    outcomes: Seq<IndexerExecutionOutcomeWithReceipt>,
    block_hash: CryptoHash,
    block_timestamp: u64,
    shard_id: u64,
    n: nat,
)
    requires
        n <= outcomes.len() <= i32::MAX,
        produced_rows(outcomes, block_hash, block_timestamp, shard_id, n).len() <= i32::MAX,
    ensures
        forall|i: int|
            0 <= i < outcomes.len() ==> (#[trigger] outcome_rows(
                outcomes,
                block_timestamp,
                shard_id,
            )[i])[4] == ColumnValue::Integer(i),
        forall|m: int|
            0 <= m < produced_rows(outcomes, block_hash, block_timestamp, shard_id, n).len() ==> (
            #[trigger] produced_rows(outcomes, block_hash, block_timestamp, shard_id, n)[m])[5]
                == ColumnValue::Integer(m),
    decreases n,
{
    if n > 0 {
        let before = produced_rows(outcomes, block_hash, block_timestamp, shard_id, (n - 1) as nat);
        lemma_outcome_indices_are_dense(
            outcomes,
            block_hash,
            block_timestamp,
            shard_id,
            (n - 1) as nat,
        );
        let now = produced_rows(outcomes, block_hash, block_timestamp, shard_id, n);
        let own = produced_rows_of(
            outcomes[n - 1].execution_outcome,
            block_hash,
            block_timestamp,
            shard_id,
            before.len(),
        );
        assert forall|m: int| 0 <= m < now.len() implies (#[trigger] now[m])[5]
            == ColumnValue::Integer(m) by {
            if m < before.len() {
                assert(now[m] == before[m]);
            } else {
                assert(now[m] == own[m - before.len()]);
            }
        }
    }
}

/// The rows of the execution outcomes of a shard.
#[derive(Clone, Debug, PartialEq, Eq)]
pub struct ChunkOutcomes {
    pub outcome_models: Vec<ExecutionOutcome>,
    pub outcome_receipt_models: Vec<ExecutionOutcomeReceipt>,
}

/// Builds the rows of the execution outcomes of a shard and of the receipts
/// they produced, and moves the lineage on in the cache.
///
/// The transaction of an executed receipt is taken out of the cache, as
/// no receipt is executed twice, and filed under every receipt that the
/// execution produced, so that those find it when their block arrives.
pub fn store_execution_outcomes_for_chunk(
    execution_outcomes: &Vec<IndexerExecutionOutcomeWithReceipt>,
    shard_id: u64,
    block_hash: &CryptoHash,
    block_timestamp: u64,
    receipts_cache: &mut ReceiptsCache,
) -> (rows: ChunkOutcomes)
    requires
        old(receipts_cache).wf(),
    ensures
        final(receipts_cache).wf(),
        final(receipts_cache).capacity() == old(receipts_cache).capacity(),
        final(receipts_cache)@ == drained(
            execution_outcomes@,
            old(receipts_cache)@,
            old(receipts_cache).capacity(),
            execution_outcomes@.len(),
        ),
        views_of(rows.outcome_models@) == outcome_rows(
            execution_outcomes@,
            block_timestamp,
            shard_id,
        ),
        views_of(rows.outcome_receipt_models@) == produced_rows(
            execution_outcomes@,
            *block_hash,
            block_timestamp,
            shard_id,
            execution_outcomes@.len(),
        ),
{
    let mut outcome_models: Vec<ExecutionOutcome> = Vec::new();
    let mut outcome_receipt_models: Vec<ExecutionOutcomeReceipt> = Vec::new();
    let ghost limit = receipts_cache.capacity();
    let mut i: usize = 0;
    assert(views_of(outcome_receipt_models@) =~= Seq::<Seq<ColumnValue>>::empty());
    while i < execution_outcomes.len()
        invariant
            i <= execution_outcomes.len(),
            receipts_cache.wf(),
            receipts_cache.capacity() == limit,
            limit == old(receipts_cache).capacity(),
            receipts_cache@ == drained(execution_outcomes@, old(receipts_cache)@, limit, i as nat),
            outcome_models@.len() == i,
            forall|j: int|
                0 <= j < i ==> (#[trigger] outcome_models@[j])@ == outcome_rows(
                    execution_outcomes@,
                    block_timestamp,
                    shard_id,
                )[j],
            views_of(outcome_receipt_models@) == produced_rows(
                execution_outcomes@,
                *block_hash,
                block_timestamp,
                shard_id,
                i as nat,
            ),
        decreases execution_outcomes.len() - i,
    {
        let outcome = &execution_outcomes[i].execution_outcome;
        let parent_transaction_hash = receipts_cache.cache_remove(
            &ReceiptOrDataId::ReceiptId(outcome.id),
        );
        outcome_models.push(
            ExecutionOutcome::from_execution_outcome(
                outcome,
                index_column(i),
                block_timestamp,
                shard_id,
            ),
        );
        let ghost rows_before = views_of(outcome_receipt_models@);
        let ghost cache_before = receipts_cache@;
        let ghost own = produced_rows_of(
            *outcome,
            *block_hash,
            block_timestamp,
            shard_id,
            rows_before.len(),
        );
        let mut k: usize = 0;
        while k < outcome.receipt_ids.len()
            invariant
                k <= outcome.receipt_ids.len(),
                receipts_cache.wf(),
                receipts_cache.capacity() == limit,
                parent_transaction_hash matches Some(text) ==> receipts_cache@ == seed_produced(
                    cache_before,
                    limit,
                    outcome.receipt_ids@,
                    text@,
                    k as nat,
                ),
                parent_transaction_hash is None ==> receipts_cache@ == cache_before,
                own == produced_rows_of(
                    *outcome,
                    *block_hash,
                    block_timestamp,
                    shard_id,
                    rows_before.len(),
                ),
                outcome_receipt_models@.len() == rows_before.len() + k,
                views_of(outcome_receipt_models@) == rows_before + own.take(k as int),
            decreases outcome.receipt_ids.len() - k,
        {
            match &parent_transaction_hash {
                Some(transaction_hash) => {
                    receipts_cache.cache_set(
                        ReceiptOrDataId::ReceiptId(outcome.receipt_ids[k]),
                        transaction_hash.clone(),
                    );
                },
                None => {},
            }
            let ghost prior = views_of(outcome_receipt_models@);
            let index_through_chunk = index_column(outcome_receipt_models.len());
            outcome_receipt_models.push(
                ExecutionOutcomeReceipt::from_produced_receipt(
                    block_hash,
                    block_timestamp,
                    &outcome.id,
                    &outcome.receipt_ids[k],
                    shard_id,
                    index_through_chunk,
                ),
            );
            k += 1;
            proof {
                let now = views_of(outcome_receipt_models@);
                let expected = rows_before + own.take(k as int);
                assert forall|m: int| 0 <= m < now.len() implies #[trigger] now[m]
                    == expected[m] by {
                    if m < prior.len() {
                        assert(prior[m] == (rows_before + own.take(k - 1))[m]);
                        assert(now[m] == prior[m]);
                    } else {
                        assert(expected[m] == own[k - 1]);
                    }
                }
                assert(now =~= expected);
            }
        }
        assert(own.take(outcome.receipt_ids@.len() as int) =~= own);
        i += 1;
    }
    assert(views_of(outcome_models@) =~= outcome_rows(
        execution_outcomes@,
        block_timestamp,
        shard_id,
    ));
    ChunkOutcomes { outcome_models, outcome_receipt_models }
}

/// The cache after the outcomes of the first `n` shards of a block, shard
/// after shard.
pub open spec fn block_drained(
    shards: Seq<IndexerShard>,
    cache: Seq<LineageEntry>,
    limit: nat,
    n: nat,
) -> Seq<LineageEntry>
    recommends
        n <= shards.len(),
    decreases n,
{
    if n == 0 {
        cache
    } else {
        drained(
            shards[n - 1].receipt_execution_outcomes@,
            block_drained(shards, cache, limit, (n - 1) as nat),
            limit,
            shards[n - 1].receipt_execution_outcomes@.len(),
        )
    }
}

/// Whether the rows are those of the outcomes of the shard.
pub open spec fn rows_of_shard(
    rows: ChunkOutcomes,
    shard: IndexerShard,
    block_hash: CryptoHash,
    block_timestamp: u64,
) -> bool {
    &&& views_of(rows.outcome_models@) == outcome_rows(
        shard.receipt_execution_outcomes@,
        block_timestamp,
        shard.shard_id,
    )
    &&& views_of(rows.outcome_receipt_models@) == produced_rows(
        shard.receipt_execution_outcomes@,
        block_hash,
        block_timestamp,
        shard.shard_id,
        shard.receipt_execution_outcomes@.len(),
    )
}

/// Builds the rows of the execution outcomes of a block, one set for each
/// shard, and moves the lineage on in the cache shard after shard.
pub fn store_execution_outcomes(
    shards: &Vec<IndexerShard>,
    block_hash: &CryptoHash,
    block_timestamp: u64,
    receipts_cache: &mut ReceiptsCache,
) -> (rows: Vec<ChunkOutcomes>)
    requires
        old(receipts_cache).wf(),
    ensures
        final(receipts_cache).wf(),
        final(receipts_cache).capacity() == old(receipts_cache).capacity(),
        final(receipts_cache)@ == block_drained(
            shards@,
            old(receipts_cache)@,
            old(receipts_cache).capacity(),
            shards@.len(),
        ),
        rows@.len() == shards@.len(),
        forall|s: int|
            0 <= s < shards@.len() ==> rows_of_shard(
                #[trigger] rows@[s],
                shards@[s],
                *block_hash,
                block_timestamp,
            ),
{
    let ghost limit = receipts_cache.capacity();
    let mut rows: Vec<ChunkOutcomes> = Vec::new();
    let mut i: usize = 0;
    while i < shards.len()
        invariant
            i <= shards.len(),
            receipts_cache.wf(),
            receipts_cache.capacity() == limit,
            limit == old(receipts_cache).capacity(),
            receipts_cache@ == block_drained(shards@, old(receipts_cache)@, limit, i as nat),
            rows@.len() == i,
            forall|s: int|
                0 <= s < i ==> rows_of_shard(
                    #[trigger] rows@[s],
                    shards@[s],
                    *block_hash,
                    block_timestamp,
                ),
        decreases shards.len() - i,
    {
        let shard = &shards[i];
        rows.push(
            store_execution_outcomes_for_chunk(
                &shard.receipt_execution_outcomes,
                shard.shard_id,
                block_hash,
                block_timestamp,
                receipts_cache,
            ),
        );
        i += 1;
    }
    rows
}

} // verus!
