//! The rows of the transactions of a chunk, and the entries with which they
//! start the lineage of their receipts in the cache.

use crate::cache::{stored, LineageEntry, ReceiptsCache};
use crate::errors::IndexerError;
use crate::hashes::{CryptoHash, ReceiptOrDataId};
use crate::models::transactions::Transaction;
use crate::models::{index_column, ColumnValue};
use crate::seqs::views_of;
use crate::views::{ChunkHeaderView, IndexerShard, IndexerTransactionWithOutcome};
use vstd::prelude::*;
use vstd::string::*;

verus! {

/// Whether each of the first `n` transactions was converted into a receipt.
pub open spec fn all_converted(transactions: Seq<IndexerTransactionWithOutcome>, n: nat) -> bool {
    forall|i: int| 0 <= i < n ==> (#[trigger] transactions[i]).outcome.receipt_ids@.len() > 0
}

/// The text under which a transaction is stored: the text of its hash and
/// the suffix that tells apart transactions that share a hash.
pub open spec fn stored_hash(tx: IndexerTransactionWithOutcome, suffix: Seq<char>) -> Seq<char> {
    tx.transaction.hash.text() + suffix
}

/// The cache after the first `n` transactions of a chunk were filed, each
/// under the id of the receipt it was converted into.
pub open spec fn seeded_with(
    transactions: Seq<IndexerTransactionWithOutcome>,
    suffix: Seq<char>,
    cache: Seq<LineageEntry>,
    limit: nat,
    n: nat,
) -> Seq<LineageEntry>
    recommends
        n <= transactions.len(),
        all_converted(transactions, n),
    decreases n,
{
    if n == 0 {
        cache
    } else {
        stored(
            seeded_with(transactions, suffix, cache, limit, (n - 1) as nat),
            (false, transactions[n - 1].outcome.receipt_ids@[0]@),
            stored_hash(transactions[n - 1], suffix),
            limit,
        )
    }
}

/// The rows of the transactions of a chunk, each with its place among them.
pub open spec fn transaction_rows(
    transactions: Seq<IndexerTransactionWithOutcome>,
    suffix: Seq<char>,
    block_hash: CryptoHash,
    chunk_hash: CryptoHash,
    block_timestamp: u64,
) -> Seq<Seq<ColumnValue>>
    recommends
        all_converted(transactions, transactions.len()),
{
    Seq::new(
        transactions.len(),
        |i: int|
            Transaction::row_of(
                transactions[i],
                stored_hash(transactions[i], suffix),
                transactions[i].outcome.receipt_ids@[0].text(),
                block_hash,
                chunk_hash,
                block_timestamp,
                i as i32,
            ),
    )
}

/// The rows of the transactions of a chunk are numbered by their place:
/// from zero, without a gap, as long as the places fit the column.
pub proof fn lemma_transaction_indices_are_dense(
    transactions: Seq<IndexerTransactionWithOutcome>,
    suffix: Seq<char>,
    block_hash: CryptoHash,
    chunk_hash: CryptoHash,
    block_timestamp: u64,
)
    requires
        transactions.len() <= i32::MAX,
    ensures
        transaction_rows(transactions, suffix, block_hash, chunk_hash, block_timestamp).len()
            == transactions.len(),
        forall|i: int|
            0 <= i < transactions.len() ==> (#[trigger] transaction_rows(
                transactions,
                suffix,
                block_hash,
                chunk_hash,
                block_timestamp,
            )[i])[3] == ColumnValue::Integer(i),
{
}

/// Whether every transaction of the chunk was converted into a receipt.
fn check_converted(transactions: &Vec<IndexerTransactionWithOutcome>) -> (r: bool)
    ensures
        r == all_converted(transactions@, transactions@.len()),
{
    let mut i: usize = 0;
    while i < transactions.len()
        invariant
            i <= transactions.len(),
            all_converted(transactions@, i as nat),
        decreases transactions.len() - i,
    {
        if transactions[i].outcome.receipt_ids.len() == 0 {
            return false;
        }
        i += 1;
    }
    true
}

/// Builds the rows of the transactions of a chunk and files each
/// transaction in the cache under the id of the receipt it was converted
/// into, where the receipt will look for it.
///
/// A transaction without such a receipt shows a malformed stream: nothing
/// is filed then.
pub fn store_chunk_transactions(
    transactions: &Vec<IndexerTransactionWithOutcome>,
    block_hash: &CryptoHash,
    block_timestamp: u64,
    chunk_header: &ChunkHeaderView,
    transaction_hash_suffix: &str,
    receipts_cache: &mut ReceiptsCache,
) -> (made: Result<Vec<Transaction>, IndexerError>)
    requires
        old(receipts_cache).wf(),
    ensures
        final(receipts_cache).wf(),
        final(receipts_cache).capacity() == old(receipts_cache).capacity(),
        made is Ok <==> all_converted(transactions@, transactions@.len()),
        made matches Err(e) ==> e == IndexerError::Upstream && final(receipts_cache)@ == old(
            receipts_cache,
        )@,
        made matches Ok(rows) ==> views_of(rows@) == transaction_rows(
            transactions@,
            transaction_hash_suffix@,
            *block_hash,
            chunk_header.chunk_hash,
            block_timestamp,
        ) && final(receipts_cache)@ == seeded_with(
            transactions@,
            transaction_hash_suffix@,
            old(receipts_cache)@,
            old(receipts_cache).capacity(),
            transactions@.len(),
        ),
{
    if !check_converted(transactions) {
        return Err(IndexerError::Upstream);
    }
    let ghost limit = receipts_cache.capacity();
    let ghost expected = transaction_rows(
        transactions@,
        transaction_hash_suffix@,
        *block_hash,
        chunk_header.chunk_hash,
        block_timestamp,
    );
    let mut rows: Vec<Transaction> = Vec::new();
    let mut i: usize = 0;
    while i < transactions.len()
        invariant
            i <= transactions.len(),
            all_converted(transactions@, transactions@.len()),
            receipts_cache.wf(),
            receipts_cache.capacity() == limit,
            limit == old(receipts_cache).capacity(),
            receipts_cache@ == seeded_with(
                transactions@,
                transaction_hash_suffix@,
                old(receipts_cache)@,
                limit,
                i as nat,
            ),
            expected == transaction_rows(
                transactions@,
                transaction_hash_suffix@,
                *block_hash,
                chunk_header.chunk_hash,
                block_timestamp,
            ),
            rows@.len() == i,
            forall|j: int| 0 <= j < i ==> (#[trigger] rows@[j])@ == expected[j],
        decreases transactions.len() - i,
    {
        let tx = &transactions[i];
        let mut transaction_hash = tx.transaction.hash.to_text();
        transaction_hash.append(transaction_hash_suffix);
        let converted_into_receipt_id = &tx.outcome.receipt_ids[0];
        receipts_cache.cache_set(
            ReceiptOrDataId::ReceiptId(*converted_into_receipt_id),
            transaction_hash.clone(),
        );
        let converted_text = converted_into_receipt_id.to_text();
        rows.push(
            Transaction::from_indexer_transaction(
                tx,
                transaction_hash.as_str(),
                converted_text.as_str(),
                block_hash,
                &chunk_header.chunk_hash,
                block_timestamp,
                index_column(i),
            ),
        );
        i += 1;
    }
    assert(views_of(rows@) =~= expected);
    Ok(rows)
}

/// Whether every transaction in the chunks of the first `n` shards was
/// converted into a receipt.
pub open spec fn shards_converted(shards: Seq<IndexerShard>, n: nat) -> bool {
    forall|s: int|
        0 <= s < n && (#[trigger] shards[s]).chunk is Some ==> all_converted(
            shards[s].chunk.unwrap().transactions@,
            shards[s].chunk.unwrap().transactions@.len(),
        )
}

/// The rows of the transactions in the chunks of the first `n` shards of a
/// block, chunk after chunk.
pub open spec fn block_transaction_rows(
    shards: Seq<IndexerShard>,
    block_hash: CryptoHash,
    block_timestamp: u64,
    n: nat,
) -> Seq<Seq<ColumnValue>>
    recommends
        n <= shards.len(),
    decreases n,
{
    if n == 0 {
        Seq::<Seq<ColumnValue>>::empty()
    } else {
        let before = block_transaction_rows(shards, block_hash, block_timestamp, (n - 1) as nat);
        match shards[n - 1].chunk {
            Some(chunk) => before + transaction_rows(
                chunk.transactions@,
                Seq::<char>::empty(),
                block_hash,
                chunk.header.chunk_hash,
                block_timestamp,
            ),
            None => before,
        }
    }
}

/// The cache after the transactions in the chunks of the first `n` shards
/// were filed.
pub open spec fn block_seeded(
    shards: Seq<IndexerShard>,
    cache: Seq<LineageEntry>,
    limit: nat,
    n: nat,
) -> Seq<LineageEntry>
    recommends
        n <= shards.len(),
    decreases n,
{
    if n == 0 {
        cache
    } else {
        let before = block_seeded(shards, cache, limit, (n - 1) as nat);
        match shards[n - 1].chunk {
            Some(chunk) => seeded_with(
                chunk.transactions@,
                Seq::<char>::empty(),
                before,
                limit,
                chunk.transactions@.len(),
            ),
            None => before,
        }
    }
}

/// Builds the rows of all transactions of a block, chunk after chunk, and
/// files each transaction in the cache. A transaction that was not
/// converted into a receipt shows a malformed stream: nothing is filed
/// then.
pub fn store_transactions(
    shards: &Vec<IndexerShard>,
    block_hash: &CryptoHash,
    block_timestamp: u64,
    receipts_cache: &mut ReceiptsCache,
) -> (made: Result<Vec<Transaction>, IndexerError>)
    requires
        old(receipts_cache).wf(),
    ensures
        final(receipts_cache).wf(),
        final(receipts_cache).capacity() == old(receipts_cache).capacity(),
        made is Ok <==> shards_converted(shards@, shards@.len()),
        made matches Err(e) ==> e == IndexerError::Upstream && final(receipts_cache)@ == old(
            receipts_cache,
        )@,
        made matches Ok(rows) ==> views_of(rows@) == block_transaction_rows(
            shards@,
            *block_hash,
            block_timestamp,
            shards@.len(),
        ) && final(receipts_cache)@ == block_seeded(
            shards@,
            old(receipts_cache)@,
            old(receipts_cache).capacity(),
            shards@.len(),
        ),
{
    let mut s: usize = 0;
    while s < shards.len()
        invariant
            s <= shards.len(),
            shards_converted(shards@, s as nat),
            receipts_cache.wf(),
            receipts_cache@ == old(receipts_cache)@,
            receipts_cache.capacity() == old(receipts_cache).capacity(),
        decreases shards.len() - s,
    {
        if let Some(chunk) = &shards[s].chunk {
            if !check_converted(&chunk.transactions) {
                assert(!shards_converted(shards@, shards@.len()));
                return Err(IndexerError::Upstream);
            }
        }
        s += 1;
    }
    let ghost limit = receipts_cache.capacity();
    let mut rows: Vec<Transaction> = Vec::new();
    let mut i: usize = 0;
    assert(views_of(rows@) =~= Seq::<Seq<ColumnValue>>::empty());
    while i < shards.len()
        invariant
            i <= shards.len(),
            shards_converted(shards@, shards@.len()),
            receipts_cache.wf(),
            receipts_cache.capacity() == limit,
            limit == old(receipts_cache).capacity(),
            receipts_cache@ == block_seeded(shards@, old(receipts_cache)@, limit, i as nat),
            views_of(rows@) == block_transaction_rows(
                shards@,
                *block_hash,
                block_timestamp,
                i as nat,
            ),
        decreases shards.len() - i,
    {
        let ghost before = views_of(rows@);
        if let Some(chunk) = &shards[i].chunk {
            assert(all_converted(chunk.transactions@, chunk.transactions@.len())) by {
                assert(shards@[i as int].chunk is Some);
            }
            match store_chunk_transactions(
                &chunk.transactions,
                block_hash,
                block_timestamp,
                &chunk.header,
                "",
                receipts_cache,
            ) {
                Ok(mut chunk_rows) => {
                    proof {
                        reveal_strlit("");
                        assert(""@ =~= Seq::<char>::empty());
                    }
                    let ghost own = views_of(chunk_rows@);
                    rows.append(&mut chunk_rows);
                    assert(views_of(rows@) =~= before + own);
                },
                Err(e) => {
                    // Every chunk was looked through before the first was
                    // filed.
                    assert(false);
                    return Err(e);
                },
            }
        }
        i += 1;
    }
    Ok(rows)
}

} // verus!
