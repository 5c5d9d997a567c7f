//! The rows of the chunks of a block.

use crate::hashes::CryptoHash;
use crate::models::chunks::Chunk;
use crate::models::ColumnValue;
use crate::seqs::views_of;
use crate::views::IndexerShard;
use vstd::prelude::*;

verus! {

/// The rows of the chunks of the first `n` shards of a block: one for every
/// shard that has a chunk.
pub open spec fn chunk_rows(shards: Seq<IndexerShard>, block_hash: CryptoHash, n: nat) -> Seq<
    Seq<ColumnValue>,
>
    recommends
        n <= shards.len(),
    decreases n,
{
    if n == 0 {
        Seq::<Seq<ColumnValue>>::empty()
    } else {
        let before = chunk_rows(shards, block_hash, (n - 1) as nat);
        match shards[n - 1].chunk {
            Some(chunk) => before.push(Chunk::row_of(chunk, block_hash)),
            None => before,
        }
    }
}

/// Builds the rows of the chunks of a block: one for every shard that has a
/// chunk, in the order of the shards.
pub fn store_chunks(shards: &Vec<IndexerShard>, block_hash: &CryptoHash) -> (rows: Vec<Chunk>)
    ensures
        views_of(rows@) == chunk_rows(shards@, *block_hash, shards@.len()),
{
    let mut rows: Vec<Chunk> = Vec::new();
    let mut i: usize = 0;
    assert(views_of(rows@) =~= Seq::<Seq<ColumnValue>>::empty());
    while i < shards.len()
        invariant
            i <= shards.len(),
            views_of(rows@) == chunk_rows(shards@, *block_hash, i as nat),
        decreases shards.len() - i,
    {
        if let Some(chunk) = &shards[i].chunk {
            rows.push(Chunk::from_chunk_view(chunk, block_hash));
        }
        i += 1;
        assert(views_of(rows@) =~= chunk_rows(shards@, *block_hash, i as nat));
    }
    rows
}

} // verus!
