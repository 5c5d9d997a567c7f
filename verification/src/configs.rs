//! What the indexer can be told at its start.

use crate::cache::ReceiptsCache;
use crate::errors::IndexerError;
use crate::orchestrator::Orchestrator;
use crate::writer::RetryPolicy;
use vstd::prelude::*;

verus! {

/// The number of rows of one insert statement, unless told otherwise.
pub const DEFAULT_BATCH_CHUNK_SIZE: u16 = 500;

/// The number of entries of the lineage cache, unless told otherwise.
pub const DEFAULT_CACHE_CAPACITY: u32 = 100_000;

/// The number of tries of one statement, unless told otherwise.
pub const DEFAULT_RETRY_COUNT: u8 = 10;

/// What the indexer was told at its start.
#[derive(Clone, Debug, PartialEq, Eq)]
pub struct Opts {
    /// Whether to log at debug level.
    pub debug: bool,
    /// Whether a receipt without a known transaction puts its block down
    /// for another run instead of ending the run.
    pub non_strict_mode: bool,
    /// The bucket to read the stream from.
    pub s3_bucket_name: String,
    /// The region of the bucket.
    pub s3_region_name: String,
    /// The height of the first block to read.
    pub start_block_height: u64,
    /// Where the database is.
    pub database_url: String,
    pub batch_chunk_size: u16,
    pub cache_capacity: u32,
    pub retry_count: u8,
    pub retry_base_delay_ms: u32,
    pub retry_max_delay_ms: u32,
}

impl Opts {
    /// Whether a receipt without a known transaction ends the run.
    pub fn strict_mode(&self) -> (strict: bool)
        ensures
            strict == !self.non_strict_mode,
    {
        !self.non_strict_mode
    }

    /// How the writer retries a failed statement.
    pub fn retry_policy(&self) -> (policy: RetryPolicy)
        ensures
            policy.retry_count == self.retry_count,
            policy.base_delay_ms == self.retry_base_delay_ms,
            policy.max_delay_ms == self.retry_max_delay_ms,
    {
        RetryPolicy {
            retry_count: self.retry_count as usize,
            base_delay_ms: self.retry_base_delay_ms,
            max_delay_ms: self.retry_max_delay_ms,
        }
    }

    /// The number of rows that one insert statement carries at most.
    pub fn chunk_size(&self) -> (size: usize)
        ensures
            size == self.batch_chunk_size,
    {
        self.batch_chunk_size as usize
    }

    /// An empty lineage cache of the capacity that was asked for. A
    /// capacity of zero and one above the largest are bad input.
    pub fn receipts_cache(&self) -> (made: Result<ReceiptsCache, IndexerError>)
        ensures
            made is Err <==> self.cache_capacity == 0 || self.cache_capacity
                > crate::cache::MAX_CACHE_CAPACITY,
            made matches Err(e) ==> e == IndexerError::BadInput,
            made matches Ok(cache) ==> cache.wf() && cache@.len() == 0 && cache.capacity()
                == self.cache_capacity,
    {
        ReceiptsCache::with_size(self.cache_capacity as usize)
    }

    /// An orchestrator in the mode that was asked for, with no block in
    /// progress.
    pub fn orchestrator(&self) -> (orchestrator: Orchestrator)
        ensures
            orchestrator.strict_mode == !self.non_strict_mode,
            orchestrator.progress == crate::orchestrator::Progress::Idle,
    {
        Orchestrator::new(self.strict_mode())
    }
}

} // verus!
