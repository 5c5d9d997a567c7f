use lake_indexer::cache::ReceiptsCache;
use lake_indexer::configs::{
    Opts, DEFAULT_BATCH_CHUNK_SIZE, DEFAULT_CACHE_CAPACITY, DEFAULT_RETRY_COUNT,
};
use lake_indexer::errors::IndexerError;
use lake_indexer::hashes::CryptoHash;
use lake_indexer::orchestrator::{
    first_wave, third_wave, Decision, Family, Orchestrator, Progress, StreamEvent, Wave,
};
use lake_indexer::views::{BlockView, StreamerMessage};
use lake_indexer::writer::RetryPolicy;

fn hash(n: u8) -> CryptoHash {
    CryptoHash { bytes: [n; 32] }
}

fn empty_message(height: u64) -> StreamerMessage {
    StreamerMessage {
        block: BlockView {
            height,
            hash: hash(1),
            prev_hash: hash(2),
            timestamp: 1_600,
            total_supply: 3,
            gas_price: 4,
            author: "validator.near".to_string(),
        },
        shards: Vec::new(),
    }
}

fn options() -> Opts {
    Opts {
        debug: false,
        non_strict_mode: false,
        s3_bucket_name: "near-lake-data-mainnet".to_string(),
        s3_region_name: "eu-central-1".to_string(),
        start_block_height: 9_823_031,
        database_url: "mysql://localhost/indexer".to_string(),
        batch_chunk_size: DEFAULT_BATCH_CHUNK_SIZE,
        cache_capacity: DEFAULT_CACHE_CAPACITY,
        retry_count: DEFAULT_RETRY_COUNT,
        retry_base_delay_ms: 100,
        retry_max_delay_ms: 120_000,
    }
}

#[test]
fn a_message_without_shards_writes_one_block_row_and_nothing_else() {
    let mut cache = ReceiptsCache::with_size(10).unwrap();
    let message = empty_message(100);
    let first = first_wave(&message, &mut cache).unwrap();
    assert_eq!(first.block.query, "INSERT IGNORE INTO blocks VALUES (?, ?, ?, ?, ?, ?, ?)");
    assert_eq!(first.block.args.len(), 7);
    assert_eq!(first.chunks, Vec::new());
    assert_eq!(first.transactions, Vec::new());
    let third = third_wave(&message, &mut cache).unwrap();
    assert_eq!(third.execution_outcomes, Vec::new());
    assert_eq!(third.account_changes, Vec::new());
    assert_eq!(third.accounts, Vec::new());
    assert_eq!(third.access_keys, Vec::new());
    let again = first_wave(&message, &mut cache).unwrap();
    assert_eq!(again, first);
}

#[test]
fn the_families_and_their_waves() {
    assert_eq!(Wave::First.families(), vec![Family::Blocks, Family::Chunks, Family::Transactions]);
    assert_eq!(Wave::Second.families(), vec![Family::Receipts]);
    assert_eq!(
        Wave::Third.families(),
        vec![
            Family::ExecutionOutcomes,
            Family::AccountChanges,
            Family::Accounts,
            Family::AccessKeys
        ]
    );
    assert_eq!(Family::Blocks.wave(), Wave::First);
    assert_eq!(Family::Receipts.wave(), Wave::Second);
    assert_eq!(Family::ExecutionOutcomes.wave(), Wave::Third);
    assert_eq!(Family::AccessKeys.wave(), Wave::Third);
}

#[test]
fn a_block_runs_through_its_three_waves() {
    let mut orchestrator = Orchestrator::new(true);
    assert_eq!(
        orchestrator.handle(StreamEvent::Message { block_height: 100 }),
        Decision::Run { wave: Wave::First }
    );
    assert_eq!(
        orchestrator.progress,
        Progress::Running { block_height: 100, wave: Wave::First }
    );
    assert_eq!(orchestrator.handle(StreamEvent::WaveDone), Decision::Run { wave: Wave::Second });
    assert_eq!(orchestrator.handle(StreamEvent::WaveDone), Decision::Run { wave: Wave::Third });
    assert_eq!(orchestrator.handle(StreamEvent::WaveDone), Decision::NextMessage);
    assert_eq!(orchestrator.progress, Progress::Idle);
    assert_eq!(
        orchestrator.handle(StreamEvent::Message { block_height: 101 }),
        Decision::Run { wave: Wave::First }
    );
}

#[test]
fn in_strict_mode_every_failure_ends_the_run() {
    let mut orchestrator = Orchestrator::new(true);
    orchestrator.handle(StreamEvent::Message { block_height: 100 });
    orchestrator.handle(StreamEvent::WaveDone);
    assert_eq!(
        orchestrator.handle(StreamEvent::WaveFailed { error: IndexerError::UnresolvedLineage }),
        Decision::Stop { error: IndexerError::UnresolvedLineage }
    );
    assert_eq!(orchestrator.progress, Progress::Stopped);
    assert_eq!(
        orchestrator.handle(StreamEvent::Message { block_height: 101 }),
        Decision::Stop { error: IndexerError::Upstream }
    );
}

#[test]
fn in_non_strict_mode_a_lineage_failure_puts_the_block_down_for_another_run() {
    let mut orchestrator = Orchestrator::new(false);
    orchestrator.handle(StreamEvent::Message { block_height: 100 });
    orchestrator.handle(StreamEvent::WaveDone);
    assert_eq!(
        orchestrator.handle(StreamEvent::WaveFailed { error: IndexerError::UnresolvedLineage }),
        Decision::Rerun { block_height: 100 }
    );
    assert_eq!(orchestrator.progress, Progress::Idle);
    assert_eq!(
        orchestrator.handle(StreamEvent::Message { block_height: 101 }),
        Decision::Run { wave: Wave::First }
    );
}

#[test]
fn in_non_strict_mode_other_failures_still_end_the_run() {
    for error in [
        IndexerError::Transient,
        IndexerError::BadInput,
        IndexerError::SchemaViolation,
        IndexerError::Upstream,
    ] {
        let mut orchestrator = Orchestrator::new(false);
        orchestrator.handle(StreamEvent::Message { block_height: 100 });
        assert_eq!(
            orchestrator.handle(StreamEvent::WaveFailed { error }),
            Decision::Stop { error }
        );
        assert_eq!(orchestrator.progress, Progress::Stopped);
    }
}

#[test]
fn a_message_in_the_middle_of_a_block_is_out_of_order() {
    let mut orchestrator = Orchestrator::new(true);
    orchestrator.handle(StreamEvent::Message { block_height: 100 });
    assert_eq!(
        orchestrator.handle(StreamEvent::Message { block_height: 101 }),
        Decision::Stop { error: IndexerError::Upstream }
    );
}

#[test]
fn a_wave_that_ends_while_none_runs_is_out_of_order() {
    let mut orchestrator = Orchestrator::new(true);
    assert_eq!(
        orchestrator.handle(StreamEvent::WaveDone),
        Decision::Stop { error: IndexerError::Upstream }
    );
    let mut orchestrator = Orchestrator::new(false);
    assert_eq!(
        orchestrator.handle(StreamEvent::WaveFailed { error: IndexerError::UnresolvedLineage }),
        Decision::Stop { error: IndexerError::Upstream }
    );
}

#[test]
fn the_options_give_the_parts_their_settings() {
    let mut opts = options();
    assert!(opts.strict_mode());
    assert_eq!(opts.chunk_size(), 500);
    assert_eq!(
        opts.retry_policy(),
        RetryPolicy { retry_count: 10, base_delay_ms: 100, max_delay_ms: 120_000 }
    );
    assert!(opts.receipts_cache().is_ok());
    assert_eq!(opts.orchestrator(), Orchestrator { strict_mode: true, progress: Progress::Idle });
    opts.non_strict_mode = true;
    opts.cache_capacity = 0;
    assert!(!opts.strict_mode());
    assert!(!opts.orchestrator().strict_mode);
    assert!(matches!(opts.receipts_cache(), Err(IndexerError::BadInput)));
}

#[test]
fn the_defaults() {
    assert_eq!(DEFAULT_BATCH_CHUNK_SIZE, 500);
    assert_eq!(DEFAULT_CACHE_CAPACITY, 100_000);
    assert_eq!(DEFAULT_RETRY_COUNT, 10);
}
