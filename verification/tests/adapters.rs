use lake_indexer::cache::ReceiptsCache;
use lake_indexer::db_adapters::access_keys::{
    add_access_keys, delete_access_keys_for_deleted_accounts, handle_access_keys,
    update_access_keys,
};
use lake_indexer::db_adapters::account_changes::store_account_changes;
use lake_indexer::db_adapters::accounts::{deletion_statements, handle_accounts};
use lake_indexer::db_adapters::blocks::store_block;
use lake_indexer::db_adapters::chunks::store_chunks;
use lake_indexer::db_adapters::execution_outcomes::{
    store_execution_outcomes, store_execution_outcomes_for_chunk,
};
use lake_indexer::db_adapters::transactions::{store_chunk_transactions, store_transactions};
use lake_indexer::errors::IndexerError;
use lake_indexer::hashes::{CryptoHash, ReceiptOrDataId};
use lake_indexer::models::SqlValue;
use lake_indexer::views::{
    AccessKeyPermissionView, ActionView, ActionWithArgs, BlockView, ChunkHeaderView,
    ExecutionOutcomeWithIdView, ExecutionStatusView, IndexerChunkView,
    IndexerExecutionOutcomeWithReceipt, IndexerShard, IndexerTransactionWithOutcome,
    ReceiptEnumView, ReceiptView, SignedTransactionView, StateChangeCauseView,
    StateChangeWithCauseView,
};

fn hash(n: u8) -> CryptoHash {
    CryptoHash { bytes: [n; 32] }
}

fn text(n: u8) -> String {
    hash(n).to_text()
}

fn header(chunk: u8, shard_id: u64) -> ChunkHeaderView {
    ChunkHeaderView {
        chunk_hash: hash(chunk),
        shard_id,
        signature: "ed25519:chunk-signature".to_string(),
        gas_limit: 1_000,
        gas_used: 10,
    }
}

fn transaction(id: u8, receipt_ids: Vec<CryptoHash>) -> IndexerTransactionWithOutcome {
    IndexerTransactionWithOutcome {
        transaction: SignedTransactionView {
            hash: hash(id),
            signer_id: "alice.near".to_string(),
            public_key: "ed25519:alice".to_string(),
            nonce: 1,
            receiver_id: "bob.near".to_string(),
            signature: "ed25519:tx-signature".to_string(),
        },
        outcome: ExecutionOutcomeWithIdView {
            id: hash(id),
            block_hash: hash(1),
            receipt_ids,
            gas_burnt: 1,
            tokens_burnt: 2,
            executor_id: "alice.near".to_string(),
            status: ExecutionStatusView::SuccessReceiptId,
        },
    }
}

fn chunk(chunk: u8, shard_id: u64, transactions: Vec<IndexerTransactionWithOutcome>) -> IndexerChunkView {
    IndexerChunkView {
        author: "validator.near".to_string(),
        header: header(chunk, shard_id),
        transactions,
        receipts: Vec::new(),
    }
}

fn shard(shard_id: u64, chunk: Option<IndexerChunkView>) -> IndexerShard {
    IndexerShard {
        shard_id,
        chunk,
        receipt_execution_outcomes: Vec::new(),
        state_changes: Vec::new(),
    }
}

fn action(action: ActionView) -> ActionWithArgs {
    ActionWithArgs { action, args: "{}".to_string() }
}

fn outcome_with(
    receipt_id: u8,
    receiver: &str,
    status: ExecutionStatusView,
    actions: Vec<ActionView>,
    produced: Vec<CryptoHash>,
) -> IndexerExecutionOutcomeWithReceipt {
    IndexerExecutionOutcomeWithReceipt {
        execution_outcome: ExecutionOutcomeWithIdView {
            id: hash(receipt_id),
            block_hash: hash(1),
            receipt_ids: produced,
            gas_burnt: 5,
            tokens_burnt: 6,
            executor_id: receiver.to_string(),
            status,
        },
        receipt: ReceiptView {
            predecessor_id: "alice.near".to_string(),
            receiver_id: receiver.to_string(),
            receipt_id: hash(receipt_id),
            receipt: ReceiptEnumView::Action {
                signer_id: "alice.near".to_string(),
                signer_public_key: "ed25519:alice".to_string(),
                gas_price: 1,
                output_data_receivers: Vec::new(),
                input_data_ids: Vec::new(),
                actions: actions.into_iter().map(action).collect(),
            },
        },
    }
}

fn success(receipt_id: u8, receiver: &str, actions: Vec<ActionView>) -> IndexerExecutionOutcomeWithReceipt {
    outcome_with(receipt_id, receiver, ExecutionStatusView::SuccessValue, actions, Vec::new())
}

fn change(cause: StateChangeCauseView, account: &str) -> StateChangeWithCauseView {
    StateChangeWithCauseView { cause, account_id: account.to_string() }
}

#[test]
fn a_block_is_one_statement_with_one_row() {
    let block = BlockView {
        height: 10,
        hash: hash(1),
        prev_hash: hash(2),
        timestamp: 1_600,
        total_supply: 3,
        gas_price: 4,
        author: "validator.near".to_string(),
    };
    let statement = store_block(&block);
    assert_eq!(statement.query, "INSERT IGNORE INTO blocks VALUES (?, ?, ?, ?, ?, ?, ?)");
    assert_eq!(
        statement.args.values,
        vec![
            SqlValue::Decimal(10),
            SqlValue::Text(text(1)),
            SqlValue::Text(text(2)),
            SqlValue::Decimal(1_600),
            SqlValue::Decimal(3),
            SqlValue::Decimal(4),
            SqlValue::Text("validator.near".to_string()),
        ]
    );
}

#[test]
fn only_shards_with_a_chunk_give_a_chunk_row() {
    let shards = vec![
        shard(0, Some(chunk(20, 0, Vec::new()))),
        shard(1, None),
        shard(2, Some(chunk(22, 2, Vec::new()))),
    ];
    let rows = store_chunks(&shards, &hash(1));
    assert_eq!(rows.len(), 2);
    assert_eq!(rows[0].chunk_hash, text(20));
    assert_eq!(rows[0].included_in_block_hash, text(1));
    assert_eq!(rows[1].chunk_hash, text(22));
    assert_eq!(rows[1].shard_id, 2);
}

#[test]
fn no_shards_give_no_chunk_rows() {
    assert_eq!(store_chunks(&Vec::new(), &hash(1)), Vec::new());
}

#[test]
fn transactions_are_numbered_by_their_place_and_filed_in_the_cache() {
    let mut cache = ReceiptsCache::with_size(10).unwrap();
    let transactions = vec![
        transaction(40, vec![hash(50)]),
        transaction(41, vec![hash(51), hash(52)]),
        transaction(42, vec![hash(53)]),
    ];
    let rows =
        store_chunk_transactions(&transactions, &hash(1), 1_600, &header(20, 0), "", &mut cache)
            .unwrap();
    let indices: Vec<i32> = rows.iter().map(|row| row.index_in_chunk).collect();
    assert_eq!(indices, vec![0, 1, 2]);
    assert_eq!(rows[1].transaction_hash, text(41));
    assert_eq!(rows[1].converted_into_receipt_id, text(51));
    assert_eq!(rows[1].included_in_chunk_hash, text(20));
    assert_eq!(rows[1].included_in_block_hash, text(1));
    assert_eq!(rows[1].block_timestamp, 1_600);
    assert_eq!(cache.cache_get(&ReceiptOrDataId::ReceiptId(hash(50))), Some(text(40)));
    assert_eq!(cache.cache_get(&ReceiptOrDataId::ReceiptId(hash(51))), Some(text(41)));
    assert_eq!(cache.cache_get(&ReceiptOrDataId::ReceiptId(hash(52))), None);
    assert_eq!(cache.cache_get(&ReceiptOrDataId::ReceiptId(hash(53))), Some(text(42)));
}

#[test]
fn a_suffix_tells_apart_transactions_that_share_a_hash() {
    let mut cache = ReceiptsCache::with_size(10).unwrap();
    let transactions = vec![transaction(40, vec![hash(50)])];
    let rows = store_chunk_transactions(
        &transactions,
        &hash(1),
        1_600,
        &header(20, 0),
        "_issue84",
        &mut cache,
    )
    .unwrap();
    let expected = format!("{}_issue84", text(40));
    assert_eq!(rows[0].transaction_hash, expected);
    assert_eq!(cache.cache_get(&ReceiptOrDataId::ReceiptId(hash(50))), Some(expected));
}

#[test]
fn a_transaction_without_a_receipt_shows_a_malformed_stream() {
    let mut cache = ReceiptsCache::with_size(10).unwrap();
    let transactions = vec![transaction(40, vec![hash(50)]), transaction(41, Vec::new())];
    assert_eq!(
        store_chunk_transactions(&transactions, &hash(1), 1_600, &header(20, 0), "", &mut cache),
        Err(IndexerError::Upstream)
    );
    assert_eq!(cache.cache_get(&ReceiptOrDataId::ReceiptId(hash(50))), None);
}

#[test]
fn the_transactions_of_a_block_come_chunk_after_chunk() {
    let mut cache = ReceiptsCache::with_size(10).unwrap();
    let shards = vec![
        shard(0, Some(chunk(20, 0, vec![transaction(40, vec![hash(50)])]))),
        shard(1, None),
        shard(2, Some(chunk(22, 2, Vec::new()))),
        shard(
            3,
            Some(chunk(
                23,
                3,
                vec![transaction(41, vec![hash(51)]), transaction(42, vec![hash(52)])],
            )),
        ),
    ];
    let rows = store_transactions(&shards, &hash(1), 1_600, &mut cache).unwrap();
    let places: Vec<(String, i32)> =
        rows.iter().map(|row| (row.included_in_chunk_hash.clone(), row.index_in_chunk)).collect();
    assert_eq!(places, vec![(text(20), 0), (text(23), 0), (text(23), 1)]);
    assert_eq!(cache.cache_get(&ReceiptOrDataId::ReceiptId(hash(52))), Some(text(42)));
}

#[test]
fn one_malformed_chunk_leaves_the_cache_alone() {
    let mut cache = ReceiptsCache::with_size(10).unwrap();
    let shards = vec![
        shard(0, Some(chunk(20, 0, vec![transaction(40, vec![hash(50)])]))),
        shard(1, Some(chunk(21, 1, vec![transaction(41, Vec::new())]))),
    ];
    assert_eq!(
        store_transactions(&shards, &hash(1), 1_600, &mut cache),
        Err(IndexerError::Upstream)
    );
    assert_eq!(cache.cache_get(&ReceiptOrDataId::ReceiptId(hash(50))), None);
}

#[test]
fn an_outcome_hands_the_transaction_on_to_the_receipts_it_produced() {
    let mut cache = ReceiptsCache::with_size(10).unwrap();
    cache.cache_set(ReceiptOrDataId::ReceiptId(hash(30)), "the-transaction".to_string());
    let outcomes = vec![
        outcome_with(
            30,
            "bob.near",
            ExecutionStatusView::SuccessReceiptId,
            Vec::new(),
            vec![hash(50), hash(51)],
        ),
        outcome_with(31, "bob.near", ExecutionStatusView::Failure, Vec::new(), vec![hash(52)]),
    ];
    let rows = store_execution_outcomes_for_chunk(&outcomes, 2, &hash(1), 1_600, &mut cache);
    assert_eq!(rows.outcome_models.len(), 2);
    assert_eq!(rows.outcome_models[0].receipt_id, text(30));
    assert_eq!(rows.outcome_models[0].index_in_chunk, 0);
    assert_eq!(rows.outcome_models[0].chunk_index_in_block, 2);
    assert_eq!(rows.outcome_models[0].status, "SUCCESS_RECEIPT_ID");
    assert_eq!(rows.outcome_models[1].index_in_chunk, 1);
    assert_eq!(rows.outcome_models[1].status, "FAILURE");
    let produced: Vec<(String, String, i32)> = rows
        .outcome_receipt_models
        .iter()
        .map(|row| {
            (row.executed_receipt_id.clone(), row.produced_receipt_id.clone(), row.index_in_chunk)
        })
        .collect();
    assert_eq!(
        produced,
        vec![(text(30), text(50), 0), (text(30), text(51), 1), (text(31), text(52), 2)]
    );
    assert_eq!(rows.outcome_receipt_models[2].block_hash, text(1));
    assert_eq!(cache.cache_get(&ReceiptOrDataId::ReceiptId(hash(30))), None);
    assert_eq!(
        cache.cache_get(&ReceiptOrDataId::ReceiptId(hash(50))),
        Some("the-transaction".to_string())
    );
    assert_eq!(
        cache.cache_get(&ReceiptOrDataId::ReceiptId(hash(51))),
        Some("the-transaction".to_string())
    );
    assert_eq!(cache.cache_get(&ReceiptOrDataId::ReceiptId(hash(52))), None);
}

#[test]
fn the_outcomes_of_a_block_come_shard_by_shard() {
    let mut cache = ReceiptsCache::with_size(10).unwrap();
    cache.cache_set(ReceiptOrDataId::ReceiptId(hash(30)), "the-transaction".to_string());
    let mut first = shard(0, None);
    first.receipt_execution_outcomes = vec![outcome_with(
        30,
        "bob.near",
        ExecutionStatusView::SuccessReceiptId,
        Vec::new(),
        vec![hash(31)],
    )];
    let mut second = shard(1, None);
    second.receipt_execution_outcomes = vec![outcome_with(
        31,
        "bob.near",
        ExecutionStatusView::SuccessValue,
        Vec::new(),
        vec![hash(32)],
    )];
    let rows = store_execution_outcomes(&vec![first, second], &hash(1), 1_600, &mut cache);
    assert_eq!(rows.len(), 2);
    assert_eq!(rows[0].outcome_models[0].chunk_index_in_block, 0);
    assert_eq!(rows[1].outcome_models[0].chunk_index_in_block, 1);
    assert_eq!(rows[1].outcome_receipt_models[0].index_in_chunk, 0);
    assert_eq!(cache.cache_get(&ReceiptOrDataId::ReceiptId(hash(31))), None);
    assert_eq!(
        cache.cache_get(&ReceiptOrDataId::ReceiptId(hash(32))),
        Some("the-transaction".to_string())
    );
}

#[test]
fn account_changes_are_numbered_through_the_block() {
    let mut first = shard(0, None);
    first.state_changes = vec![
        change(StateChangeCauseView::TransactionProcessing { tx_hash: hash(40) }, "alice.near"),
        change(StateChangeCauseView::ValidatorAccountsUpdate, "validator.near"),
    ];
    let second = shard(1, None);
    let mut third = shard(2, None);
    third.state_changes =
        vec![change(StateChangeCauseView::ReceiptProcessing { receipt_hash: hash(30) }, "bob.near")];
    let rows = store_account_changes(&vec![first, second, third], &hash(1), 1_600).unwrap();
    let found: Vec<(i32, String, String, Option<String>)> = rows
        .iter()
        .map(|row| {
            (
                row.index_in_block,
                row.account_id.clone(),
                row.cause_kind.clone(),
                row.cause_payload.clone(),
            )
        })
        .collect();
    assert_eq!(
        found,
        vec![
            (0, "alice.near".to_string(), "TRANSACTION_PROCESSING".to_string(), Some(text(40))),
            (1, "validator.near".to_string(), "VALIDATOR_ACCOUNTS_UPDATE".to_string(), None),
            (2, "bob.near".to_string(), "RECEIPT_PROCESSING".to_string(), Some(text(30))),
        ]
    );
    assert_eq!(rows[2].block_hash, text(1));
    assert_eq!(rows[2].block_timestamp, 1_600);
}

#[test]
fn a_change_of_no_live_stream_fails_the_block() {
    let mut first = shard(0, None);
    first.state_changes = vec![
        change(StateChangeCauseView::Migration, "alice.near"),
        change(StateChangeCauseView::NotWritableToDisk, "bob.near"),
    ];
    assert_eq!(
        store_account_changes(&vec![first], &hash(1), 1_600),
        Err(IndexerError::SchemaViolation)
    );
}

#[test]
fn a_created_account_is_inserted() {
    let outcomes = vec![success(30, "bob.near", vec![ActionView::CreateAccount])];
    let changes = handle_accounts(&outcomes, 100);
    assert_eq!(changes.existing_accounts_to_update, Vec::new());
    assert_eq!(changes.new_accounts_to_insert.len(), 1);
    let account = &changes.new_accounts_to_insert[0];
    assert_eq!(account.account_id, "bob.near");
    assert_eq!(account.created_at_block_height, 100);
    assert_eq!(account.created_by_receipt_id, Some(text(30)));
    assert_eq!(account.deleted_by_receipt_id, None);
}

#[test]
fn a_transfer_to_sixty_four_hex_digits_makes_an_account_and_its_key() {
    let receiver = "0".repeat(64);
    let outcomes = vec![success(30, &receiver, vec![ActionView::Transfer])];
    let accounts = handle_accounts(&outcomes, 100);
    assert_eq!(accounts.existing_accounts_to_update, Vec::new());
    assert_eq!(accounts.new_accounts_to_insert.len(), 1);
    assert_eq!(accounts.new_accounts_to_insert[0].account_id, receiver);
    assert_eq!(accounts.new_accounts_to_insert[0].created_by_receipt_id, Some(text(30)));
    assert_eq!(accounts.new_accounts_to_insert[0].created_at_block_height, 100);
    let keys = handle_access_keys(&outcomes, 100);
    assert_eq!(keys.access_keys_to_update, Vec::new());
    assert_eq!(keys.deleted_accounts, Vec::new());
    assert_eq!(keys.access_keys_to_insert.len(), 1);
    let key = &keys.access_keys_to_insert[0];
    assert_eq!(key.public_key, "ed25519:11111111111111111111111111111111");
    assert_eq!(key.account_id, receiver);
    assert_eq!(key.permission_kind, "FULL_ACCESS");
    assert_eq!(key.created_by_receipt_id, Some(text(30)));
    assert_eq!(key.deleted_by_receipt_id, None);
    assert_eq!(key.last_update_block_height, 100);
}

#[test]
fn a_transfer_to_a_named_account_makes_nothing() {
    let outcomes = vec![success(30, "bob.near", vec![ActionView::Transfer])];
    let accounts = handle_accounts(&outcomes, 100);
    assert_eq!(accounts.new_accounts_to_insert, Vec::new());
    assert_eq!(accounts.existing_accounts_to_update, Vec::new());
    let keys = handle_access_keys(&outcomes, 100);
    assert_eq!(keys.access_keys_to_insert, Vec::new());
    assert_eq!(keys.access_keys_to_update, Vec::new());
}

#[test]
fn receipts_that_failed_do_not_count() {
    let outcomes = vec![
        outcome_with(
            30,
            "bob.near",
            ExecutionStatusView::Failure,
            vec![ActionView::CreateAccount],
            Vec::new(),
        ),
        outcome_with(
            31,
            "carol.near",
            ExecutionStatusView::Unknown,
            vec![ActionView::DeleteAccount],
            Vec::new(),
        ),
    ];
    let accounts = handle_accounts(&outcomes, 100);
    assert_eq!(accounts.new_accounts_to_insert, Vec::new());
    assert_eq!(accounts.existing_accounts_to_update, Vec::new());
    let keys = handle_access_keys(&outcomes, 100);
    assert_eq!(keys.deleted_accounts, Vec::new());
}

#[test]
fn an_account_made_and_deleted_in_one_block_is_inserted_as_deleted() {
    let outcomes = vec![
        success(30, "bob.near", vec![ActionView::CreateAccount]),
        success(31, "bob.near", vec![ActionView::DeleteAccount]),
    ];
    let changes = handle_accounts(&outcomes, 100);
    assert_eq!(changes.existing_accounts_to_update, Vec::new());
    assert_eq!(changes.new_accounts_to_insert.len(), 1);
    let account = &changes.new_accounts_to_insert[0];
    assert_eq!(account.created_by_receipt_id, Some(text(30)));
    assert_eq!(account.deleted_by_receipt_id, Some(text(31)));
    assert_eq!(account.deleted_at_block_height, Some(100));
}

#[test]
fn an_account_that_is_only_deleted_is_updated() {
    let outcomes = vec![
        success(30, "carol.near", vec![ActionView::CreateAccount]),
        success(31, "bob.near", vec![ActionView::Stake, ActionView::DeleteAccount]),
    ];
    let changes = handle_accounts(&outcomes, 100);
    assert_eq!(changes.new_accounts_to_insert.len(), 1);
    assert_eq!(changes.new_accounts_to_insert[0].account_id, "carol.near");
    assert_eq!(changes.existing_accounts_to_update.len(), 1);
    let account = &changes.existing_accounts_to_update[0];
    assert_eq!(account.account_id, "bob.near");
    assert_eq!(account.created_by_receipt_id, None);
    assert_eq!(account.created_at_block_height, 0);
    assert_eq!(account.deleted_by_receipt_id, Some(text(31)));
    assert_eq!(account.deleted_at_block_height, Some(100));
    let statements = deletion_statements(&changes.existing_accounts_to_update);
    assert_eq!(statements.len(), 1);
    assert_eq!(
        statements[0].args.values,
        vec![
            SqlValue::Decimal(100),
            SqlValue::Text(text(31)),
            SqlValue::Text("bob.near".to_string()),
        ]
    );
}

#[test]
fn an_account_made_twice_keeps_its_place_and_the_later_receipt() {
    let outcomes = vec![
        success(30, "bob.near", vec![ActionView::CreateAccount]),
        success(31, "carol.near", vec![ActionView::CreateAccount]),
        success(32, "bob.near", vec![ActionView::CreateAccount]),
    ];
    let changes = handle_accounts(&outcomes, 100);
    let found: Vec<(String, Option<String>)> = changes
        .new_accounts_to_insert
        .iter()
        .map(|account| (account.account_id.clone(), account.created_by_receipt_id.clone()))
        .collect();
    assert_eq!(
        found,
        vec![
            ("bob.near".to_string(), Some(text(32))),
            ("carol.near".to_string(), Some(text(31))),
        ]
    );
}

fn add_key(key: &str, permission: AccessKeyPermissionView) -> ActionView {
    ActionView::AddKey { public_key: key.to_string(), permission }
}

fn delete_key(key: &str) -> ActionView {
    ActionView::DeleteKey { public_key: key.to_string() }
}

#[test]
fn an_added_key_is_inserted() {
    let outcomes = vec![success(
        30,
        "bob.near",
        vec![add_key("ed25519:one", AccessKeyPermissionView::FunctionCall)],
    )];
    let changes = handle_access_keys(&outcomes, 100);
    assert_eq!(changes.access_keys_to_update, Vec::new());
    assert_eq!(changes.access_keys_to_insert.len(), 1);
    let key = &changes.access_keys_to_insert[0];
    assert_eq!(key.public_key, "ed25519:one");
    assert_eq!(key.account_id, "bob.near");
    assert_eq!(key.permission_kind, "FUNCTION_CALL");
    assert_eq!(key.created_by_receipt_id, Some(text(30)));
    assert_eq!(key.last_update_block_height, 100);
    let statements = add_access_keys(&changes.access_keys_to_insert);
    assert_eq!(statements.len(), 1);
    assert_eq!(statements[0], key.refresh_statement());
}

#[test]
fn a_key_added_and_deleted_in_one_block_collapses_into_one_row() {
    let outcomes = vec![
        success(30, "bob.near", vec![add_key("ed25519:one", AccessKeyPermissionView::FullAccess)]),
        success(31, "bob.near", vec![delete_key("ed25519:one")]),
    ];
    let changes = handle_access_keys(&outcomes, 100);
    assert_eq!(changes.access_keys_to_update, Vec::new());
    assert_eq!(changes.access_keys_to_insert.len(), 1);
    let key = &changes.access_keys_to_insert[0];
    assert_eq!(key.created_by_receipt_id, Some(text(30)));
    assert_eq!(key.deleted_by_receipt_id, Some(text(31)));
}

#[test]
fn a_key_that_is_only_deleted_is_updated() {
    let outcomes = vec![success(31, "bob.near", vec![delete_key("ed25519:one")])];
    let changes = handle_access_keys(&outcomes, 100);
    assert_eq!(changes.access_keys_to_insert, Vec::new());
    assert_eq!(changes.access_keys_to_update.len(), 1);
    let key = &changes.access_keys_to_update[0];
    assert_eq!(key.created_by_receipt_id, None);
    assert_eq!(key.deleted_by_receipt_id, Some(text(31)));
    assert_eq!(key.permission_kind, "FULL_ACCESS");
    let statements = update_access_keys(&changes.access_keys_to_update);
    assert_eq!(statements.len(), 1);
    assert_eq!(statements[0], key.deletion_statement());
}

#[test]
fn the_same_key_on_two_accounts_is_two_keys() {
    let outcomes = vec![
        success(30, "bob.near", vec![add_key("ed25519:one", AccessKeyPermissionView::FullAccess)]),
        success(31, "carol.near", vec![add_key("ed25519:one", AccessKeyPermissionView::FullAccess)]),
        success(32, "bob.near", vec![delete_key("ed25519:one")]),
    ];
    let changes = handle_access_keys(&outcomes, 100);
    let found: Vec<(String, Option<String>)> = changes
        .access_keys_to_insert
        .iter()
        .map(|key| (key.account_id.clone(), key.deleted_by_receipt_id.clone()))
        .collect();
    assert_eq!(
        found,
        vec![("bob.near".to_string(), Some(text(32))), ("carol.near".to_string(), None)]
    );
}

#[test]
fn a_deleted_account_takes_its_keys_along() {
    let outcomes = vec![
        success(
            30,
            "bob.near",
            vec![
                add_key("ed25519:one", AccessKeyPermissionView::FullAccess),
                add_key("ed25519:two", AccessKeyPermissionView::FunctionCall),
            ],
        ),
        success(31, "carol.near", vec![add_key("ed25519:three", AccessKeyPermissionView::FullAccess)]),
        success(32, "bob.near", vec![ActionView::DeleteAccount]),
    ];
    let changes = handle_access_keys(&outcomes, 100);
    let found: Vec<(String, Option<String>)> = changes
        .access_keys_to_insert
        .iter()
        .map(|key| (key.public_key.clone(), key.deleted_by_receipt_id.clone()))
        .collect();
    assert_eq!(
        found,
        vec![
            ("ed25519:one".to_string(), Some(text(32))),
            ("ed25519:two".to_string(), Some(text(32))),
            ("ed25519:three".to_string(), None),
        ]
    );
    assert_eq!(changes.deleted_accounts, vec![("bob.near".to_string(), text(32))]);
    let statements = delete_access_keys_for_deleted_accounts(100, &changes.deleted_accounts);
    assert_eq!(statements.len(), 1);
    assert_eq!(
        statements[0].query,
        "UPDATE access_keys SET deleted_by_receipt_id = ?, last_update_block_height = ? WHERE deleted_by_receipt_id IS NULL AND last_update_block_height < ? AND account_id = ?"
    );
    assert_eq!(
        statements[0].args.values,
        vec![
            SqlValue::Text(text(32)),
            SqlValue::Decimal(100),
            SqlValue::Decimal(100),
            SqlValue::Text("bob.near".to_string()),
        ]
    );
}

#[test]
fn no_outcomes_change_nothing() {
    let accounts = handle_accounts(&Vec::new(), 100);
    assert_eq!(accounts.new_accounts_to_insert, Vec::new());
    assert_eq!(accounts.existing_accounts_to_update, Vec::new());
    let keys = handle_access_keys(&Vec::new(), 100);
    assert_eq!(keys.access_keys_to_insert, Vec::new());
    assert_eq!(keys.access_keys_to_update, Vec::new());
    assert_eq!(keys.deleted_accounts, Vec::new());
}
