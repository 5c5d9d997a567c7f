use lake_indexer::errors::IndexerError;
use lake_indexer::hashes::CryptoHash;
use lake_indexer::models::access_keys::AccessKey;
use lake_indexer::models::account_changes::AccountChange;
use lake_indexer::models::accounts::Account;
use lake_indexer::models::blocks::Block;
use lake_indexer::models::chunks::Chunk;
use lake_indexer::models::execution_outcomes::{ExecutionOutcome, ExecutionOutcomeReceipt};
use lake_indexer::models::receipts::{
    ActionReceipt, ActionReceiptAction, ActionReceiptsInput, ActionReceiptsOutput, DataReceipt,
};
use lake_indexer::models::transactions::Transaction;
use lake_indexer::models::{FieldCount, MySqlMethods, SqlArguments, SqlValue};
use lake_indexer::views::{
    AccessKeyPermissionView, ActionView, ActionWithArgs, BlockView, ChunkHeaderView,
    DataReceiverView, ExecutionOutcomeWithIdView, ExecutionStatusView, IndexerChunkView,
    IndexerTransactionWithOutcome, ReceiptEnumView, ReceiptView, SignedTransactionView,
    StateChangeCauseView, StateChangeWithCauseView,
};

fn hash(n: u8) -> CryptoHash {
    CryptoHash { bytes: [n; 32] }
}

fn text(n: u8) -> SqlValue {
    SqlValue::Text(hash(n).to_text())
}

fn s(value: &str) -> SqlValue {
    SqlValue::Text(value.to_string())
}

fn header() -> ChunkHeaderView {
    ChunkHeaderView {
        chunk_hash: hash(20),
        shard_id: 3,
        signature: "ed25519:chunk-signature".to_string(),
        gas_limit: 1_000_000,
        gas_used: 999,
    }
}

fn action_receipt() -> ReceiptView {
    ReceiptView {
        predecessor_id: "alice.near".to_string(),
        receiver_id: "bob.near".to_string(),
        receipt_id: hash(30),
        receipt: ReceiptEnumView::Action {
            signer_id: "alice.near".to_string(),
            signer_public_key: "ed25519:signer".to_string(),
            gas_price: 100_000_000,
            output_data_receivers: Vec::new(),
            input_data_ids: Vec::new(),
            actions: Vec::new(),
        },
    }
}

fn data_receipt() -> ReceiptView {
    ReceiptView {
        predecessor_id: "alice.near".to_string(),
        receiver_id: "bob.near".to_string(),
        receipt_id: hash(31),
        receipt: ReceiptEnumView::Data { data_id: hash(32), data: Some(vec![1, 2, 3]) },
    }
}

fn bound<T: MySqlMethods>(record: &T) -> Vec<SqlValue> {
    let mut args = SqlArguments::new();
    record.add_to_args(&mut args);
    args.values
}

#[test]
fn the_row_of_a_block() {
    let view = BlockView {
        height: 9_823_031,
        hash: hash(1),
        prev_hash: hash(2),
        timestamp: 1_600_000_000_000_000_000,
        total_supply: u128::MAX,
        gas_price: 1_000_000_000,
        author: "validator.near".to_string(),
    };
    let block = Block::from_block_view(&view);
    assert_eq!(
        bound(&block),
        vec![
            SqlValue::Decimal(9_823_031),
            text(1),
            text(2),
            SqlValue::Decimal(1_600_000_000_000_000_000),
            SqlValue::Decimal(u128::MAX),
            SqlValue::Decimal(1_000_000_000),
            s("validator.near"),
        ]
    );
    assert_eq!(
        Block::get_query(1),
        Ok("INSERT IGNORE INTO blocks VALUES (?, ?, ?, ?, ?, ?, ?)".to_string())
    );
    assert_eq!(Block::field_count(), 7);
    assert_eq!(<Block as MySqlMethods>::name(), "blocks");
}

#[test]
fn the_row_of_a_chunk() {
    let view = IndexerChunkView {
        author: "validator.near".to_string(),
        header: header(),
        transactions: Vec::new(),
        receipts: Vec::new(),
    };
    let chunk = Chunk::from_chunk_view(&view, &hash(1));
    let mut args = SqlArguments::new();
    chunk.add_to_args(&mut args);
    assert_eq!(
        args.values,
        vec![
            text(1),
            text(20),
            SqlValue::Decimal(3),
            s("ed25519:chunk-signature"),
            SqlValue::Decimal(1_000_000),
            SqlValue::Decimal(999),
            s("validator.near"),
        ]
    );
    assert_eq!(
        Chunk::get_query(2),
        Ok("INSERT IGNORE INTO chunks VALUES (?, ?, ?, ?, ?, ?, ?), (?, ?, ?, ?, ?, ?, ?)"
            .to_string())
    );
    assert_eq!(Chunk::get_query(0), Err(IndexerError::BadInput));
}

fn transaction_view() -> IndexerTransactionWithOutcome {
    IndexerTransactionWithOutcome {
        transaction: SignedTransactionView {
            hash: hash(40),
            signer_id: "alice.near".to_string(),
            public_key: "ed25519:alice".to_string(),
            nonce: 77,
            receiver_id: "bob.near".to_string(),
            signature: "ed25519:tx-signature".to_string(),
        },
        outcome: ExecutionOutcomeWithIdView {
            id: hash(40),
            block_hash: hash(1),
            receipt_ids: vec![hash(41)],
            gas_burnt: 2_428_000_000_000,
            tokens_burnt: 242_800_000_000_000_000_000,
            executor_id: "alice.near".to_string(),
            status: ExecutionStatusView::SuccessReceiptId,
        },
    }
}

#[test]
fn the_row_of_a_transaction() {
    let transaction = Transaction::from_indexer_transaction(
        &transaction_view(),
        "the-hash",
        "the-receipt",
        &hash(1),
        &hash(20),
        1_600_000_000_000_000_000,
        5,
    );
    let mut args = SqlArguments::new();
    transaction.add_to_args(&mut args);
    assert_eq!(
        args.values,
        vec![
            s("the-hash"),
            text(1),
            text(20),
            SqlValue::Integer(5),
            SqlValue::Decimal(1_600_000_000_000_000_000),
            s("alice.near"),
            s("ed25519:alice"),
            SqlValue::Decimal(77),
            s("bob.near"),
            s("ed25519:tx-signature"),
            s("SUCCESS_RECEIPT_ID"),
            s("the-receipt"),
            SqlValue::Decimal(2_428_000_000_000),
            SqlValue::Decimal(242_800_000_000_000_000_000),
        ]
    );
    assert_eq!(Transaction::field_count(), 14);
    assert_eq!(
        Transaction::get_query(1),
        Ok("INSERT IGNORE INTO transactions VALUES (?, ?, ?, ?, ?, ?, ?, ?, ?, ?, ?, ?, ?, ?)"
            .to_string())
    );
    assert_eq!(Transaction::get_query(0), Err(IndexerError::BadInput));
}

#[test]
fn the_row_of_an_execution_outcome() {
    let view = ExecutionOutcomeWithIdView {
        id: hash(30),
        block_hash: hash(1),
        receipt_ids: vec![hash(50), hash(51)],
        gas_burnt: 123,
        tokens_burnt: 456,
        executor_id: "bob.near".to_string(),
        status: ExecutionStatusView::Failure,
    };
    let outcome = ExecutionOutcome::from_execution_outcome(&view, 4, 1_600, 2);
    let mut args = SqlArguments::new();
    outcome.add_to_args(&mut args);
    assert_eq!(
        args.values,
        vec![
            text(30),
            text(1),
            SqlValue::Decimal(1_600),
            SqlValue::Integer(2),
            SqlValue::Integer(4),
            SqlValue::Decimal(123),
            SqlValue::Decimal(456),
            s("bob.near"),
            s("FAILURE"),
        ]
    );
    assert_eq!(
        ExecutionOutcome::get_query(1),
        Ok("INSERT IGNORE INTO execution_outcomes VALUES (?, ?, ?, ?, ?, ?, ?, ?, ?)".to_string())
    );
    assert_eq!(ExecutionOutcome::field_count(), 9);
}

#[test]
fn a_shard_id_is_cut_to_the_width_of_its_column() {
    let view = ExecutionOutcomeWithIdView {
        id: hash(30),
        block_hash: hash(1),
        receipt_ids: Vec::new(),
        gas_burnt: 0,
        tokens_burnt: 0,
        executor_id: "bob.near".to_string(),
        status: ExecutionStatusView::Unknown,
    };
    let outcome = ExecutionOutcome::from_execution_outcome(&view, 0, 0, (1u64 << 32) + 5);
    assert_eq!(outcome.chunk_index_in_block, 5);
    let outcome = ExecutionOutcome::from_execution_outcome(&view, 0, 0, u64::MAX);
    assert_eq!(outcome.chunk_index_in_block, -1);
}

#[test]
fn the_row_of_a_produced_receipt() {
    let produced =
        ExecutionOutcomeReceipt::from_produced_receipt(&hash(1), 1_600, &hash(30), &hash(50), 2, 7);
    let mut args = SqlArguments::new();
    produced.add_to_args(&mut args);
    assert_eq!(
        args.values,
        vec![
            text(1),
            SqlValue::Decimal(1_600),
            text(30),
            text(50),
            SqlValue::Integer(2),
            SqlValue::Integer(7),
        ]
    );
    assert_eq!(
        ExecutionOutcomeReceipt::get_query(1),
        Ok("INSERT IGNORE INTO execution_outcomes__receipts VALUES (?, ?, ?, ?, ?, ?)"
            .to_string())
    );
}

#[test]
fn the_row_of_a_data_receipt() {
    let record = DataReceipt::try_from_data_receipt_view(
        &data_receipt(),
        &hash(1),
        "the-transaction",
        &header(),
        6,
        1_600,
    )
    .unwrap();
    assert_eq!(
        bound(&record),
        vec![
            text(31),
            text(1),
            text(20),
            SqlValue::Decimal(1_600),
            SqlValue::Integer(3),
            SqlValue::Integer(6),
            s("alice.near"),
            s("bob.near"),
            s("the-transaction"),
            text(32),
            SqlValue::Bytes(vec![1, 2, 3]),
        ]
    );
    assert_eq!(
        DataReceipt::get_query(1),
        Ok("INSERT IGNORE INTO data_receipts VALUES (?, ?, ?, ?, ?, ?, ?, ?, ?, ?, ?)".to_string())
    );
    assert_eq!(DataReceipt::name(), "data_receipts");
    assert_eq!(DataReceipt::field_count(), 11);
}

#[test]
fn a_data_receipt_without_data_binds_null() {
    let mut view = data_receipt();
    view.receipt = ReceiptEnumView::Data { data_id: hash(32), data: None };
    let record =
        DataReceipt::try_from_data_receipt_view(&view, &hash(1), "tx", &header(), 0, 0).unwrap();
    assert_eq!(bound(&record)[10], SqlValue::Null);
}

#[test]
fn an_action_receipt_is_no_data_receipt() {
    assert_eq!(
        DataReceipt::try_from_data_receipt_view(&action_receipt(), &hash(1), "tx", &header(), 0, 0),
        Err(IndexerError::BadInput)
    );
}

#[test]
fn the_row_of_an_action_receipt() {
    let record = ActionReceipt::try_from_action_receipt_view(
        &action_receipt(),
        &hash(1),
        "the-transaction",
        &header(),
        2,
        1_600,
    )
    .unwrap();
    assert_eq!(
        bound(&record),
        vec![
            text(30),
            text(1),
            text(20),
            SqlValue::Decimal(1_600),
            SqlValue::Integer(3),
            SqlValue::Integer(2),
            s("alice.near"),
            s("bob.near"),
            s("the-transaction"),
            s("alice.near"),
            s("ed25519:signer"),
            SqlValue::Decimal(100_000_000),
        ]
    );
    assert_eq!(
        ActionReceipt::get_query(1),
        Ok("INSERT IGNORE INTO action_receipts VALUES (?, ?, ?, ?, ?, ?, ?, ?, ?, ?, ?, ?)"
            .to_string())
    );
    assert_eq!(ActionReceipt::name(), "action_receipts");
}

#[test]
fn a_data_receipt_is_no_action_receipt() {
    assert_eq!(
        ActionReceipt::try_from_action_receipt_view(
            &data_receipt(),
            &hash(1),
            "tx",
            &header(),
            0,
            0
        ),
        Err(IndexerError::BadInput)
    );
}

#[test]
fn the_row_of_an_action() {
    let action = ActionWithArgs {
        action: ActionView::Transfer,
        args: "{\"deposit\":\"1\"}".to_string(),
    };
    let record = ActionReceiptAction::from_action_view(
        "the-receipt".to_string(),
        &action,
        "alice.near".to_string(),
        "bob.near".to_string(),
        &hash(1),
        1_600,
        3,
        4,
    );
    assert_eq!(
        bound(&record),
        vec![
            text(1),
            SqlValue::Decimal(1_600),
            s("the-receipt"),
            s("TRANSFER"),
            s("{\"deposit\":\"1\"}"),
            s("alice.near"),
            s("bob.near"),
            SqlValue::Integer(3),
            SqlValue::Integer(4),
        ]
    );
    assert_eq!(
        ActionReceiptAction::get_query(1),
        Ok("INSERT IGNORE INTO action_receipts__actions VALUES (?, ?, ?, ?, ?, ?, ?, ?, ?)"
            .to_string())
    );
    assert_eq!(ActionReceiptAction::name(), "action_receipts__actions");
}

#[test]
fn the_rows_of_inputs_and_outputs() {
    let input =
        ActionReceiptsInput::from_data_id("the-receipt".to_string(), &hash(60), &hash(1), 9, 3, 0);
    assert_eq!(
        bound(&input),
        vec![
            text(1),
            SqlValue::Decimal(9),
            s("the-receipt"),
            text(60),
            SqlValue::Integer(3),
            SqlValue::Integer(0),
        ]
    );
    assert_eq!(ActionReceiptsInput::name(), "action_receipts__inputs");
    let receiver = DataReceiverView { data_id: hash(61), receiver_id: "carol.near".to_string() };
    let output = ActionReceiptsOutput::from_data_receiver(
        "the-receipt".to_string(),
        &receiver,
        &hash(1),
        9,
        3,
        1,
    );
    assert_eq!(
        bound(&output),
        vec![
            text(1),
            SqlValue::Decimal(9),
            s("the-receipt"),
            text(61),
            s("carol.near"),
            SqlValue::Integer(3),
            SqlValue::Integer(1),
        ]
    );
    assert_eq!(
        ActionReceiptsOutput::get_query(1),
        Ok("INSERT IGNORE INTO action_receipts__outputs VALUES (?, ?, ?, ?, ?, ?, ?)".to_string())
    );
    assert_eq!(ActionReceiptsOutput::name(), "action_receipts__outputs");
}

#[test]
fn the_row_of_an_account_change() {
    let change = StateChangeWithCauseView {
        cause: StateChangeCauseView::ReceiptProcessing { receipt_hash: hash(30) },
        account_id: "bob.near".to_string(),
    };
    let record =
        AccountChange::from_state_change_with_cause(&change, &hash(1), 1_600, 12).unwrap();
    let mut args = SqlArguments::new();
    record.add_to_args(&mut args);
    assert_eq!(
        args.values,
        vec![
            text(1),
            SqlValue::Decimal(1_600),
            SqlValue::Integer(12),
            s("bob.near"),
            s("RECEIPT_PROCESSING"),
            text(30),
        ]
    );
    assert_eq!(
        AccountChange::get_query(1),
        Ok("INSERT IGNORE INTO account_changes VALUES (?, ?, ?, ?, ?, ?)".to_string())
    );
}

#[test]
fn a_cause_without_a_hash_binds_null() {
    let change = StateChangeWithCauseView {
        cause: StateChangeCauseView::ValidatorAccountsUpdate,
        account_id: "bob.near".to_string(),
    };
    let record = AccountChange::from_state_change_with_cause(&change, &hash(1), 0, 0).unwrap();
    assert_eq!(record.cause_kind, "VALIDATOR_ACCOUNTS_UPDATE");
    assert_eq!(record.cause_payload, None);
}

#[test]
fn an_account_change_of_no_live_stream_is_a_schema_violation() {
    let change = StateChangeWithCauseView {
        cause: StateChangeCauseView::InitialState,
        account_id: "bob.near".to_string(),
    };
    assert_eq!(
        AccountChange::from_state_change_with_cause(&change, &hash(1), 0, 0),
        Err(IndexerError::SchemaViolation)
    );
}

#[test]
fn an_account_and_its_statements() {
    let account = Account::new_from_receipt("bob.near", &hash(30), 100);
    assert_eq!(
        account,
        Account {
            account_id: "bob.near".to_string(),
            created_at_block_height: 100,
            deleted_at_block_height: None,
            created_by_receipt_id: Some(hash(30).to_text()),
            deleted_by_receipt_id: None,
        }
    );
    assert_eq!(
        bound(&account),
        vec![s("bob.near"), SqlValue::Decimal(100), SqlValue::Null, text(30), SqlValue::Null]
    );
    assert_eq!(
        Account::get_query(1),
        Ok("INSERT IGNORE INTO accounts VALUES (?, ?, ?, ?, ?)".to_string())
    );
    let deleted = account.with_deletion(&hash(31), 101);
    assert_eq!(deleted.deleted_at_block_height, Some(101));
    assert_eq!(deleted.deleted_by_receipt_id, Some(hash(31).to_text()));
    assert_eq!(deleted.created_by_receipt_id, Some(hash(30).to_text()));
    let statement = Account::new_deleted("bob.near", &hash(31), 101).deletion_statement();
    assert_eq!(
        statement.query,
        "UPDATE accounts SET deleted_at_block_height = ?, deleted_by_receipt_id = ? WHERE account_id = ? AND deleted_by_receipt_id IS NULL"
    );
    assert_eq!(statement.args.values, vec![SqlValue::Decimal(101), text(31), s("bob.near")]);
    assert_eq!(account.duplicate(), account);
}

#[test]
fn an_access_key_and_its_statements() {
    let key = AccessKey::from_action_view(
        "ed25519:key",
        "bob.near",
        &AccessKeyPermissionView::FunctionCall,
        &hash(30),
        100,
    );
    assert_eq!(
        key,
        AccessKey {
            public_key: "ed25519:key".to_string(),
            account_id: "bob.near".to_string(),
            created_by_receipt_id: Some(hash(30).to_text()),
            deleted_by_receipt_id: None,
            permission_kind: "FUNCTION_CALL".to_string(),
            last_update_block_height: 100,
        }
    );
    assert_eq!(
        bound(&key),
        vec![
            s("ed25519:key"),
            s("bob.near"),
            text(30),
            SqlValue::Null,
            s("FUNCTION_CALL"),
            SqlValue::Decimal(100),
        ]
    );
    assert_eq!(
        AccessKey::get_query(1),
        Ok("INSERT IGNORE INTO access_keys VALUES (?, ?, ?, ?, ?, ?)".to_string())
    );
    let refresh = key.refresh_statement();
    assert_eq!(
        refresh.query,
        "UPDATE access_keys SET created_by_receipt_id = ?, deleted_by_receipt_id = ?, last_update_block_height = ? WHERE public_key = ? AND last_update_block_height < ? AND account_id = ?"
    );
    assert_eq!(
        refresh.args.values,
        vec![
            text(30),
            SqlValue::Null,
            SqlValue::Decimal(100),
            s("ed25519:key"),
            SqlValue::Decimal(100),
            s("bob.near"),
        ]
    );
    let deleted = AccessKey::new_deleted("ed25519:key", "bob.near", &hash(31), 101);
    assert_eq!(deleted.permission_kind, "FULL_ACCESS");
    assert_eq!(deleted.created_by_receipt_id, None);
    let deletion = deleted.deletion_statement();
    assert_eq!(
        deletion.query,
        "UPDATE access_keys SET deleted_by_receipt_id = ?, last_update_block_height = ? WHERE public_key = ? AND last_update_block_height < ? AND account_id = ?"
    );
    assert_eq!(
        deletion.args.values,
        vec![
            text(31),
            SqlValue::Decimal(101),
            s("ed25519:key"),
            SqlValue::Decimal(101),
            s("bob.near"),
        ]
    );
    assert_eq!(key.with_deletion(&hash(31)).deleted_by_receipt_id, Some(hash(31).to_text()));
    assert_eq!(key.duplicate(), key);
}
