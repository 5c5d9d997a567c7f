use lake_indexer::cache::ReceiptsCache;
use lake_indexer::db_adapters::execution_outcomes::store_execution_outcomes_for_chunk;
use lake_indexer::db_adapters::receipts::{
    seed_output_data, store_chunk_receipts, store_data_receipts, store_receipt_actions,
};
use lake_indexer::db_adapters::transactions::store_chunk_transactions;
use lake_indexer::errors::IndexerError;
use lake_indexer::hashes::{CryptoHash, ReceiptOrDataId};
use lake_indexer::lineage::{
    absorb, collect_open_ids, find_tx_hashes_in_cache, next_step, probe_statement,
    rerun_statement, settle_residual, LineageMap, LineageStep, Probe, Residual,
};
use lake_indexer::models::SqlValue;
use lake_indexer::views::{
    ActionView, ActionWithArgs, ChunkHeaderView, DataReceiverView, ExecutionOutcomeWithIdView,
    ExecutionStatusView, IndexerExecutionOutcomeWithReceipt, IndexerTransactionWithOutcome,
    ReceiptEnumView, ReceiptView, SignedTransactionView,
};

fn hash(n: u8) -> CryptoHash {
    CryptoHash { bytes: [n; 32] }
}

fn text(n: u8) -> String {
    hash(n).to_text()
}

fn header() -> ChunkHeaderView {
    ChunkHeaderView {
        chunk_hash: hash(20),
        shard_id: 3,
        signature: "ed25519:chunk-signature".to_string(),
        gas_limit: 1_000,
        gas_used: 10,
    }
}

fn action_receipt(id: u8, outputs: Vec<u8>, inputs: Vec<u8>, actions: Vec<ActionView>) -> ReceiptView {
    ReceiptView {
        predecessor_id: "alice.near".to_string(),
        receiver_id: "bob.near".to_string(),
        receipt_id: hash(id),
        receipt: ReceiptEnumView::Action {
            signer_id: "alice.near".to_string(),
            signer_public_key: "ed25519:alice".to_string(),
            gas_price: 1,
            output_data_receivers: outputs
                .into_iter()
                .map(|n| DataReceiverView { data_id: hash(n), receiver_id: "carol.near".to_string() })
                .collect(),
            input_data_ids: inputs.into_iter().map(hash).collect(),
            actions: actions
                .into_iter()
                .map(|action| ActionWithArgs { action, args: "{}".to_string() })
                .collect(),
        },
    }
}

fn data_receipt(id: u8, data_id: u8) -> ReceiptView {
    ReceiptView {
        predecessor_id: "alice.near".to_string(),
        receiver_id: "carol.near".to_string(),
        receipt_id: hash(id),
        receipt: ReceiptEnumView::Data { data_id: hash(data_id), data: None },
    }
}

fn transaction(id: u8, receipt_id: u8) -> IndexerTransactionWithOutcome {
    IndexerTransactionWithOutcome {
        transaction: SignedTransactionView {
            hash: hash(id),
            signer_id: "alice.near".to_string(),
            public_key: "ed25519:alice".to_string(),
            nonce: 1,
            receiver_id: "bob.near".to_string(),
            signature: "ed25519:tx-signature".to_string(),
        },
        outcome: ExecutionOutcomeWithIdView {
            id: hash(id),
            block_hash: hash(1),
            receipt_ids: vec![hash(receipt_id)],
            gas_burnt: 1,
            tokens_burnt: 2,
            executor_id: "alice.near".to_string(),
            status: ExecutionStatusView::SuccessReceiptId,
        },
    }
}

fn resolved(entries: Vec<(ReceiptOrDataId, &str)>) -> LineageMap {
    let mut map = LineageMap::new();
    for (id, tx) in entries {
        map.note(id, tx.to_string());
    }
    map
}

#[test]
fn a_receipt_of_the_same_block_finds_its_transaction_without_the_database() {
    let mut cache = ReceiptsCache::with_size(100).unwrap();
    let rows = store_chunk_transactions(
        &vec![transaction(40, 30)],
        &hash(1),
        1_600,
        &header(),
        "",
        &mut cache,
    )
    .unwrap();
    assert_eq!(rows.len(), 1);
    let receipts = vec![action_receipt(30, Vec::new(), Vec::new(), vec![ActionView::Transfer])];
    let map = find_tx_hashes_in_cache(&receipts, &mut cache);
    assert_eq!(map.get(&ReceiptOrDataId::ReceiptId(hash(30))), Some(text(40)));
    assert_eq!(next_step(&receipts, &map, None), LineageStep::Resolved);
    assert_eq!(settle_residual(&receipts, &map, true, 100), Ok(Residual::Complete));
    let stored = store_chunk_receipts(&receipts, &map, &hash(1), &header(), 1_600, &mut cache);
    assert_eq!(stored.receipt_actions.action_receipts.len(), 1);
    assert_eq!(
        stored.receipt_actions.action_receipts[0].originated_from_transaction_hash,
        text(40)
    );
}

#[test]
fn a_receipt_of_a_later_block_finds_what_the_outcome_before_it_filed() {
    let mut cache = ReceiptsCache::with_size(100).unwrap();
    cache.cache_set(ReceiptOrDataId::ReceiptId(hash(30)), text(40));
    let outcomes = vec![IndexerExecutionOutcomeWithReceipt {
        execution_outcome: ExecutionOutcomeWithIdView {
            id: hash(30),
            block_hash: hash(1),
            receipt_ids: vec![hash(31)],
            gas_burnt: 1,
            tokens_burnt: 2,
            executor_id: "bob.near".to_string(),
            status: ExecutionStatusView::SuccessReceiptId,
        },
        receipt: action_receipt(30, Vec::new(), Vec::new(), Vec::new()),
    }];
    store_execution_outcomes_for_chunk(&outcomes, 0, &hash(1), 1_600, &mut cache);
    let receipts = vec![action_receipt(31, Vec::new(), Vec::new(), Vec::new())];
    let map = find_tx_hashes_in_cache(&receipts, &mut cache);
    assert_eq!(map.get(&ReceiptOrDataId::ReceiptId(hash(31))), Some(text(40)));
    assert_eq!(next_step(&receipts, &map, None), LineageStep::Resolved);
}

#[test]
fn an_evicted_receipt_falls_back_to_the_database_and_still_resolves() {
    let mut cache = ReceiptsCache::with_size(2).unwrap();
    cache.cache_set(ReceiptOrDataId::ReceiptId(hash(30)), "tx-a".to_string());
    cache.cache_set(ReceiptOrDataId::ReceiptId(hash(31)), "tx-b".to_string());
    cache.cache_set(ReceiptOrDataId::ReceiptId(hash(32)), "tx-c".to_string());
    let receipts = vec![action_receipt(30, Vec::new(), Vec::new(), Vec::new())];
    let mut map = find_tx_hashes_in_cache(&receipts, &mut cache);
    assert_eq!(map.len(), 0);
    assert_eq!(
        next_step(&receipts, &map, None),
        LineageStep::Ask(Probe::OutcomeReceipt, vec![text(30)])
    );
    assert_eq!(absorb(&mut map, Probe::OutcomeReceipt, &Vec::new()), Ok(()));
    assert_eq!(
        next_step(&receipts, &map, Some(Probe::OutcomeReceipt)),
        LineageStep::Ask(Probe::Transaction, vec![text(30)])
    );
    assert_eq!(
        absorb(&mut map, Probe::Transaction, &vec![(text(30), "tx-a".to_string())]),
        Ok(())
    );
    assert_eq!(next_step(&receipts, &map, Some(Probe::Transaction)), LineageStep::Resolved);
    assert_eq!(map.get(&ReceiptOrDataId::ReceiptId(hash(30))), Some("tx-a".to_string()));
}

#[test]
fn a_data_receipt_takes_its_entry_out_of_the_cache() {
    let mut cache = ReceiptsCache::with_size(10).unwrap();
    cache.cache_set(ReceiptOrDataId::DataId(hash(60)), "tx-a".to_string());
    cache.cache_set(ReceiptOrDataId::ReceiptId(hash(30)), "tx-b".to_string());
    let receipts = vec![
        data_receipt(33, 60),
        action_receipt(30, Vec::new(), Vec::new(), Vec::new()),
        data_receipt(34, 60),
    ];
    let map = find_tx_hashes_in_cache(&receipts, &mut cache);
    assert_eq!(map.len(), 2);
    assert_eq!(map.get(&ReceiptOrDataId::DataId(hash(60))), Some("tx-a".to_string()));
    assert_eq!(map.get(&ReceiptOrDataId::ReceiptId(hash(30))), Some("tx-b".to_string()));
    assert_eq!(map.get(&ReceiptOrDataId::ReceiptId(hash(33))), None);
    assert_eq!(cache.cache_get(&ReceiptOrDataId::DataId(hash(60))), None);
    assert_eq!(cache.cache_get(&ReceiptOrDataId::ReceiptId(hash(30))), Some("tx-b".to_string()));
    assert_eq!(next_step(&receipts, &map, None), LineageStep::Resolved);
}

#[test]
fn the_three_questions_come_in_their_order() {
    let receipts = vec![
        data_receipt(33, 60),
        action_receipt(30, Vec::new(), Vec::new(), Vec::new()),
        action_receipt(31, Vec::new(), Vec::new(), Vec::new()),
    ];
    let mut map = LineageMap::new();
    assert_eq!(collect_open_ids(&receipts, &map, true), vec![text(60)]);
    assert_eq!(collect_open_ids(&receipts, &map, false), vec![text(30), text(31)]);
    assert_eq!(
        next_step(&receipts, &map, None),
        LineageStep::Ask(Probe::DataOutput, vec![text(60)])
    );
    assert_eq!(
        absorb(&mut map, Probe::DataOutput, &vec![(text(60), "tx-d".to_string())]),
        Ok(())
    );
    assert_eq!(map.get(&ReceiptOrDataId::DataId(hash(60))), Some("tx-d".to_string()));
    assert_eq!(
        next_step(&receipts, &map, Some(Probe::DataOutput)),
        LineageStep::Ask(Probe::OutcomeReceipt, vec![text(30), text(31)])
    );
    assert_eq!(
        absorb(&mut map, Probe::OutcomeReceipt, &vec![(text(31), "tx-b".to_string())]),
        Ok(())
    );
    assert_eq!(
        next_step(&receipts, &map, Some(Probe::OutcomeReceipt)),
        LineageStep::Ask(Probe::Transaction, vec![text(30)])
    );
    assert_eq!(absorb(&mut map, Probe::Transaction, &Vec::new()), Ok(()));
    assert_eq!(next_step(&receipts, &map, Some(Probe::Transaction)), LineageStep::Unresolved);
}

#[test]
fn only_data_receipts_left_after_their_question_are_unresolved() {
    let receipts = vec![data_receipt(33, 60)];
    let map = LineageMap::new();
    assert_eq!(next_step(&receipts, &map, Some(Probe::DataOutput)), LineageStep::Unresolved);
}

#[test]
fn no_receipts_are_resolved_at_once() {
    let receipts: Vec<ReceiptView> = Vec::new();
    let map = LineageMap::new();
    assert_eq!(next_step(&receipts, &map, None), LineageStep::Resolved);
    assert_eq!(settle_residual(&receipts, &map, true, 7), Ok(Residual::Complete));
}

#[test]
fn the_first_answer_for_an_id_stays() {
    let mut map = LineageMap::new();
    assert_eq!(
        absorb(&mut map, Probe::OutcomeReceipt, &vec![(text(30), "first".to_string())]),
        Ok(())
    );
    assert_eq!(
        absorb(
            &mut map,
            Probe::Transaction,
            &vec![(text(30), "second".to_string()), (text(31), "third".to_string())]
        ),
        Ok(())
    );
    assert_eq!(map.len(), 2);
    assert_eq!(map.get(&ReceiptOrDataId::ReceiptId(hash(30))), Some("first".to_string()));
    assert_eq!(map.get(&ReceiptOrDataId::ReceiptId(hash(31))), Some("third".to_string()));
    assert!(map.contains_key(&ReceiptOrDataId::ReceiptId(hash(31))));
    assert!(!map.contains_key(&ReceiptOrDataId::DataId(hash(31))));
}

#[test]
fn an_answer_with_a_broken_id_notes_nothing() {
    let mut map = LineageMap::new();
    assert_eq!(
        absorb(
            &mut map,
            Probe::Transaction,
            &vec![(text(30), "first".to_string()), ("no hash".to_string(), "second".to_string())]
        ),
        Err(IndexerError::Upstream)
    );
    assert_eq!(map.len(), 0);
}

#[test]
fn the_statements_of_the_questions() {
    let ids = vec![text(30), text(31)];
    let data = probe_statement(Probe::DataOutput, &ids).unwrap();
    assert_eq!(
        data.query,
        "SELECT output_data_id, originated_from_transaction_hash FROM action_receipt_output_data JOIN receipts ON output_from_receipt_id = receipt_id WHERE output_data_id IN (?, ?)"
    );
    assert_eq!(data.args.values, vec![SqlValue::Text(text(30)), SqlValue::Text(text(31))]);
    let outcomes = probe_statement(Probe::OutcomeReceipt, &ids).unwrap();
    assert_eq!(
        outcomes.query,
        "SELECT produced_receipt_id, originated_from_transaction_hash FROM execution_outcome_receipts JOIN receipts ON executed_receipt_id = receipt_id WHERE produced_receipt_id IN (?, ?)"
    );
    let transactions = probe_statement(Probe::Transaction, &vec![text(30)]).unwrap();
    assert_eq!(
        transactions.query,
        "SELECT converted_into_receipt_id, transaction_hash FROM transactions WHERE converted_into_receipt_id IN (?)"
    );
    assert_eq!(transactions.args.values, vec![SqlValue::Text(text(30))]);
    assert_eq!(probe_statement(Probe::Transaction, &Vec::new()), Err(IndexerError::BadInput));
}

#[test]
fn in_strict_mode_an_unresolved_receipt_is_an_error() {
    let receipts = vec![action_receipt(30, Vec::new(), Vec::new(), Vec::new())];
    let map = LineageMap::new();
    assert_eq!(settle_residual(&receipts, &map, true, 100), Err(IndexerError::UnresolvedLineage));
}

#[test]
fn in_non_strict_mode_an_unresolved_receipt_gives_no_row_and_one_rerun() {
    let mut cache = ReceiptsCache::with_size(10).unwrap();
    let receipts = vec![
        action_receipt(30, vec![60], vec![61], vec![ActionView::Transfer]),
        action_receipt(31, vec![62], Vec::new(), vec![ActionView::Stake]),
        data_receipt(33, 63),
    ];
    let mut map = find_tx_hashes_in_cache(&receipts, &mut cache);
    assert_eq!(
        next_step(&receipts, &map, None),
        LineageStep::Ask(Probe::DataOutput, vec![text(63)])
    );
    assert_eq!(absorb(&mut map, Probe::DataOutput, &Vec::new()), Ok(()));
    assert_eq!(absorb(&mut map, Probe::OutcomeReceipt, &Vec::new()), Ok(()));
    assert_eq!(
        absorb(&mut map, Probe::Transaction, &vec![(text(31), "tx-b".to_string())]),
        Ok(())
    );
    assert_eq!(next_step(&receipts, &map, Some(Probe::Transaction)), LineageStep::Unresolved);
    assert_eq!(settle_residual(&receipts, &map, false, 100), Ok(Residual::Rerun(100)));
    let statement = rerun_statement(100);
    assert_eq!(statement.query, "INSERT IGNORE INTO _blocks_to_rerun VALUES (?)");
    assert_eq!(statement.args.values, vec![SqlValue::Decimal(100)]);
    let stored = store_chunk_receipts(&receipts, &map, &hash(1), &header(), 1_600, &mut cache);
    assert_eq!(stored.data_receipts, Vec::new());
    assert_eq!(stored.receipt_actions.action_receipts.len(), 1);
    assert_eq!(stored.receipt_actions.action_receipts[0].receipt_id, text(31));
    assert_eq!(stored.receipt_actions.action_receipts[0].receipt_index_in_chunk, 1);
    assert_eq!(stored.receipt_actions.action_receipt_actions.len(), 1);
    assert_eq!(stored.receipt_actions.action_receipt_actions[0].action_kind, "STAKE");
    assert_eq!(stored.receipt_actions.action_receipts_input_data, Vec::new());
    assert_eq!(stored.receipt_actions.action_receipts_output_data.len(), 1);
    assert_eq!(cache.cache_get(&ReceiptOrDataId::DataId(hash(60))), None);
    assert_eq!(cache.cache_get(&ReceiptOrDataId::DataId(hash(62))), Some("tx-b".to_string()));
}

#[test]
fn the_rows_of_the_receipts_of_a_chunk() {
    let receipts = vec![
        data_receipt(33, 63),
        action_receipt(
            30,
            vec![60, 61],
            vec![64],
            vec![ActionView::CreateAccount, ActionView::Transfer, ActionView::DeployContract],
        ),
        action_receipt(31, Vec::new(), vec![65, 66], vec![ActionView::FunctionCall]),
    ];
    let map = resolved(vec![
        (ReceiptOrDataId::DataId(hash(63)), "tx-d"),
        (ReceiptOrDataId::ReceiptId(hash(30)), "tx-a"),
        (ReceiptOrDataId::ReceiptId(hash(31)), "tx-b"),
    ]);
    let actions = store_receipt_actions(&receipts, &map, &hash(1), &header(), 1_600);
    let found: Vec<(String, i32, String)> = actions
        .action_receipts
        .iter()
        .map(|row| {
            (
                row.receipt_id.clone(),
                row.receipt_index_in_chunk,
                row.originated_from_transaction_hash.clone(),
            )
        })
        .collect();
    assert_eq!(
        found,
        vec![(text(30), 1, "tx-a".to_string()), (text(31), 2, "tx-b".to_string())]
    );
    let kinds: Vec<(String, String, i32, i32)> = actions
        .action_receipt_actions
        .iter()
        .map(|row| {
            (
                row.receipt_id.clone(),
                row.action_kind.clone(),
                row.chunk_index_in_block,
                row.index_in_chunk,
            )
        })
        .collect();
    assert_eq!(
        kinds,
        vec![
            (text(30), "CREATE_ACCOUNT".to_string(), 3, 0),
            (text(30), "TRANSFER".to_string(), 3, 1),
            (text(30), "DEPLOY_CONTRACT".to_string(), 3, 2),
            (text(31), "FUNCTION_CALL".to_string(), 3, 0),
        ]
    );
    let inputs: Vec<(String, String, i32)> = actions
        .action_receipts_input_data
        .iter()
        .map(|row| (row.receipt_id.clone(), row.input_data_id.clone(), row.index_in_chunk))
        .collect();
    assert_eq!(
        inputs,
        vec![(text(30), text(64), 0), (text(31), text(65), 0), (text(31), text(66), 1)]
    );
    let outputs: Vec<(String, String, String, i32)> = actions
        .action_receipts_output_data
        .iter()
        .map(|row| {
            (
                row.receipt_id.clone(),
                row.output_data_id.clone(),
                row.receiver_account_id.clone(),
                row.index_in_chunk,
            )
        })
        .collect();
    assert_eq!(
        outputs,
        vec![
            (text(30), text(60), "carol.near".to_string(), 0),
            (text(30), text(61), "carol.near".to_string(), 1),
        ]
    );
    let data = store_data_receipts(&receipts, &map, &hash(1), &header(), 1_600);
    assert_eq!(data.len(), 1);
    assert_eq!(data[0].receipt_id, text(33));
    assert_eq!(data[0].data_id, text(63));
    assert_eq!(data[0].receipt_index_in_chunk, 0);
    assert_eq!(data[0].originated_from_transaction_hash, "tx-d");
    assert_eq!(data[0].chunk_hash, text(20));
}

#[test]
fn the_outputs_of_a_resolved_receipt_are_filed_for_the_data_receipts_to_come() {
    let mut cache = ReceiptsCache::with_size(10).unwrap();
    let receipts = vec![
        action_receipt(30, vec![60, 61], Vec::new(), Vec::new()),
        action_receipt(31, vec![62], Vec::new(), Vec::new()),
    ];
    let map = resolved(vec![(ReceiptOrDataId::ReceiptId(hash(30)), "tx-a")]);
    seed_output_data(&receipts, &map, &mut cache);
    assert_eq!(cache.cache_get(&ReceiptOrDataId::DataId(hash(60))), Some("tx-a".to_string()));
    assert_eq!(cache.cache_get(&ReceiptOrDataId::DataId(hash(61))), Some("tx-a".to_string()));
    assert_eq!(cache.cache_get(&ReceiptOrDataId::DataId(hash(62))), None);
    let later = vec![data_receipt(35, 61)];
    let found = find_tx_hashes_in_cache(&later, &mut cache);
    assert_eq!(found.get(&ReceiptOrDataId::DataId(hash(61))), Some("tx-a".to_string()));
}
