use lake_indexer::errors::IndexerError;
use lake_indexer::models::chunks::Chunk;
use lake_indexer::models::{
    create_placeholder, create_query_with_placeholders, FieldCount, MySqlMethods, SqlArguments,
    SqlValue,
};
use lake_indexer::writer::{
    chunked_insert, Retry, RetryPolicy, WriteAction, WriteEvent, CHUNK_SIZE_FOR_BATCH_INSERT,
};

fn chunk(n: u64) -> Chunk {
    Chunk {
        included_in_block_hash: format!("block-{}", n),
        chunk_hash: format!("chunk-{}", n),
        shard_id: n,
        signature: format!("sig-{}", n),
        gas_limit: 1000 + n,
        gas_used: 10 + n,
        author_account_id: format!("author-{}.near", n),
    }
}

fn row(n: u64) -> Vec<SqlValue> {
    vec![
        SqlValue::Text(format!("block-{}", n)),
        SqlValue::Text(format!("chunk-{}", n)),
        SqlValue::Decimal(n as u128),
        SqlValue::Text(format!("sig-{}", n)),
        SqlValue::Decimal(1000 + n as u128),
        SqlValue::Decimal(10 + n as u128),
        SqlValue::Text(format!("author-{}.near", n)),
    ]
}

#[test]
fn placeholder_for_three_fields() {
    assert_eq!(create_placeholder(3), Ok("(?, ?, ?)".to_string()));
}

#[test]
fn placeholder_for_one_field() {
    assert_eq!(create_placeholder(1), Ok("(?)".to_string()));
}

#[test]
fn placeholder_without_fields_is_bad_input() {
    assert_eq!(create_placeholder(0), Err(IndexerError::BadInput));
}

#[test]
fn query_for_two_rows_of_three_fields() {
    assert_eq!(
        create_query_with_placeholders("INSERT IGNORE INTO t VALUES", 2, 3),
        Ok("INSERT IGNORE INTO t VALUES (?, ?, ?), (?, ?, ?)".to_string())
    );
}

#[test]
fn query_for_one_row_of_one_field() {
    assert_eq!(
        create_query_with_placeholders("INSERT IGNORE INTO t VALUES", 1, 1),
        Ok("INSERT IGNORE INTO t VALUES (?)".to_string())
    );
}

#[test]
fn query_without_rows_is_bad_input() {
    assert_eq!(
        create_query_with_placeholders("INSERT IGNORE INTO t VALUES", 0, 3),
        Err(IndexerError::BadInput)
    );
}

#[test]
fn query_without_fields_is_bad_input() {
    assert_eq!(
        create_query_with_placeholders("INSERT IGNORE INTO t VALUES", 3, 0),
        Err(IndexerError::BadInput)
    );
}

#[test]
fn the_default_batch_holds_five_hundred_rows() {
    assert_eq!(CHUNK_SIZE_FOR_BATCH_INSERT, 500);
}

#[test]
fn five_records_in_batches_of_two_give_three_statements() {
    let items: Vec<Chunk> = (0..5).map(chunk).collect();
    let statements = chunked_insert(&items, 2).unwrap();
    assert_eq!(statements.len(), 3);
    assert_eq!(
        statements[0].query,
        "INSERT IGNORE INTO chunks VALUES (?, ?, ?, ?, ?, ?, ?), (?, ?, ?, ?, ?, ?, ?)"
    );
    assert_eq!(statements[1].query, statements[0].query);
    assert_eq!(statements[2].query, "INSERT IGNORE INTO chunks VALUES (?, ?, ?, ?, ?, ?, ?)");
    let mut first = row(0);
    first.extend(row(1));
    let mut second = row(2);
    second.extend(row(3));
    assert_eq!(statements[0].args.values, first);
    assert_eq!(statements[1].args.values, second);
    assert_eq!(statements[2].args.values, row(4));
}

#[test]
fn every_statement_binds_rows_times_fields_parameters() {
    let items: Vec<Chunk> = (0..1201).map(chunk).collect();
    let statements = chunked_insert(&items, CHUNK_SIZE_FOR_BATCH_INSERT).unwrap();
    let sizes: Vec<usize> = statements.iter().map(|s| s.args.len()).collect();
    assert_eq!(sizes, vec![500 * 7, 500 * 7, 201 * 7]);
    let marks: Vec<usize> = statements.iter().map(|s| s.query.matches('?').count()).collect();
    assert_eq!(marks, sizes);
}

#[test]
fn a_full_batch_is_one_statement() {
    let items: Vec<Chunk> = (0..4).map(chunk).collect();
    let statements = chunked_insert(&items, 4).unwrap();
    assert_eq!(statements.len(), 1);
    assert_eq!(statements[0].args.len(), 28);
}

#[test]
fn an_empty_run_is_bad_input() {
    let items: Vec<Chunk> = Vec::new();
    assert_eq!(chunked_insert(&items, 500), Err(IndexerError::BadInput));
}

#[test]
fn a_chunk_size_of_zero_is_bad_input() {
    let items: Vec<Chunk> = vec![chunk(1)];
    assert_eq!(chunked_insert(&items, 0), Err(IndexerError::BadInput));
}

#[test]
fn arguments_keep_the_order_in_which_they_were_bound() {
    let mut args = SqlArguments::new();
    args.add_text(&"a".to_string());
    args.add_integer(-3);
    args.add_decimal(u128::MAX);
    args.add_optional_text(&None);
    args.add_optional_text(&Some("b".to_string()));
    args.add_optional_bytes(&Some(vec![1, 2, 3]));
    args.add_optional_bytes(&None);
    args.add_optional_decimal(Some(7));
    args.add_optional_decimal(None);
    assert_eq!(args.len(), 9);
    assert_eq!(
        args.values,
        vec![
            SqlValue::Text("a".to_string()),
            SqlValue::Integer(-3),
            SqlValue::Decimal(u128::MAX),
            SqlValue::Null,
            SqlValue::Text("b".to_string()),
            SqlValue::Bytes(vec![1, 2, 3]),
            SqlValue::Null,
            SqlValue::Decimal(7),
            SqlValue::Null,
        ]
    );
}

#[test]
fn the_trait_gives_what_the_record_gives() {
    let record = chunk(3);
    let mut by_trait = SqlArguments::new();
    MySqlMethods::add_to_args(&record, &mut by_trait);
    assert_eq!(by_trait.values, row(3));
    assert_eq!(<Chunk as MySqlMethods>::get_query(1), Chunk::get_query(1));
    assert_eq!(<Chunk as MySqlMethods>::name(), "chunks");
    assert_eq!(<Chunk as FieldCount>::field_count(), 7);
}

#[test]
fn waits_double_until_they_pass_the_maximum() {
    let policy = RetryPolicy { retry_count: 4, base_delay_ms: 100, max_delay_ms: 350 };
    let mut retry = Retry::new(&policy);
    assert_eq!(retry.step(&policy, WriteEvent::Ready), WriteAction::Execute);
    assert_eq!(retry.step(&policy, WriteEvent::Failed), WriteAction::Sleep(100));
    assert_eq!(retry.step(&policy, WriteEvent::Ready), WriteAction::Execute);
    assert_eq!(retry.step(&policy, WriteEvent::Failed), WriteAction::Sleep(200));
    assert_eq!(retry.step(&policy, WriteEvent::Ready), WriteAction::Execute);
    assert_eq!(retry.step(&policy, WriteEvent::Failed), WriteAction::Sleep(400));
    assert_eq!(retry.step(&policy, WriteEvent::Ready), WriteAction::Execute);
    assert_eq!(retry.step(&policy, WriteEvent::Failed), WriteAction::Sleep(400));
    assert_eq!(
        retry.step(&policy, WriteEvent::Ready),
        WriteAction::GiveUp(IndexerError::Transient)
    );
    assert_eq!(retry.attempts, 4);
    assert_eq!(retry.failures, 4);
}

#[test]
fn a_base_delay_at_the_maximum_never_grows() {
    let policy = RetryPolicy { retry_count: 10, base_delay_ms: 100, max_delay_ms: 100 };
    let mut retry = Retry::new(&policy);
    for _ in 0..3 {
        assert_eq!(retry.step(&policy, WriteEvent::Ready), WriteAction::Execute);
        assert_eq!(retry.step(&policy, WriteEvent::Failed), WriteAction::Sleep(100));
    }
}

#[test]
fn no_budget_means_no_try() {
    let policy = RetryPolicy { retry_count: 0, base_delay_ms: 100, max_delay_ms: 1000 };
    let mut retry = Retry::new(&policy);
    assert_eq!(
        retry.step(&policy, WriteEvent::Ready),
        WriteAction::GiveUp(IndexerError::Transient)
    );
}

#[test]
fn a_statement_that_went_through_is_done() {
    let policy = RetryPolicy { retry_count: 10, base_delay_ms: 100, max_delay_ms: 1000 };
    let mut retry = Retry::new(&policy);
    assert_eq!(retry.step(&policy, WriteEvent::Ready), WriteAction::Execute);
    assert_eq!(retry.step(&policy, WriteEvent::Succeeded), WriteAction::Done);
    assert_eq!(retry.attempts, 1);
    assert_eq!(retry.failures, 0);
}
