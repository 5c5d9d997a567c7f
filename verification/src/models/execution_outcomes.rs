//! The `execution_outcomes` table and the table of the receipts they produced.

use crate::enums::is_execution_status_label;
use crate::errors::IndexerError;
use crate::hashes::CryptoHash;
use crate::models::{
    create_query_with_placeholders, query_text, ColumnValue, FieldCount, MySqlMethods, SqlArguments,
};
use crate::views::ExecutionOutcomeWithIdView;
use vstd::prelude::*;
use vstd::string::*;

verus! {

/// The outcome of executing one receipt.
#[derive(Clone, Debug, PartialEq, Eq)]
pub struct ExecutionOutcome {
    pub receipt_id: String,
    pub block_hash: String,
    pub block_timestamp: u64,
    pub chunk_index_in_block: i32,
    pub index_in_chunk: i32,
    pub gas_burnt: u64,
    pub tokens_burnt: u128,
    pub executor_account_id: String,
    /// One of the execution status labels.
    pub status: String,
}

impl View for ExecutionOutcome {
    type V = Seq<ColumnValue>;

    open spec fn view(&self) -> Seq<ColumnValue> {
        seq![
            ColumnValue::Text(self.receipt_id@),
            ColumnValue::Text(self.block_hash@),
            ColumnValue::Decimal(self.block_timestamp as nat),
            ColumnValue::Integer(self.chunk_index_in_block as int),
            ColumnValue::Integer(self.index_in_chunk as int),
            ColumnValue::Decimal(self.gas_burnt as nat),
            ColumnValue::Decimal(self.tokens_burnt as nat),
            ColumnValue::Text(self.executor_account_id@),
            ColumnValue::Text(self.status@),
        ]
    }
}

impl ExecutionOutcome {
    /// The row of an outcome at a place in the chunk of a shard.
    pub open spec fn row_of(
        execution_outcome: ExecutionOutcomeWithIdView,
        index_in_chunk: i32,
        executed_in_block_timestamp: u64,
        shard_id: u64,
    ) -> Seq<ColumnValue> {
        seq![
            ColumnValue::Text(execution_outcome.id.text()),
            ColumnValue::Text(execution_outcome.block_hash.text()),
            ColumnValue::Decimal(executed_in_block_timestamp as nat),
            ColumnValue::Integer((shard_id as i32) as int),
            ColumnValue::Integer(index_in_chunk as int),
            ColumnValue::Decimal(execution_outcome.gas_burnt as nat),
            ColumnValue::Decimal(execution_outcome.tokens_burnt as nat),
            ColumnValue::Text(execution_outcome.executor_id@),
            ColumnValue::Text(execution_outcome.status.label()),
        ]
    }

    /// The record of an outcome. The shard id is cut to the width of the
    /// column that holds it.
    pub fn from_execution_outcome(
        execution_outcome: &ExecutionOutcomeWithIdView,
        index_in_chunk: i32,
        executed_in_block_timestamp: u64,
        shard_id: u64,
    ) -> (outcome: ExecutionOutcome)
        ensures
            outcome@ == ExecutionOutcome::row_of(
                *execution_outcome,
                index_in_chunk,
                executed_in_block_timestamp,
                shard_id,
            ),
            is_execution_status_label(outcome.status@),
    {
        ExecutionOutcome {
            receipt_id: execution_outcome.id.to_text(),
            block_hash: execution_outcome.block_hash.to_text(),
            block_timestamp: executed_in_block_timestamp,
            chunk_index_in_block: #[verifier::truncate] (shard_id as i32),
            index_in_chunk,
            gas_burnt: execution_outcome.gas_burnt,
            tokens_burnt: execution_outcome.tokens_burnt,
            executor_account_id: execution_outcome.executor_id.clone(),
            status: execution_outcome.status.print().to_owned(),
        }
    }

    /// Binds the columns of the record behind what is bound already.
    pub fn add_to_args(&self, args: &mut SqlArguments)
        ensures
            final(args)@ == old(args)@ + self@,
    {
        args.add_text(&self.receipt_id);
        args.add_text(&self.block_hash);
        args.add_decimal(self.block_timestamp as u128);
        args.add_integer(self.chunk_index_in_block);
        args.add_integer(self.index_in_chunk);
        args.add_decimal(self.gas_burnt as u128);
        args.add_decimal(self.tokens_burnt);
        args.add_text(&self.executor_account_id);
        args.add_text(&self.status);
        assert(args@ =~= old(args)@ + self@);
    }

    /// The insert statement for `count` records of this table. An empty
    /// batch is bad input.
    pub fn get_query(count: usize) -> (made: Result<String, IndexerError>)
        ensures
            made is Err <==> count < 1,
            made matches Err(e) ==> e == IndexerError::BadInput,
            made matches Ok(text) ==> text@ == query_text(
                "INSERT IGNORE INTO execution_outcomes VALUES"@,
                count as nat,
                9,
            ),
    {
        create_query_with_placeholders(
            "INSERT IGNORE INTO execution_outcomes VALUES",
            count,
            ExecutionOutcome::field_count(),
        )
    }
}

impl FieldCount for ExecutionOutcome {
    open spec fn columns() -> nat {
        9
    }

    fn field_count() -> (count: usize) {
        9
    }
}

impl MySqlMethods for ExecutionOutcome {
    open spec fn row(&self) -> Seq<ColumnValue> {
        self@
    }

    open spec fn statement_head() -> Seq<char> {
        "INSERT IGNORE INTO execution_outcomes VALUES"@
    }

    open spec fn table_name() -> Seq<char> {
        "execution_outcomes"@
    }

    proof fn row_is_complete(&self) {
    }

    fn add_to_args(&self, args: &mut SqlArguments) {
        ExecutionOutcome::add_to_args(self, args)
    }

    fn get_query(count: usize) -> (made: Result<String, IndexerError>) {
        ExecutionOutcome::get_query(count)
    }

    fn name() -> (table: String) {
        "execution_outcomes".to_owned()
    }
}

/// One receipt that the execution of a receipt produced.
#[derive(Clone, Debug, PartialEq, Eq)]
pub struct ExecutionOutcomeReceipt {
    pub block_hash: String,
    pub block_timestamp: u64,
    pub executed_receipt_id: String,
    pub produced_receipt_id: String,
    pub chunk_index_in_block: i32,
    pub index_in_chunk: i32,
}

impl View for ExecutionOutcomeReceipt {
    type V = Seq<ColumnValue>;

    open spec fn view(&self) -> Seq<ColumnValue> {
        seq![
            ColumnValue::Text(self.block_hash@),
            ColumnValue::Decimal(self.block_timestamp as nat),
            ColumnValue::Text(self.executed_receipt_id@),
            ColumnValue::Text(self.produced_receipt_id@),
            ColumnValue::Integer(self.chunk_index_in_block as int),
            ColumnValue::Integer(self.index_in_chunk as int),
        ]
    }
}

impl ExecutionOutcomeReceipt {
    /// The row of a produced receipt.
    pub open spec fn row_of(
        block_hash: CryptoHash,
        block_timestamp: u64,
        executed_receipt_id: CryptoHash,
        produced_receipt_id: CryptoHash,
        shard_id: u64,
        index_in_chunk: i32,
    ) -> Seq<ColumnValue> {
        seq![
            ColumnValue::Text(block_hash.text()),
            ColumnValue::Decimal(block_timestamp as nat),
            ColumnValue::Text(executed_receipt_id.text()),
            ColumnValue::Text(produced_receipt_id.text()),
            ColumnValue::Integer((shard_id as i32) as int),
            ColumnValue::Integer(index_in_chunk as int),
        ]
    }

    /// The record of a receipt that the execution of another produced.
    pub fn from_produced_receipt(
        block_hash: &CryptoHash,
        block_timestamp: u64,
        executed_receipt_id: &CryptoHash,
        produced_receipt_id: &CryptoHash,
        shard_id: u64,
        index_in_chunk: i32,
    ) -> (produced: ExecutionOutcomeReceipt)
        ensures
            produced@ == ExecutionOutcomeReceipt::row_of(
                *block_hash,
                block_timestamp,
                *executed_receipt_id,
                *produced_receipt_id,
                shard_id,
                index_in_chunk,
            ),
    {
        ExecutionOutcomeReceipt {
            block_hash: block_hash.to_text(),
            block_timestamp,
            executed_receipt_id: executed_receipt_id.to_text(),
            produced_receipt_id: produced_receipt_id.to_text(),
            chunk_index_in_block: #[verifier::truncate] (shard_id as i32),
            index_in_chunk,
        }
    }

    /// Binds the columns of the record behind what is bound already.
    pub fn add_to_args(&self, args: &mut SqlArguments)
        ensures
            final(args)@ == old(args)@ + self@,
    {
        args.add_text(&self.block_hash);
        args.add_decimal(self.block_timestamp as u128);
        args.add_text(&self.executed_receipt_id);
        args.add_text(&self.produced_receipt_id);
        args.add_integer(self.chunk_index_in_block);
        args.add_integer(self.index_in_chunk);
        assert(args@ =~= old(args)@ + self@);
    }

    /// The insert statement for `count` records of this table. An empty
    /// batch is bad input.
    pub fn get_query(count: usize) -> (made: Result<String, IndexerError>)
        ensures
            made is Err <==> count < 1,
            made matches Err(e) ==> e == IndexerError::BadInput,
            made matches Ok(text) ==> text@ == query_text(
                "INSERT IGNORE INTO execution_outcomes__receipts VALUES"@,
                count as nat,
                6,
            ),
    {
        create_query_with_placeholders(
            "INSERT IGNORE INTO execution_outcomes__receipts VALUES",
            count,
            ExecutionOutcomeReceipt::field_count(),
        )
    }
}

impl FieldCount for ExecutionOutcomeReceipt {
    open spec fn columns() -> nat {
        6
    }

    fn field_count() -> (count: usize) {
        6
    }
}

impl MySqlMethods for ExecutionOutcomeReceipt {
    open spec fn row(&self) -> Seq<ColumnValue> {
        self@
    }

    open spec fn statement_head() -> Seq<char> {
        "INSERT IGNORE INTO execution_outcomes__receipts VALUES"@
    }

    open spec fn table_name() -> Seq<char> {
        "execution_outcomes__receipts"@
    }

    proof fn row_is_complete(&self) {
    }

    fn add_to_args(&self, args: &mut SqlArguments) {
        ExecutionOutcomeReceipt::add_to_args(self, args)
    }

    fn get_query(count: usize) -> (made: Result<String, IndexerError>) {
        ExecutionOutcomeReceipt::get_query(count)
    }

    fn name() -> (table: String) {
        "execution_outcomes__receipts".to_owned()
    }
}

} // verus!
