//! The `transactions` table.

use crate::enums::is_execution_status_label;
use crate::errors::IndexerError;
use crate::hashes::CryptoHash;
use crate::models::{
    create_query_with_placeholders, query_text, ColumnValue, FieldCount, MySqlMethods, SqlArguments,
};
use crate::views::IndexerTransactionWithOutcome;
use vstd::prelude::*;
use vstd::string::*;

verus! {

/// One transaction of a chunk.
#[derive(Clone, Debug, PartialEq, Eq)]
pub struct Transaction {
    pub transaction_hash: String,
    pub included_in_block_hash: String,
    pub included_in_chunk_hash: String,
    pub index_in_chunk: i32,
    pub block_timestamp: u64,
    pub signer_account_id: String,
    pub signer_public_key: String,
    pub nonce: u64,
    pub receiver_account_id: String,
    pub signature: String,
    /// One of the execution status labels.
    pub status: String,
    pub converted_into_receipt_id: String,
    pub receipt_conversion_gas_burnt: u64,
    pub receipt_conversion_tokens_burnt: u128,
}

impl View for Transaction {
    type V = Seq<ColumnValue>;

    open spec fn view(&self) -> Seq<ColumnValue> {
        seq![
            ColumnValue::Text(self.transaction_hash@),
            ColumnValue::Text(self.included_in_block_hash@),
            ColumnValue::Text(self.included_in_chunk_hash@),
            ColumnValue::Integer(self.index_in_chunk as int),
            ColumnValue::Decimal(self.block_timestamp as nat),
            ColumnValue::Text(self.signer_account_id@),
            ColumnValue::Text(self.signer_public_key@),
            ColumnValue::Decimal(self.nonce as nat),
            ColumnValue::Text(self.receiver_account_id@),
            ColumnValue::Text(self.signature@),
            ColumnValue::Text(self.status@),
            ColumnValue::Text(self.converted_into_receipt_id@),
            ColumnValue::Decimal(self.receipt_conversion_gas_burnt as nat),
            ColumnValue::Decimal(self.receipt_conversion_tokens_burnt as nat),
        ]
    }
}

impl Transaction {
    /// The row of a transaction at a place in a chunk, filed under the given
    /// hash text and converted into the receipt with the given id text.
    pub open spec fn row_of(
        tx: IndexerTransactionWithOutcome,
        transaction_hash: Seq<char>,
        converted_into_receipt_id: Seq<char>,
        block_hash: CryptoHash,
        chunk_hash: CryptoHash,
        block_timestamp: u64,
        index_in_chunk: i32,
    ) -> Seq<ColumnValue> {
        seq![
            ColumnValue::Text(transaction_hash),
            ColumnValue::Text(block_hash.text()),
            ColumnValue::Text(chunk_hash.text()),
            ColumnValue::Integer(index_in_chunk as int),
            ColumnValue::Decimal(block_timestamp as nat),
            ColumnValue::Text(tx.transaction.signer_id@),
            ColumnValue::Text(tx.transaction.public_key@),
            ColumnValue::Decimal(tx.transaction.nonce as nat),
            ColumnValue::Text(tx.transaction.receiver_id@),
            ColumnValue::Text(tx.transaction.signature@),
            ColumnValue::Text(tx.outcome.status.label()),
            ColumnValue::Text(converted_into_receipt_id),
            ColumnValue::Decimal(tx.outcome.gas_burnt as nat),
            ColumnValue::Decimal(tx.outcome.tokens_burnt as nat),
        ]
    }

    /// The record of a transaction. The hash text is handed in, so that a
    /// caller can tell apart transactions that share a hash.
    pub fn from_indexer_transaction(
        tx: &IndexerTransactionWithOutcome,
        transaction_hash: &str,
        converted_into_receipt_id: &str,
        block_hash: &CryptoHash,
        chunk_hash: &CryptoHash,
        block_timestamp: u64,
        index_in_chunk: i32,
    ) -> (transaction: Transaction)
        ensures
            transaction@ == Transaction::row_of(
                *tx,
                transaction_hash@,
                converted_into_receipt_id@,
                *block_hash,
                *chunk_hash,
                block_timestamp,
                index_in_chunk,
            ),
            is_execution_status_label(transaction.status@),
    {
        Transaction {
            transaction_hash: transaction_hash.to_owned(),
            included_in_block_hash: block_hash.to_text(),
            block_timestamp,
            index_in_chunk,
            nonce: tx.transaction.nonce,
            signer_account_id: tx.transaction.signer_id.clone(),
            signer_public_key: tx.transaction.public_key.clone(),
            signature: tx.transaction.signature.clone(),
            receiver_account_id: tx.transaction.receiver_id.clone(),
            converted_into_receipt_id: converted_into_receipt_id.to_owned(),
            included_in_chunk_hash: chunk_hash.to_text(),
            status: tx.outcome.status.print().to_owned(),
            receipt_conversion_gas_burnt: tx.outcome.gas_burnt,
            receipt_conversion_tokens_burnt: tx.outcome.tokens_burnt,
        }
    }

    /// Binds the columns of the record behind what is bound already.
    pub fn add_to_args(&self, args: &mut SqlArguments)
        ensures
            final(args)@ == old(args)@ + self@,
    {
        args.add_text(&self.transaction_hash);
        args.add_text(&self.included_in_block_hash);
        args.add_text(&self.included_in_chunk_hash);
        args.add_integer(self.index_in_chunk);
        args.add_decimal(self.block_timestamp as u128);
        args.add_text(&self.signer_account_id);
        args.add_text(&self.signer_public_key);
        args.add_decimal(self.nonce as u128);
        args.add_text(&self.receiver_account_id);
        args.add_text(&self.signature);
        args.add_text(&self.status);
        args.add_text(&self.converted_into_receipt_id);
        args.add_decimal(self.receipt_conversion_gas_burnt as u128);
        args.add_decimal(self.receipt_conversion_tokens_burnt);
        assert(args@ =~= old(args)@ + self@);
    }

    /// The insert statement for `count` records of this table. An empty
    /// batch is bad input.
    pub fn get_query(count: usize) -> (made: Result<String, IndexerError>)
        ensures
            made is Err <==> count < 1,
            made matches Err(e) ==> e == IndexerError::BadInput,
            made matches Ok(text) ==> text@ == query_text(
                "INSERT IGNORE INTO transactions VALUES"@,
                count as nat,
                14,
            ),
    {
        create_query_with_placeholders(
            "INSERT IGNORE INTO transactions VALUES",
            count,
            Transaction::field_count(),
        )
    }
}

impl FieldCount for Transaction {
    open spec fn columns() -> nat {
        14
    }

    fn field_count() -> (count: usize) {
        14
    }
}

impl MySqlMethods for Transaction {
    open spec fn row(&self) -> Seq<ColumnValue> {
        self@
    }

    open spec fn statement_head() -> Seq<char> {
        "INSERT IGNORE INTO transactions VALUES"@
    }

    open spec fn table_name() -> Seq<char> {
        "transactions"@
    }

    proof fn row_is_complete(&self) {
    }

    fn add_to_args(&self, args: &mut SqlArguments) {
        Transaction::add_to_args(self, args)
    }

    fn get_query(count: usize) -> (made: Result<String, IndexerError>) {
        Transaction::get_query(count)
    }

    fn name() -> (table: String) {
        "transactions".to_owned()
    }
}

} // verus!
