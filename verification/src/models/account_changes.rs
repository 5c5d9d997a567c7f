//! The `account_changes` table.

use crate::enums::is_state_change_label;
use crate::errors::IndexerError;
use crate::hashes::CryptoHash;
use crate::models::{
    create_query_with_placeholders, optional_text, query_text, ColumnValue, FieldCount,
    MySqlMethods, SqlArguments,
};
use crate::views::StateChangeWithCauseView;
use vstd::prelude::*;
use vstd::string::*;

verus! {

/// One change of an account's state.
#[derive(Clone, Debug, PartialEq, Eq)]
pub struct AccountChange {
    pub block_hash: String,
    pub block_timestamp: u64,
    pub index_in_block: i32,
    pub account_id: String,
    /// One of the state change cause labels.
    pub cause_kind: String,
    /// The hash of the transaction or receipt that caused the change, where the cause names one.
    pub cause_payload: Option<String>,
}

impl View for AccountChange {
    type V = Seq<ColumnValue>;

    open spec fn view(&self) -> Seq<ColumnValue> {
        seq![
            ColumnValue::Text(self.block_hash@),
            ColumnValue::Decimal(self.block_timestamp as nat),
            ColumnValue::Integer(self.index_in_block as int),
            ColumnValue::Text(self.account_id@),
            ColumnValue::Text(self.cause_kind@),
            optional_text(self.cause_payload),
        ]
    }
}

impl AccountChange {
    /// The text of the hash that a cause names, where it names one.
    pub open spec fn payload_column(state_change: StateChangeWithCauseView) -> ColumnValue {
        match state_change.cause.payload() {
            Some(bytes) => ColumnValue::Text(crate::hashes::crypto_hash_text(bytes)),
            None => ColumnValue::Null,
        }
    }

    /// The row of a state change at a place in a block.
    pub open spec fn row_of(
        state_change: StateChangeWithCauseView,
        block_hash: CryptoHash,
        block_timestamp: u64,
        index_in_block: i32,
    ) -> Seq<ColumnValue>
        recommends
            state_change.cause.is_live(),
    {
        seq![
            ColumnValue::Text(block_hash.text()),
            ColumnValue::Decimal(block_timestamp as nat),
            ColumnValue::Integer(index_in_block as int),
            ColumnValue::Text(state_change.account_id@),
            ColumnValue::Text(state_change.cause.reason().label()),
            AccountChange::payload_column(state_change),
        ]
    }

    /// The record of a state change. A cause that never reaches a live
    /// stream is a schema violation.
    pub fn from_state_change_with_cause(
        state_change: &StateChangeWithCauseView,
        block_hash: &CryptoHash,
        block_timestamp: u64,
        index_in_block: i32,
    ) -> (made: Result<AccountChange, IndexerError>)
        ensures
            made is Ok <==> state_change.cause.is_live(),
            made matches Err(e) ==> e == IndexerError::SchemaViolation,
            made matches Ok(record) ==> record@ == AccountChange::row_of(
                *state_change,
                *block_hash,
                block_timestamp,
                index_in_block,
            ) && is_state_change_label(record.cause_kind@),
    {
        let cause_kind = match state_change.cause.print() {
            Ok(label) => label.to_owned(),
            Err(e) => {
                return Err(e);
            },
        };
        let cause_payload = match &state_change.cause {
            crate::views::StateChangeCauseView::TransactionProcessing { tx_hash } => Some(
                tx_hash.to_text(),
            ),
            crate::views::StateChangeCauseView::ActionReceiptProcessingStarted {
                receipt_hash,
            } => Some(receipt_hash.to_text()),
            crate::views::StateChangeCauseView::ActionReceiptGasReward { receipt_hash } => Some(
                receipt_hash.to_text(),
            ),
            crate::views::StateChangeCauseView::ReceiptProcessing { receipt_hash } => Some(
                receipt_hash.to_text(),
            ),
            crate::views::StateChangeCauseView::PostponedReceipt { receipt_hash } => Some(
                receipt_hash.to_text(),
            ),
            _ => None,
        };
        Ok(
            AccountChange {
                block_hash: block_hash.to_text(),
                block_timestamp,
                index_in_block,
                account_id: state_change.account_id.clone(),
                cause_kind,
                cause_payload,
            },
        )
    }

    /// Binds the columns of the record behind what is bound already.
    pub fn add_to_args(&self, args: &mut SqlArguments)
        ensures
            final(args)@ == old(args)@ + self@,
    {
        args.add_text(&self.block_hash);
        args.add_decimal(self.block_timestamp as u128);
        args.add_integer(self.index_in_block);
        args.add_text(&self.account_id);
        args.add_text(&self.cause_kind);
        args.add_optional_text(&self.cause_payload);
        assert(args@ =~= old(args)@ + self@);
    }

    /// The insert statement for `count` records of this table. An empty
    /// batch is bad input.
    pub fn get_query(count: usize) -> (made: Result<String, IndexerError>)
        ensures
            made is Err <==> count < 1,
            made matches Err(e) ==> e == IndexerError::BadInput,
            made matches Ok(text) ==> text@ == query_text(
                "INSERT IGNORE INTO account_changes VALUES"@,
                count as nat,
                6,
            ),
    {
        create_query_with_placeholders(
            "INSERT IGNORE INTO account_changes VALUES",
            count,
            AccountChange::field_count(),
        )
    }
}

impl FieldCount for AccountChange {
    open spec fn columns() -> nat {
        6
    }

    fn field_count() -> (count: usize) {
        6
    }
}

impl MySqlMethods for AccountChange {
    open spec fn row(&self) -> Seq<ColumnValue> {
        self@
    }

    open spec fn statement_head() -> Seq<char> {
        "INSERT IGNORE INTO account_changes VALUES"@
    }

    open spec fn table_name() -> Seq<char> {
        "account_changes"@
    }

    proof fn row_is_complete(&self) {
    }

    fn add_to_args(&self, args: &mut SqlArguments) {
        AccountChange::add_to_args(self, args)
    }

    fn get_query(count: usize) -> (made: Result<String, IndexerError>) {
        AccountChange::get_query(count)
    }

    fn name() -> (table: String) {
        "account_changes".to_owned()
    }
}

} // verus!
