//! The tables of receipts: data receipts, action receipts, and the actions,
//! inputs and outputs of action receipts.

use crate::enums::{is_action_kind_label, ActionKind};
use crate::errors::IndexerError;
use crate::hashes::CryptoHash;
use crate::models::{
    create_query_with_placeholders, optional_bytes, ColumnValue, FieldCount, MySqlMethods,
    SqlArguments,
};
use crate::views::{
    ActionWithArgs, ChunkHeaderView, DataReceiverView, ReceiptEnumView, ReceiptView,
};
use vstd::prelude::*;
use vstd::string::*;

verus! {

/// A receipt that carries data to an action receipt that waits for it.
#[derive(Clone, Debug, PartialEq, Eq)]
pub struct DataReceipt {
    pub receipt_id: String,
    pub block_hash: String,
    pub chunk_hash: String,
    pub block_timestamp: u64,
    pub chunk_index_in_block: i32,
    pub receipt_index_in_chunk: i32,
    pub predecessor_account_id: String,
    pub receiver_account_id: String,
    pub originated_from_transaction_hash: String,
    pub data_id: String,
    pub data: Option<Vec<u8>>,
}

impl View for DataReceipt {
    type V = Seq<ColumnValue>;

    open spec fn view(&self) -> Seq<ColumnValue> {
        seq![
            ColumnValue::Text(self.receipt_id@),
            ColumnValue::Text(self.block_hash@),
            ColumnValue::Text(self.chunk_hash@),
            ColumnValue::Decimal(self.block_timestamp as nat),
            ColumnValue::Integer(self.chunk_index_in_block as int),
            ColumnValue::Integer(self.receipt_index_in_chunk as int),
            ColumnValue::Text(self.predecessor_account_id@),
            ColumnValue::Text(self.receiver_account_id@),
            ColumnValue::Text(self.originated_from_transaction_hash@),
            ColumnValue::Text(self.data_id@),
            optional_bytes(self.data),
        ]
    }
}

impl DataReceipt {
    /// The row of a data receipt at a place in a chunk, caused by the
    /// transaction with the given hash text.
    pub open spec fn row_of(
        receipt: ReceiptView,
        block_hash: CryptoHash,
        transaction_hash: Seq<char>,
        chunk_header: ChunkHeaderView,
        index_in_chunk: i32,
        block_timestamp: u64,
    ) -> Seq<ColumnValue>
        recommends
            receipt.receipt is Data,
    {
        seq![
            ColumnValue::Text(receipt.receipt_id.text()),
            ColumnValue::Text(block_hash.text()),
            ColumnValue::Text(chunk_header.chunk_hash.text()),
            ColumnValue::Decimal(block_timestamp as nat),
            ColumnValue::Integer((chunk_header.shard_id as i32) as int),
            ColumnValue::Integer(index_in_chunk as int),
            ColumnValue::Text(receipt.predecessor_id@),
            ColumnValue::Text(receipt.receiver_id@),
            ColumnValue::Text(transaction_hash),
            ColumnValue::Text(receipt.receipt->Data_data_id.text()),
            optional_bytes(receipt.receipt->Data_data),
        ]
    }

    /// The record of a data receipt. A receipt of the other kind is bad
    /// input.
    pub fn try_from_data_receipt_view(
        receipt: &ReceiptView,
        block_hash: &CryptoHash,
        transaction_hash: &str,
        chunk_header: &ChunkHeaderView,
        index_in_chunk: i32,
        block_timestamp: u64,
    ) -> (made: Result<DataReceipt, IndexerError>)
        ensures
            made is Ok <==> receipt.receipt is Data,
            made matches Err(e) ==> e == IndexerError::BadInput,
            made matches Ok(record) ==> record@ == DataReceipt::row_of(
                *receipt,
                *block_hash,
                transaction_hash@,
                *chunk_header,
                index_in_chunk,
                block_timestamp,
            ),
    {
        match &receipt.receipt {
            ReceiptEnumView::Data { data_id, data } => Ok(
                DataReceipt {
                    receipt_id: receipt.receipt_id.to_text(),
                    block_hash: block_hash.to_text(),
                    chunk_hash: chunk_header.chunk_hash.to_text(),
                    block_timestamp,
                    chunk_index_in_block: #[verifier::truncate] (chunk_header.shard_id as i32),
                    receipt_index_in_chunk: index_in_chunk,
                    predecessor_account_id: receipt.predecessor_id.clone(),
                    receiver_account_id: receipt.receiver_id.clone(),
                    originated_from_transaction_hash: transaction_hash.to_owned(),
                    data_id: data_id.to_text(),
                    data: crate::models::copy_optional_bytes(data),
                },
            ),
            _ => Err(IndexerError::BadInput),
        }
    }
}

impl FieldCount for DataReceipt {
    open spec fn columns() -> nat {
        11
    }

    fn field_count() -> (count: usize) {
        11
    }
}

impl MySqlMethods for DataReceipt {
    open spec fn row(&self) -> Seq<ColumnValue> {
        self@
    }

    open spec fn statement_head() -> Seq<char> {
        "INSERT IGNORE INTO data_receipts VALUES"@
    }

    open spec fn table_name() -> Seq<char> {
        "data_receipts"@
    }

    proof fn row_is_complete(&self) {
    }

    fn add_to_args(&self, args: &mut SqlArguments) {
        args.add_text(&self.receipt_id);
        args.add_text(&self.block_hash);
        args.add_text(&self.chunk_hash);
        args.add_decimal(self.block_timestamp as u128);
        args.add_integer(self.chunk_index_in_block);
        args.add_integer(self.receipt_index_in_chunk);
        args.add_text(&self.predecessor_account_id);
        args.add_text(&self.receiver_account_id);
        args.add_text(&self.originated_from_transaction_hash);
        args.add_text(&self.data_id);
        args.add_optional_bytes(&self.data);
        assert(args@ =~= old(args)@ + self@);
    }

    fn get_query(count: usize) -> (made: Result<String, IndexerError>) {
        create_query_with_placeholders(
            "INSERT IGNORE INTO data_receipts VALUES",
            count,
            DataReceipt::field_count(),
        )
    }

    fn name() -> (table: String) {
        "data_receipts".to_owned()
    }
}

/// A receipt that carries actions to an account.
#[derive(Clone, Debug, PartialEq, Eq)]
pub struct ActionReceipt {
    pub receipt_id: String,
    pub block_hash: String,
    pub chunk_hash: String,
    pub block_timestamp: u64,
    pub chunk_index_in_block: i32,
    pub receipt_index_in_chunk: i32,
    pub predecessor_account_id: String,
    pub receiver_account_id: String,
    pub originated_from_transaction_hash: String,
    pub signer_account_id: String,
    pub signer_public_key: String,
    pub gas_price: u128,
}

impl View for ActionReceipt {
    type V = Seq<ColumnValue>;

    open spec fn view(&self) -> Seq<ColumnValue> {
        seq![
            ColumnValue::Text(self.receipt_id@),
            ColumnValue::Text(self.block_hash@),
            ColumnValue::Text(self.chunk_hash@),
            ColumnValue::Decimal(self.block_timestamp as nat),
            ColumnValue::Integer(self.chunk_index_in_block as int),
            ColumnValue::Integer(self.receipt_index_in_chunk as int),
            ColumnValue::Text(self.predecessor_account_id@),
            ColumnValue::Text(self.receiver_account_id@),
            ColumnValue::Text(self.originated_from_transaction_hash@),
            ColumnValue::Text(self.signer_account_id@),
            ColumnValue::Text(self.signer_public_key@),
            ColumnValue::Decimal(self.gas_price as nat),
        ]
    }
}

impl ActionReceipt {
    /// The row of an action receipt at a place in a chunk, caused by the
    /// transaction with the given hash text.
    pub open spec fn row_of(
        receipt: ReceiptView,
        block_hash: CryptoHash,
        transaction_hash: Seq<char>,
        chunk_header: ChunkHeaderView,
        index_in_chunk: i32,
        block_timestamp: u64,
    ) -> Seq<ColumnValue>
        recommends
            receipt.receipt is Action,
    {
        seq![
            ColumnValue::Text(receipt.receipt_id.text()),
            ColumnValue::Text(block_hash.text()),
            ColumnValue::Text(chunk_header.chunk_hash.text()),
            ColumnValue::Decimal(block_timestamp as nat),
            ColumnValue::Integer((chunk_header.shard_id as i32) as int),
            ColumnValue::Integer(index_in_chunk as int),
            ColumnValue::Text(receipt.predecessor_id@),
            ColumnValue::Text(receipt.receiver_id@),
            ColumnValue::Text(transaction_hash),
            ColumnValue::Text(receipt.receipt->Action_signer_id@),
            ColumnValue::Text(receipt.receipt->Action_signer_public_key@),
            ColumnValue::Decimal(receipt.receipt->Action_gas_price as nat),
        ]
    }

    /// The record of an action receipt. A receipt of the other kind is bad
    /// input.
    pub fn try_from_action_receipt_view(
        receipt: &ReceiptView,
        block_hash: &CryptoHash,
        transaction_hash: &str,
        chunk_header: &ChunkHeaderView,
        index_in_chunk: i32,
        block_timestamp: u64,
    ) -> (made: Result<ActionReceipt, IndexerError>)
        ensures
            made is Ok <==> receipt.receipt is Action,
            made matches Err(e) ==> e == IndexerError::BadInput,
            made matches Ok(record) ==> record@ == ActionReceipt::row_of(
                *receipt,
                *block_hash,
                transaction_hash@,
                *chunk_header,
                index_in_chunk,
                block_timestamp,
            ),
    {
        match &receipt.receipt {
            ReceiptEnumView::Action { signer_id, signer_public_key, gas_price, .. } => Ok(
                ActionReceipt {
                    receipt_id: receipt.receipt_id.to_text(),
                    block_hash: block_hash.to_text(),
                    chunk_hash: chunk_header.chunk_hash.to_text(),
                    block_timestamp,
                    chunk_index_in_block: #[verifier::truncate] (chunk_header.shard_id as i32),
                    receipt_index_in_chunk: index_in_chunk,
                    predecessor_account_id: receipt.predecessor_id.clone(),
                    receiver_account_id: receipt.receiver_id.clone(),
                    originated_from_transaction_hash: transaction_hash.to_owned(),
                    signer_account_id: signer_id.clone(),
                    signer_public_key: signer_public_key.clone(),
                    gas_price: *gas_price,
                },
            ),
            _ => Err(IndexerError::BadInput),
        }
    }
}

impl FieldCount for ActionReceipt {
    open spec fn columns() -> nat {
        12
    }

    fn field_count() -> (count: usize) {
        12
    }
}

impl MySqlMethods for ActionReceipt {
    open spec fn row(&self) -> Seq<ColumnValue> {
        self@
    }

    open spec fn statement_head() -> Seq<char> {
        "INSERT IGNORE INTO action_receipts VALUES"@
    }

    open spec fn table_name() -> Seq<char> {
        "action_receipts"@
    }

    proof fn row_is_complete(&self) {
    }

    fn add_to_args(&self, args: &mut SqlArguments) {
        args.add_text(&self.receipt_id);
        args.add_text(&self.block_hash);
        args.add_text(&self.chunk_hash);
        args.add_decimal(self.block_timestamp as u128);
        args.add_integer(self.chunk_index_in_block);
        args.add_integer(self.receipt_index_in_chunk);
        args.add_text(&self.predecessor_account_id);
        args.add_text(&self.receiver_account_id);
        args.add_text(&self.originated_from_transaction_hash);
        args.add_text(&self.signer_account_id);
        args.add_text(&self.signer_public_key);
        args.add_decimal(self.gas_price);
        assert(args@ =~= old(args)@ + self@);
    }

    fn get_query(count: usize) -> (made: Result<String, IndexerError>) {
        create_query_with_placeholders(
            "INSERT IGNORE INTO action_receipts VALUES",
            count,
            ActionReceipt::field_count(),
        )
    }

    fn name() -> (table: String) {
        "action_receipts".to_owned()
    }
}

/// One action of an action receipt: its kind and its arguments as JSON text.
#[derive(Clone, Debug, PartialEq, Eq)]
pub struct ActionReceiptAction {
    pub block_hash: String,
    pub block_timestamp: u64,
    pub receipt_id: String,
    /// One of the action kind labels.
    pub action_kind: String,
    /// The arguments of the action as JSON text.
    pub args: String,
    pub predecessor_account_id: String,
    pub receiver_account_id: String,
    pub chunk_index_in_block: i32,
    pub index_in_chunk: i32,
}

impl View for ActionReceiptAction {
    type V = Seq<ColumnValue>;

    open spec fn view(&self) -> Seq<ColumnValue> {
        seq![
            ColumnValue::Text(self.block_hash@),
            ColumnValue::Decimal(self.block_timestamp as nat),
            ColumnValue::Text(self.receipt_id@),
            ColumnValue::Text(self.action_kind@),
            ColumnValue::Text(self.args@),
            ColumnValue::Text(self.predecessor_account_id@),
            ColumnValue::Text(self.receiver_account_id@),
            ColumnValue::Integer(self.chunk_index_in_block as int),
            ColumnValue::Integer(self.index_in_chunk as int),
        ]
    }
}

impl ActionReceiptAction {
    /// The row of an action of the receipt with the given id text.
    pub open spec fn row_of(
        receipt_id: Seq<char>,
        action_view: ActionWithArgs,
        predecessor_account_id: Seq<char>,
        receiver_account_id: Seq<char>,
        block_hash: CryptoHash,
        block_timestamp: u64,
        chunk_index_in_block: i32,
        index_in_chunk: i32,
    ) -> Seq<ColumnValue> {
        seq![
            ColumnValue::Text(block_hash.text()),
            ColumnValue::Decimal(block_timestamp as nat),
            ColumnValue::Text(receipt_id),
            ColumnValue::Text(ActionKind::of(action_view.action).label()),
            ColumnValue::Text(action_view.args@),
            ColumnValue::Text(predecessor_account_id),
            ColumnValue::Text(receiver_account_id),
            ColumnValue::Integer(chunk_index_in_block as int),
            ColumnValue::Integer(index_in_chunk as int),
        ]
    }

    /// The record of one action of a receipt.
    pub fn from_action_view(
        receipt_id: String,
        action_view: &ActionWithArgs,
        predecessor_account_id: String,
        receiver_account_id: String,
        block_hash: &CryptoHash,
        block_timestamp: u64,
        chunk_index_in_block: i32,
        index_in_chunk: i32,
    ) -> (record: ActionReceiptAction)
        ensures
            record@ == ActionReceiptAction::row_of(
                receipt_id@,
                *action_view,
                predecessor_account_id@,
                receiver_account_id@,
                *block_hash,
                block_timestamp,
                chunk_index_in_block,
                index_in_chunk,
            ),
            is_action_kind_label(record.action_kind@),
    {
        let action_kind = ActionKind::from_action_view(&action_view.action).print().to_owned();
        ActionReceiptAction {
            block_hash: block_hash.to_text(),
            block_timestamp,
            receipt_id,
            action_kind,
            args: action_view.args.clone(),
            predecessor_account_id,
            receiver_account_id,
            chunk_index_in_block,
            index_in_chunk,
        }
    }
}

impl FieldCount for ActionReceiptAction {
    open spec fn columns() -> nat {
        9
    }

    fn field_count() -> (count: usize) {
        9
    }
}

impl MySqlMethods for ActionReceiptAction {
    open spec fn row(&self) -> Seq<ColumnValue> {
        self@
    }

    open spec fn statement_head() -> Seq<char> {
        "INSERT IGNORE INTO action_receipts__actions VALUES"@
    }

    open spec fn table_name() -> Seq<char> {
        "action_receipts__actions"@
    }

    proof fn row_is_complete(&self) {
    }

    fn add_to_args(&self, args: &mut SqlArguments) {
        args.add_text(&self.block_hash);
        args.add_decimal(self.block_timestamp as u128);
        args.add_text(&self.receipt_id);
        args.add_text(&self.action_kind);
        args.add_text(&self.args);
        args.add_text(&self.predecessor_account_id);
        args.add_text(&self.receiver_account_id);
        args.add_integer(self.chunk_index_in_block);
        args.add_integer(self.index_in_chunk);
        assert(args@ =~= old(args)@ + self@);
    }

    fn get_query(count: usize) -> (made: Result<String, IndexerError>) {
        create_query_with_placeholders(
            "INSERT IGNORE INTO action_receipts__actions VALUES",
            count,
            ActionReceiptAction::field_count(),
        )
    }

    fn name() -> (table: String) {
        "action_receipts__actions".to_owned()
    }
}

/// One piece of data that an action receipt waits for.
#[derive(Clone, Debug, PartialEq, Eq)]
pub struct ActionReceiptsInput {
    pub block_hash: String,
    pub block_timestamp: u64,
    pub receipt_id: String,
    pub input_data_id: String,
    pub chunk_index_in_block: i32,
    pub index_in_chunk: i32,
}

impl View for ActionReceiptsInput {
    type V = Seq<ColumnValue>;

    open spec fn view(&self) -> Seq<ColumnValue> {
        seq![
            ColumnValue::Text(self.block_hash@),
            ColumnValue::Decimal(self.block_timestamp as nat),
            ColumnValue::Text(self.receipt_id@),
            ColumnValue::Text(self.input_data_id@),
            ColumnValue::Integer(self.chunk_index_in_block as int),
            ColumnValue::Integer(self.index_in_chunk as int),
        ]
    }
}

impl ActionReceiptsInput {
    /// The row of an input of the receipt with the given id text.
    pub open spec fn row_of(
        receipt_id: Seq<char>,
        data_id: CryptoHash,
        block_hash: CryptoHash,
        block_timestamp: u64,
        chunk_index_in_block: i32,
        index_in_chunk: i32,
    ) -> Seq<ColumnValue> {
        seq![
            ColumnValue::Text(block_hash.text()),
            ColumnValue::Decimal(block_timestamp as nat),
            ColumnValue::Text(receipt_id),
            ColumnValue::Text(data_id.text()),
            ColumnValue::Integer(chunk_index_in_block as int),
            ColumnValue::Integer(index_in_chunk as int),
        ]
    }

    /// The record of one input of a receipt.
    pub fn from_data_id(
        receipt_id: String,
        data_id: &CryptoHash,
        block_hash: &CryptoHash,
        block_timestamp: u64,
        chunk_index_in_block: i32,
        index_in_chunk: i32,
    ) -> (record: ActionReceiptsInput)
        ensures
            record@ == ActionReceiptsInput::row_of(
                receipt_id@,
                *data_id,
                *block_hash,
                block_timestamp,
                chunk_index_in_block,
                index_in_chunk,
            ),
    {
        ActionReceiptsInput {
            block_hash: block_hash.to_text(),
            block_timestamp,
            receipt_id,
            input_data_id: data_id.to_text(),
            chunk_index_in_block,
            index_in_chunk,
        }
    }
}

impl FieldCount for ActionReceiptsInput {
    open spec fn columns() -> nat {
        6
    }

    fn field_count() -> (count: usize) {
        6
    }
}

impl MySqlMethods for ActionReceiptsInput {
    open spec fn row(&self) -> Seq<ColumnValue> {
        self@
    }

    open spec fn statement_head() -> Seq<char> {
        "INSERT IGNORE INTO action_receipts__inputs VALUES"@
    }

    open spec fn table_name() -> Seq<char> {
        "action_receipts__inputs"@
    }

    proof fn row_is_complete(&self) {
    }

    fn add_to_args(&self, args: &mut SqlArguments) {
        args.add_text(&self.block_hash);
        args.add_decimal(self.block_timestamp as u128);
        args.add_text(&self.receipt_id);
        args.add_text(&self.input_data_id);
        args.add_integer(self.chunk_index_in_block);
        args.add_integer(self.index_in_chunk);
        assert(args@ =~= old(args)@ + self@);
    }

    fn get_query(count: usize) -> (made: Result<String, IndexerError>) {
        create_query_with_placeholders(
            "INSERT IGNORE INTO action_receipts__inputs VALUES",
            count,
            ActionReceiptsInput::field_count(),
        )
    }

    fn name() -> (table: String) {
        "action_receipts__inputs".to_owned()
    }
}

/// One piece of data that an action receipt will send, and to whom.
#[derive(Clone, Debug, PartialEq, Eq)]
pub struct ActionReceiptsOutput {
    pub block_hash: String,
    pub block_timestamp: u64,
    pub receipt_id: String,
    pub output_data_id: String,
    pub receiver_account_id: String,
    pub chunk_index_in_block: i32,
    pub index_in_chunk: i32,
}

impl View for ActionReceiptsOutput {
    type V = Seq<ColumnValue>;

    open spec fn view(&self) -> Seq<ColumnValue> {
        seq![
            ColumnValue::Text(self.block_hash@),
            ColumnValue::Decimal(self.block_timestamp as nat),
            ColumnValue::Text(self.receipt_id@),
            ColumnValue::Text(self.output_data_id@),
            ColumnValue::Text(self.receiver_account_id@),
            ColumnValue::Integer(self.chunk_index_in_block as int),
            ColumnValue::Integer(self.index_in_chunk as int),
        ]
    }
}

impl ActionReceiptsOutput {
    /// The row of an output of the receipt with the given id text.
    pub open spec fn row_of(
        receipt_id: Seq<char>,
        data_receiver: DataReceiverView,
        block_hash: CryptoHash,
        block_timestamp: u64,
        chunk_index_in_block: i32,
        index_in_chunk: i32,
    ) -> Seq<ColumnValue> {
        seq![
            ColumnValue::Text(block_hash.text()),
            ColumnValue::Decimal(block_timestamp as nat),
            ColumnValue::Text(receipt_id),
            ColumnValue::Text(data_receiver.data_id.text()),
            ColumnValue::Text(data_receiver.receiver_id@),
            ColumnValue::Integer(chunk_index_in_block as int),
            ColumnValue::Integer(index_in_chunk as int),
        ]
    }

    /// The record of one output of a receipt.
    pub fn from_data_receiver(
        receipt_id: String,
        data_receiver: &DataReceiverView,
        block_hash: &CryptoHash,
        block_timestamp: u64,
        chunk_index_in_block: i32,
        index_in_chunk: i32,
    ) -> (record: ActionReceiptsOutput)
        ensures
            record@ == ActionReceiptsOutput::row_of(
                receipt_id@,
                *data_receiver,
                *block_hash,
                block_timestamp,
                chunk_index_in_block,
                index_in_chunk,
            ),
    {
        ActionReceiptsOutput {
            block_hash: block_hash.to_text(),
            block_timestamp,
            receipt_id,
            output_data_id: data_receiver.data_id.to_text(),
            receiver_account_id: data_receiver.receiver_id.clone(),
            chunk_index_in_block,
            index_in_chunk,
        }
    }
}

impl FieldCount for ActionReceiptsOutput {
    open spec fn columns() -> nat {
        7
    }

    fn field_count() -> (count: usize) {
        7
    }
}

impl MySqlMethods for ActionReceiptsOutput {
    open spec fn row(&self) -> Seq<ColumnValue> {
        self@
    }

    open spec fn statement_head() -> Seq<char> {
        "INSERT IGNORE INTO action_receipts__outputs VALUES"@
    }

    open spec fn table_name() -> Seq<char> {
        "action_receipts__outputs"@
    }

    proof fn row_is_complete(&self) {
    }

    fn add_to_args(&self, args: &mut SqlArguments) {
        args.add_text(&self.block_hash);
        args.add_decimal(self.block_timestamp as u128);
        args.add_text(&self.receipt_id);
        args.add_text(&self.output_data_id);
        args.add_text(&self.receiver_account_id);
        args.add_integer(self.chunk_index_in_block);
        args.add_integer(self.index_in_chunk);
        assert(args@ =~= old(args)@ + self@);
    }

    fn get_query(count: usize) -> (made: Result<String, IndexerError>) {
        create_query_with_placeholders(
            "INSERT IGNORE INTO action_receipts__outputs VALUES",
            count,
            ActionReceiptsOutput::field_count(),
        )
    }

    fn name() -> (table: String) {
        "action_receipts__outputs".to_owned()
    }
}

} // verus!
