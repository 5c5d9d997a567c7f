//! The `blocks` table.

use crate::errors::IndexerError;
use crate::models::{
    create_query_with_placeholders, query_text, ColumnValue, FieldCount, MySqlMethods, SqlArguments,
};
use crate::views::BlockView;
use vstd::prelude::*;

verus! {

/// One block of the chain.
#[derive(Clone, Debug, PartialEq, Eq)]
pub struct Block {
    pub block_height: u64,
    pub block_hash: String,
    pub prev_block_hash: String,
    /// Nanoseconds since the epoch.
    pub block_timestamp: u64,
    pub total_supply: u128,
    pub gas_price: u128,
    pub author_account_id: String,
}

impl View for Block {
    type V = Seq<ColumnValue>;

    open spec fn view(&self) -> Seq<ColumnValue> {
        seq![
            ColumnValue::Decimal(self.block_height as nat),
            ColumnValue::Text(self.block_hash@),
            ColumnValue::Text(self.prev_block_hash@),
            ColumnValue::Decimal(self.block_timestamp as nat),
            ColumnValue::Decimal(self.total_supply as nat),
            ColumnValue::Decimal(self.gas_price as nat),
            ColumnValue::Text(self.author_account_id@),
        ]
    }
}

impl Block {
    /// The row of a block.
    pub open spec fn row_of(block_view: BlockView) -> Seq<ColumnValue> {
        seq![
            ColumnValue::Decimal(block_view.height as nat),
            ColumnValue::Text(block_view.hash.text()),
            ColumnValue::Text(block_view.prev_hash.text()),
            ColumnValue::Decimal(block_view.timestamp as nat),
            ColumnValue::Decimal(block_view.total_supply as nat),
            ColumnValue::Decimal(block_view.gas_price as nat),
            ColumnValue::Text(block_view.author@),
        ]
    }

    /// The record of a block.
    pub fn from_block_view(block_view: &BlockView) -> (block: Block)
        ensures
            block@ == Block::row_of(*block_view),
    {
        Block {
            block_height: block_view.height,
            block_hash: block_view.hash.to_text(),
            prev_block_hash: block_view.prev_hash.to_text(),
            block_timestamp: block_view.timestamp,
            total_supply: block_view.total_supply,
            gas_price: block_view.gas_price,
            author_account_id: block_view.author.clone(),
        }
    }

    /// Binds the columns of the record behind what is bound already.
    pub fn add_to_args(&self, args: &mut SqlArguments)
        ensures
            final(args)@ == old(args)@ + self@,
    {
        args.add_decimal(self.block_height as u128);
        args.add_text(&self.block_hash);
        args.add_text(&self.prev_block_hash);
        args.add_decimal(self.block_timestamp as u128);
        args.add_decimal(self.total_supply);
        args.add_decimal(self.gas_price);
        args.add_text(&self.author_account_id);
        assert(args@ =~= old(args)@ + self@);
    }

    /// The insert statement for `count` records of this table. An empty
    /// batch is bad input.
    pub fn get_query(count: usize) -> (made: Result<String, IndexerError>)
        ensures
            made is Err <==> count < 1,
            made matches Err(e) ==> e == IndexerError::BadInput,
            made matches Ok(text) ==> text@ == query_text(
                "INSERT IGNORE INTO blocks VALUES"@,
                count as nat,
                7,
            ),
    {
        create_query_with_placeholders(
            "INSERT IGNORE INTO blocks VALUES",
            count,
            Block::field_count(),
        )
    }
}

impl FieldCount for Block {
    open spec fn columns() -> nat {
        7
    }

    fn field_count() -> (count: usize) {
        7
    }
}

impl MySqlMethods for Block {
    open spec fn row(&self) -> Seq<ColumnValue> {
        self@
    }

    open spec fn statement_head() -> Seq<char> {
        "INSERT IGNORE INTO blocks VALUES"@
    }

    open spec fn table_name() -> Seq<char> {
        "blocks"@
    }

    proof fn row_is_complete(&self) {
    }

    fn add_to_args(&self, args: &mut SqlArguments) {
        Block::add_to_args(self, args)
    }

    fn get_query(count: usize) -> (made: Result<String, IndexerError>) {
        Block::get_query(count)
    }

    fn name() -> (table: String) {
        "blocks".to_owned()
    }
}

} // verus!
