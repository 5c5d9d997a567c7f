//! The `chunks` table.

use crate::errors::IndexerError;
use crate::hashes::CryptoHash;
use crate::models::{
    create_query_with_placeholders, query_text, ColumnValue, FieldCount, MySqlMethods, SqlArguments,
};
use crate::views::IndexerChunkView;
use vstd::prelude::*;

verus! {

/// One chunk of a block.
#[derive(Clone, Debug, PartialEq, Eq)]
pub struct Chunk {
    pub included_in_block_hash: String,
    pub chunk_hash: String,
    pub shard_id: u64,
    pub signature: String,
    pub gas_limit: u64,
    pub gas_used: u64,
    pub author_account_id: String,
}

impl View for Chunk {
    type V = Seq<ColumnValue>;

    open spec fn view(&self) -> Seq<ColumnValue> {
        seq![
            ColumnValue::Text(self.included_in_block_hash@),
            ColumnValue::Text(self.chunk_hash@),
            ColumnValue::Decimal(self.shard_id as nat),
            ColumnValue::Text(self.signature@),
            ColumnValue::Decimal(self.gas_limit as nat),
            ColumnValue::Decimal(self.gas_used as nat),
            ColumnValue::Text(self.author_account_id@),
        ]
    }
}

impl Chunk {
    /// The row of a chunk in the block with the given hash.
    pub open spec fn row_of(chunk_view: IndexerChunkView, block_hash: CryptoHash) -> Seq<
        ColumnValue,
    > {
        seq![
            ColumnValue::Text(block_hash.text()),
            ColumnValue::Text(chunk_view.header.chunk_hash.text()),
            ColumnValue::Decimal(chunk_view.header.shard_id as nat),
            ColumnValue::Text(chunk_view.header.signature@),
            ColumnValue::Decimal(chunk_view.header.gas_limit as nat),
            ColumnValue::Decimal(chunk_view.header.gas_used as nat),
            ColumnValue::Text(chunk_view.author@),
        ]
    }

    /// The record of a chunk in the block with the given hash.
    pub fn from_chunk_view(chunk_view: &IndexerChunkView, block_hash: &CryptoHash) -> (chunk: Chunk)
        ensures
            chunk@ == Chunk::row_of(*chunk_view, *block_hash),
    {
        Chunk {
            included_in_block_hash: block_hash.to_text(),
            chunk_hash: chunk_view.header.chunk_hash.to_text(),
            shard_id: chunk_view.header.shard_id,
            signature: chunk_view.header.signature.clone(),
            gas_limit: chunk_view.header.gas_limit,
            gas_used: chunk_view.header.gas_used,
            author_account_id: chunk_view.author.clone(),
        }
    }

    /// Binds the columns of the record behind what is bound already.
    pub fn add_to_args(&self, args: &mut SqlArguments)
        ensures
            final(args)@ == old(args)@ + self@,
    {
        args.add_text(&self.included_in_block_hash);
        args.add_text(&self.chunk_hash);
        args.add_decimal(self.shard_id as u128);
        args.add_text(&self.signature);
        args.add_decimal(self.gas_limit as u128);
        args.add_decimal(self.gas_used as u128);
        args.add_text(&self.author_account_id);
        assert(args@ =~= old(args)@ + self@);
    }

    /// The insert statement for `count` records of this table. An empty
    /// batch is bad input.
    pub fn get_query(count: usize) -> (made: Result<String, IndexerError>)
        ensures
            made is Err <==> count < 1,
            made matches Err(e) ==> e == IndexerError::BadInput,
            made matches Ok(text) ==> text@ == query_text(
                "INSERT IGNORE INTO chunks VALUES"@,
                count as nat,
                7,
            ),
    {
        create_query_with_placeholders(
            "INSERT IGNORE INTO chunks VALUES",
            count,
            Chunk::field_count(),
        )
    }
}

impl FieldCount for Chunk {
    open spec fn columns() -> nat {
        7
    }

    fn field_count() -> (count: usize) {
        7
    }
}

impl MySqlMethods for Chunk {
    open spec fn row(&self) -> Seq<ColumnValue> {
        self@
    }

    open spec fn statement_head() -> Seq<char> {
        "INSERT IGNORE INTO chunks VALUES"@
    }

    open spec fn table_name() -> Seq<char> {
        "chunks"@
    }

    proof fn row_is_complete(&self) {
    }

    fn add_to_args(&self, args: &mut SqlArguments) {
        Chunk::add_to_args(self, args)
    }

    fn get_query(count: usize) -> (made: Result<String, IndexerError>) {
        Chunk::get_query(count)
    }

    fn name() -> (table: String) {
        "chunks".to_owned()
    }
}

} // verus!
