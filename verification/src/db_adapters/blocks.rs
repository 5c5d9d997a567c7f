//! The row of a block.

use crate::models::blocks::Block;
use crate::models::{query_text, SqlArguments, Statement};
use crate::views::BlockView;
use vstd::prelude::*;
use vstd::string::*;

verus! {

/// Builds the statement that inserts the one row of a block.
pub fn store_block(block: &BlockView) -> (statement: Statement)
    ensures
        statement.query@ == query_text("INSERT IGNORE INTO blocks VALUES"@, 1, 7),
        statement.args@ == Block::row_of(*block),
{
    let mut args = SqlArguments::new();
    Block::from_block_view(block).add_to_args(&mut args);
    assert(args@ =~= Block::row_of(*block));
    match Block::get_query(1) {
        Ok(query) => Statement { query, args },
        Err(_) => {
            // One row is no empty batch.
            assert(false);
            Statement { query: "".to_owned(), args }
        },
    }
}

} // verus!
