//! The `accounts` table.

use crate::errors::IndexerError;
use crate::hashes::CryptoHash;
use crate::models::{
    create_query_with_placeholders, query_text, ColumnValue, FieldCount, MySqlMethods, SqlArguments,
    Statement,
};
use crate::seqs::text_view;
use vstd::prelude::*;
use vstd::string::*;

verus! {

/// An account in contracts.
pub struct AccountView {
    pub account_id: Seq<char>,
    pub created_at_block_height: nat,
    pub deleted_at_block_height: Option<nat>,
    pub created_by_receipt_id: Option<Seq<char>>,
    pub deleted_by_receipt_id: Option<Seq<char>>,
}

/// An account: when and by which receipt it came to be, and when and by
/// which it went.
#[derive(Clone, Debug, PartialEq, Eq)]
pub struct Account {
    pub account_id: String,
    pub created_at_block_height: u64,
    pub deleted_at_block_height: Option<u64>,
    pub created_by_receipt_id: Option<String>,
    pub deleted_by_receipt_id: Option<String>,
}

impl View for Account {
    type V = AccountView;

    open spec fn view(&self) -> AccountView {
        AccountView {
            account_id: self.account_id@,
            created_at_block_height: self.created_at_block_height as nat,
            deleted_at_block_height: match self.deleted_at_block_height {
                Some(height) => Some(height as nat),
                None => None,
            },
            created_by_receipt_id: text_view(self.created_by_receipt_id),
            deleted_by_receipt_id: text_view(self.deleted_by_receipt_id),
        }
    }
}

/// The column of a text that may be missing.
pub open spec fn text_column(text: Option<Seq<char>>) -> ColumnValue {
    match text {
        Some(t) => ColumnValue::Text(t),
        None => ColumnValue::Null,
    }
}

/// The column of a height that may be missing.
pub open spec fn height_column(height: Option<nat>) -> ColumnValue {
    match height {
        Some(h) => ColumnValue::Decimal(h),
        None => ColumnValue::Null,
    }
}

impl AccountView {
    /// The values of the account's columns, in the order of the table.
    pub open spec fn row(self) -> Seq<ColumnValue> {
        seq![
            ColumnValue::Text(self.account_id),
            ColumnValue::Decimal(self.created_at_block_height),
            height_column(self.deleted_at_block_height),
            text_column(self.created_by_receipt_id),
            text_column(self.deleted_by_receipt_id),
        ]
    }

    /// The account as the receipt with the given id made it at a height.
    pub open spec fn created(
        account_id: Seq<char>,
        receipt_id: CryptoHash,
        height: u64,
    ) -> AccountView {
        AccountView {
            account_id,
            created_at_block_height: height as nat,
            deleted_at_block_height: None,
            created_by_receipt_id: Some(receipt_id.text()),
            deleted_by_receipt_id: None,
        }
    }

    /// The account with its deletion by the given receipt at a height noted.
    pub open spec fn marked_deleted(self, receipt_id: CryptoHash, height: u64) -> AccountView {
        AccountView {
            deleted_at_block_height: Some(height as nat),
            deleted_by_receipt_id: Some(receipt_id.text()),
            ..self
        }
    }

    /// What is known of an account of which a block only shows the deletion.
    pub open spec fn deleted_only(
        account_id: Seq<char>,
        receipt_id: CryptoHash,
        height: u64,
    ) -> AccountView {
        AccountView {
            account_id,
            created_at_block_height: 0,
            deleted_at_block_height: Some(height as nat),
            created_by_receipt_id: None,
            deleted_by_receipt_id: Some(receipt_id.text()),
        }
    }

    /// The parameters of the statement that notes the deletion of a stored
    /// account.
    pub open spec fn deletion_arguments(self) -> Seq<ColumnValue> {
        seq![
            height_column(self.deleted_at_block_height),
            text_column(self.deleted_by_receipt_id),
            ColumnValue::Text(self.account_id),
        ]
    }
}

/// The statement that notes the deletion of a stored account, unless a
/// deletion is noted there already.
pub open spec fn account_deletion_query() -> Seq<char> {
    "UPDATE accounts SET deleted_at_block_height = ?, deleted_by_receipt_id = ? WHERE account_id = ? AND deleted_by_receipt_id IS NULL"@
}

impl Account {
    /// The account that a receipt made at a height.
    pub fn new_from_receipt(
        account_id: &str,
        created_by_receipt_id: &CryptoHash,
        created_at_block_height: u64,
    ) -> (account: Account)
        ensures
            account@ == AccountView::created(
                account_id@,
                *created_by_receipt_id,
                created_at_block_height,
            ),
    {
        Account {
            account_id: account_id.to_owned(),
            created_at_block_height,
            deleted_at_block_height: None,
            created_by_receipt_id: Some(created_by_receipt_id.to_text()),
            deleted_by_receipt_id: None,
        }
    }

    /// What is known of an account of which a block only shows the deletion.
    pub fn new_deleted(
        account_id: &str,
        deleted_by_receipt_id: &CryptoHash,
        block_height: u64,
    ) -> (account: Account)
        ensures
            account@ == AccountView::deleted_only(account_id@, *deleted_by_receipt_id, block_height),
    {
        Account {
            account_id: account_id.to_owned(),
            created_at_block_height: 0,
            deleted_at_block_height: Some(block_height),
            created_by_receipt_id: None,
            deleted_by_receipt_id: Some(deleted_by_receipt_id.to_text()),
        }
    }

    /// The account with its deletion by the given receipt at a height noted.
    pub fn with_deletion(
        &self,
        deleted_by_receipt_id: &CryptoHash,
        block_height: u64,
    ) -> (account: Account)
        ensures
            account@ == self@.marked_deleted(*deleted_by_receipt_id, block_height),
    {
        Account {
            account_id: self.account_id.clone(),
            created_at_block_height: self.created_at_block_height,
            deleted_at_block_height: Some(block_height),
            created_by_receipt_id: match &self.created_by_receipt_id {
                Some(id) => Some(id.clone()),
                None => None,
            },
            deleted_by_receipt_id: Some(deleted_by_receipt_id.to_text()),
        }
    }

    /// A copy of the account.
    pub fn duplicate(&self) -> (account: Account)
        ensures
            account@ == self@,
    {
        Account {
            account_id: self.account_id.clone(),
            created_at_block_height: self.created_at_block_height,
            deleted_at_block_height: self.deleted_at_block_height,
            created_by_receipt_id: match &self.created_by_receipt_id {
                Some(id) => Some(id.clone()),
                None => None,
            },
            deleted_by_receipt_id: match &self.deleted_by_receipt_id {
                Some(id) => Some(id.clone()),
                None => None,
            },
        }
    }

    /// Binds the columns of the account behind what is bound already.
    pub fn add_to_args(&self, args: &mut SqlArguments)
        ensures
            final(args)@ == old(args)@ + self@.row(),
    {
        args.add_text(&self.account_id);
        args.add_decimal(self.created_at_block_height as u128);
        args.add_optional_decimal(self.deleted_at_block_height);
        args.add_optional_text(&self.created_by_receipt_id);
        args.add_optional_text(&self.deleted_by_receipt_id);
        assert(args@ =~= old(args)@ + self@.row());
    }

    /// The insert statement for `count` accounts. An empty batch is bad
    /// input.
    pub fn get_query(count: usize) -> (made: Result<String, IndexerError>)
        ensures
            made is Err <==> count < 1,
            made matches Err(e) ==> e == IndexerError::BadInput,
            made matches Ok(text) ==> text@ == query_text(
                "INSERT IGNORE INTO accounts VALUES"@,
                count as nat,
                5,
            ),
    {
        create_query_with_placeholders(
            "INSERT IGNORE INTO accounts VALUES",
            count,
            Account::field_count(),
        )
    }

    /// The statement that notes the deletion of the account in its stored
    /// row, unless a deletion is noted there already.
    pub fn deletion_statement(&self) -> (statement: Statement)
        ensures
            statement.query@ == account_deletion_query(),
            statement.args@ == self@.deletion_arguments(),
    {
        let mut args = SqlArguments::new();
        args.add_optional_decimal(self.deleted_at_block_height);
        args.add_optional_text(&self.deleted_by_receipt_id);
        args.add_text(&self.account_id);
        assert(args@ =~= self@.deletion_arguments());
        Statement {
            query: "UPDATE accounts SET deleted_at_block_height = ?, deleted_by_receipt_id = ? WHERE account_id = ? AND deleted_by_receipt_id IS NULL".to_owned(),
            args,
        }
    }
}

impl FieldCount for Account {
    open spec fn columns() -> nat {
        5
    }

    fn field_count() -> (count: usize) {
        5
    }
}

impl MySqlMethods for Account {
    open spec fn row(&self) -> Seq<ColumnValue> {
        self@.row()
    }

    open spec fn statement_head() -> Seq<char> {
        "INSERT IGNORE INTO accounts VALUES"@
    }

    open spec fn table_name() -> Seq<char> {
        "accounts"@
    }

    proof fn row_is_complete(&self) {
    }

    fn add_to_args(&self, args: &mut SqlArguments) {
        Account::add_to_args(self, args)
    }

    fn get_query(count: usize) -> (made: Result<String, IndexerError>) {
        Account::get_query(count)
    }

    fn name() -> (table: String) {
        "accounts".to_owned()
    }
}

} // verus!
