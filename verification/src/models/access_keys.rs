//! The `access_keys` table.

use crate::enums::is_permission_label;
use crate::errors::IndexerError;
use crate::hashes::CryptoHash;
use crate::models::accounts::text_column;
use crate::models::{
    create_query_with_placeholders, query_text, ColumnValue, FieldCount, MySqlMethods, SqlArguments,
    Statement,
};
use crate::seqs::text_view;
use crate::views::AccessKeyPermissionView;
use vstd::prelude::*;
use vstd::string::*;

verus! {

/// An access key in contracts.
pub struct AccessKeyView {
    pub public_key: Seq<char>,
    pub account_id: Seq<char>,
    pub created_by_receipt_id: Option<Seq<char>>,
    pub deleted_by_receipt_id: Option<Seq<char>>,
    pub permission_kind: Seq<char>,
    pub last_update_block_height: nat,
}

/// A key that may sign for an account: which receipt added it, which
/// deleted it, and in which block it was last touched.
#[derive(Clone, Debug, PartialEq, Eq)]
pub struct AccessKey {
    pub public_key: String,
    pub account_id: String,
    pub created_by_receipt_id: Option<String>,
    pub deleted_by_receipt_id: Option<String>,
    /// One of the access key permission labels.
    pub permission_kind: String,
    pub last_update_block_height: u64,
}

impl View for AccessKey {
    type V = AccessKeyView;

    open spec fn view(&self) -> AccessKeyView {
        AccessKeyView {
            public_key: self.public_key@,
            account_id: self.account_id@,
            created_by_receipt_id: text_view(self.created_by_receipt_id),
            deleted_by_receipt_id: text_view(self.deleted_by_receipt_id),
            permission_kind: self.permission_kind@,
            last_update_block_height: self.last_update_block_height as nat,
        }
    }
}

/// The statement that brings the stored row of an inserted key up to date,
/// unless a later block has touched it.
pub open spec fn access_key_refresh_query() -> Seq<char> {
    "UPDATE access_keys SET created_by_receipt_id = ?, deleted_by_receipt_id = ?, last_update_block_height = ? WHERE public_key = ? AND last_update_block_height < ? AND account_id = ?"@
}

/// The statement that notes the deletion of a stored key, unless a later
/// block has touched it.
pub open spec fn access_key_deletion_query() -> Seq<char> {
    "UPDATE access_keys SET deleted_by_receipt_id = ?, last_update_block_height = ? WHERE public_key = ? AND last_update_block_height < ? AND account_id = ?"@
}

/// The statement that notes the deletion of all stored keys of an account
/// that are not deleted yet and that no later block has touched.
pub open spec fn account_keys_deletion_query() -> Seq<char> {
    "UPDATE access_keys SET deleted_by_receipt_id = ?, last_update_block_height = ? WHERE deleted_by_receipt_id IS NULL AND last_update_block_height < ? AND account_id = ?"@
}

/// The parameters of the statement that notes the deletion of all keys of
/// an account.
pub open spec fn account_keys_deletion_arguments(
    account_id: Seq<char>,
    deleted_by_receipt_id: Seq<char>,
    block_height: u64,
) -> Seq<ColumnValue> {
    seq![
        ColumnValue::Text(deleted_by_receipt_id),
        ColumnValue::Decimal(block_height as nat),
        ColumnValue::Decimal(block_height as nat),
        ColumnValue::Text(account_id),
    ]
}

/// The statement that notes the deletion of all stored keys of an account.
pub fn account_keys_deletion_statement(
    account_id: &String,
    deleted_by_receipt_id: &String,
    block_height: u64,
) -> (statement: Statement)
    ensures
        statement.query@ == account_keys_deletion_query(),
        statement.args@ == account_keys_deletion_arguments(
            account_id@,
            deleted_by_receipt_id@,
            block_height,
        ),
{
    let mut args = SqlArguments::new();
    args.add_text(deleted_by_receipt_id);
    args.add_decimal(block_height as u128);
    args.add_decimal(block_height as u128);
    args.add_text(account_id);
    assert(args@ =~= account_keys_deletion_arguments(
        account_id@,
        deleted_by_receipt_id@,
        block_height,
    ));
    Statement {
        query: "UPDATE access_keys SET deleted_by_receipt_id = ?, last_update_block_height = ? WHERE deleted_by_receipt_id IS NULL AND last_update_block_height < ? AND account_id = ?".to_owned(),
        args,
    }
}

impl AccessKeyView {
    /// The values of the key's columns, in the order of the table.
    pub open spec fn row(self) -> Seq<ColumnValue> {
        seq![
            ColumnValue::Text(self.public_key),
            ColumnValue::Text(self.account_id),
            text_column(self.created_by_receipt_id),
            text_column(self.deleted_by_receipt_id),
            ColumnValue::Text(self.permission_kind),
            ColumnValue::Decimal(self.last_update_block_height),
        ]
    }

    /// The key as the receipt with the given id added it at a height.
    pub open spec fn added(
        public_key: Seq<char>,
        account_id: Seq<char>,
        permission: AccessKeyPermissionView,
        receipt_id: CryptoHash,
        height: u64,
    ) -> AccessKeyView {
        AccessKeyView {
            public_key,
            account_id,
            created_by_receipt_id: Some(receipt_id.text()),
            deleted_by_receipt_id: None,
            permission_kind: permission.label(),
            last_update_block_height: height as nat,
        }
    }

    /// The key with its deletion by the given receipt noted.
    pub open spec fn marked_deleted(self, receipt_id: CryptoHash) -> AccessKeyView {
        AccessKeyView { deleted_by_receipt_id: Some(receipt_id.text()), ..self }
    }

    /// What is known of a key of which a block only shows the deletion. The
    /// permission is not known then; the stored one is left alone, and the
    /// record carries full access in its place.
    pub open spec fn deleted_only(
        public_key: Seq<char>,
        account_id: Seq<char>,
        receipt_id: CryptoHash,
        height: u64,
    ) -> AccessKeyView {
        AccessKeyView {
            public_key,
            account_id,
            created_by_receipt_id: None,
            deleted_by_receipt_id: Some(receipt_id.text()),
            permission_kind: AccessKeyPermissionView::FullAccess.label(),
            last_update_block_height: height as nat,
        }
    }

    /// The parameters of the statement that brings the stored row of an
    /// inserted key up to date.
    pub open spec fn refresh_arguments(self) -> Seq<ColumnValue> {
        seq![
            text_column(self.created_by_receipt_id),
            text_column(self.deleted_by_receipt_id),
            ColumnValue::Decimal(self.last_update_block_height),
            ColumnValue::Text(self.public_key),
            ColumnValue::Decimal(self.last_update_block_height),
            ColumnValue::Text(self.account_id),
        ]
    }

    /// The parameters of the statement that notes the deletion of a stored
    /// key.
    pub open spec fn deletion_arguments(self) -> Seq<ColumnValue> {
        seq![
            text_column(self.deleted_by_receipt_id),
            ColumnValue::Decimal(self.last_update_block_height),
            ColumnValue::Text(self.public_key),
            ColumnValue::Decimal(self.last_update_block_height),
            ColumnValue::Text(self.account_id),
        ]
    }
}

/// A copy of a text that may be missing.
pub fn copy_optional_text(text: &Option<String>) -> (copy: Option<String>)
    ensures
        text_view(copy) == text_view(*text),
{
    match text {
        Some(t) => Some(t.clone()),
        None => None,
    }
}

impl AccessKey {
    /// The key that a receipt added to an account at a height.
    pub fn from_action_view(
        public_key: &str,
        account_id: &str,
        permission: &AccessKeyPermissionView,
        create_by_receipt_id: &CryptoHash,
        last_update_block_height: u64,
    ) -> (key: AccessKey)
        ensures
            key@ == AccessKeyView::added(
                public_key@,
                account_id@,
                *permission,
                *create_by_receipt_id,
                last_update_block_height,
            ),
            is_permission_label(key.permission_kind@),
    {
        AccessKey {
            public_key: public_key.to_owned(),
            account_id: account_id.to_owned(),
            created_by_receipt_id: Some(create_by_receipt_id.to_text()),
            deleted_by_receipt_id: None,
            permission_kind: permission.print().to_owned(),
            last_update_block_height,
        }
    }

    /// What is known of a key of which a block only shows the deletion.
    pub fn new_deleted(
        public_key: &str,
        account_id: &str,
        deleted_by_receipt_id: &CryptoHash,
        last_update_block_height: u64,
    ) -> (key: AccessKey)
        ensures
            key@ == AccessKeyView::deleted_only(
                public_key@,
                account_id@,
                *deleted_by_receipt_id,
                last_update_block_height,
            ),
            is_permission_label(key.permission_kind@),
    {
        AccessKey {
            public_key: public_key.to_owned(),
            account_id: account_id.to_owned(),
            created_by_receipt_id: None,
            deleted_by_receipt_id: Some(deleted_by_receipt_id.to_text()),
            permission_kind: AccessKeyPermissionView::FullAccess.print().to_owned(),
            last_update_block_height,
        }
    }

    /// The key with its deletion by the given receipt noted.
    pub fn with_deletion(&self, deleted_by_receipt_id: &CryptoHash) -> (key: AccessKey)
        ensures
            key@ == self@.marked_deleted(*deleted_by_receipt_id),
    {
        AccessKey {
            public_key: self.public_key.clone(),
            account_id: self.account_id.clone(),
            created_by_receipt_id: copy_optional_text(&self.created_by_receipt_id),
            deleted_by_receipt_id: Some(deleted_by_receipt_id.to_text()),
            permission_kind: self.permission_kind.clone(),
            last_update_block_height: self.last_update_block_height,
        }
    }

    /// A copy of the key.
    pub fn duplicate(&self) -> (key: AccessKey)
        ensures
            key@ == self@,
    {
        AccessKey {
            public_key: self.public_key.clone(),
            account_id: self.account_id.clone(),
            created_by_receipt_id: copy_optional_text(&self.created_by_receipt_id),
            deleted_by_receipt_id: copy_optional_text(&self.deleted_by_receipt_id),
            permission_kind: self.permission_kind.clone(),
            last_update_block_height: self.last_update_block_height,
        }
    }

    /// Binds the columns of the key behind what is bound already.
    pub fn add_to_args(&self, args: &mut SqlArguments)
        ensures
            final(args)@ == old(args)@ + self@.row(),
    {
        args.add_text(&self.public_key);
        args.add_text(&self.account_id);
        args.add_optional_text(&self.created_by_receipt_id);
        args.add_optional_text(&self.deleted_by_receipt_id);
        args.add_text(&self.permission_kind);
        args.add_decimal(self.last_update_block_height as u128);
        assert(args@ =~= old(args)@ + self@.row());
    }

    /// The insert statement for `count` keys. An empty batch is bad input.
    pub fn get_query(count: usize) -> (made: Result<String, IndexerError>)
        ensures
            made is Err <==> count < 1,
            made matches Err(e) ==> e == IndexerError::BadInput,
            made matches Ok(text) ==> text@ == query_text(
                "INSERT IGNORE INTO access_keys VALUES"@,
                count as nat,
                6,
            ),
    {
        create_query_with_placeholders(
            "INSERT IGNORE INTO access_keys VALUES",
            count,
            AccessKey::field_count(),
        )
    }

    /// The statement that brings the stored row of the key up to date after
    /// its insert, unless a later block has touched the row.
    pub fn refresh_statement(&self) -> (statement: Statement)
        ensures
            statement.query@ == access_key_refresh_query(),
            statement.args@ == self@.refresh_arguments(),
    {
        let mut args = SqlArguments::new();
        args.add_optional_text(&self.created_by_receipt_id);
        args.add_optional_text(&self.deleted_by_receipt_id);
        args.add_decimal(self.last_update_block_height as u128);
        args.add_text(&self.public_key);
        args.add_decimal(self.last_update_block_height as u128);
        args.add_text(&self.account_id);
        assert(args@ =~= self@.refresh_arguments());
        Statement {
            query: "UPDATE access_keys SET created_by_receipt_id = ?, deleted_by_receipt_id = ?, last_update_block_height = ? WHERE public_key = ? AND last_update_block_height < ? AND account_id = ?".to_owned(),
            args,
        }
    }

    /// The statement that notes the deletion of the key in its stored row,
    /// unless a later block has touched the row.
    pub fn deletion_statement(&self) -> (statement: Statement)
        ensures
            statement.query@ == access_key_deletion_query(),
            statement.args@ == self@.deletion_arguments(),
    {
        let mut args = SqlArguments::new();
        args.add_optional_text(&self.deleted_by_receipt_id);
        args.add_decimal(self.last_update_block_height as u128);
        args.add_text(&self.public_key);
        args.add_decimal(self.last_update_block_height as u128);
        args.add_text(&self.account_id);
        assert(args@ =~= self@.deletion_arguments());
        Statement {
            query: "UPDATE access_keys SET deleted_by_receipt_id = ?, last_update_block_height = ? WHERE public_key = ? AND last_update_block_height < ? AND account_id = ?".to_owned(),
            args,
        }
    }
}

impl FieldCount for AccessKey {
    open spec fn columns() -> nat {
        6
    }

    fn field_count() -> (count: usize) {
        6
    }
}

impl MySqlMethods for AccessKey {
    open spec fn row(&self) -> Seq<ColumnValue> {
        self@.row()
    }

    open spec fn statement_head() -> Seq<char> {
        "INSERT IGNORE INTO access_keys VALUES"@
    }

    open spec fn table_name() -> Seq<char> {
        "access_keys"@
    }

    proof fn row_is_complete(&self) {
    }

    fn add_to_args(&self, args: &mut SqlArguments) {
        AccessKey::add_to_args(self, args)
    }

    fn get_query(count: usize) -> (made: Result<String, IndexerError>) {
        AccessKey::get_query(count)
    }

    fn name() -> (table: String) {
        "access_keys".to_owned()
    }
}

} // verus!
