//! The records of the index, one type per table, and the insert statements
//! that carry them.

pub mod access_keys;
pub mod account_changes;
pub mod accounts;
pub mod blocks;
pub mod chunks;
pub mod execution_outcomes;
pub mod receipts;
pub mod transactions;

use crate::errors::IndexerError;
use vstd::prelude::*;
use vstd::string::*;

verus! {

/// The value of one column in contracts.
pub enum ColumnValue {
    Text(Seq<char>),
    Integer(int),
    Decimal(nat),
    Bytes(Seq<u8>),
    Null,
}

/// The value bound to one parameter of a prepared statement.
#[derive(Clone, Debug, PartialEq, Eq)]
pub enum SqlValue {
    Text(String),
    Integer(i32),
    /// A height, an amount or a timestamp, stored as a decimal of any length.
    Decimal(u128),
    Bytes(Vec<u8>),
    Null,
}

impl View for SqlValue {
    type V = ColumnValue;

    open spec fn view(&self) -> ColumnValue {
        match self {
            SqlValue::Text(text) => ColumnValue::Text(text@),
            SqlValue::Integer(number) => ColumnValue::Integer(*number as int),
            SqlValue::Decimal(number) => ColumnValue::Decimal(*number as nat),
            SqlValue::Bytes(bytes) => ColumnValue::Bytes(bytes@),
            SqlValue::Null => ColumnValue::Null,
        }
    }
}

/// The parameters of a prepared statement, in the order of its placeholders.
#[derive(Clone, Debug, PartialEq, Eq)]
pub struct SqlArguments {
    pub values: Vec<SqlValue>,
}

impl View for SqlArguments {
    type V = Seq<ColumnValue>;

    open spec fn view(&self) -> Seq<ColumnValue> {
        Seq::new(self.values@.len(), |i: int| self.values@[i]@)
    }
}

impl SqlArguments {
    /// No parameters.
    pub fn new() -> (args: SqlArguments)
        ensures
            args@ == Seq::<ColumnValue>::empty(),
    {
        let args = SqlArguments { values: Vec::new() };
        assert(args@ =~= Seq::<ColumnValue>::empty());
        args
    }

    /// Binds one more parameter.
    pub fn add(&mut self, value: SqlValue)
        ensures
            final(self)@ == old(self)@.push(value@),
    {
        self.values.push(value);
        assert(self@ =~= old(self)@.push(value@));
    }

    /// Binds a text.
    pub fn add_text(&mut self, text: &String)
        ensures
            final(self)@ == old(self)@.push(ColumnValue::Text(text@)),
    {
        self.add(SqlValue::Text(text.clone()));
    }

    /// Binds a text, or null where there is none.
    pub fn add_optional_text(&mut self, text: &Option<String>)
        ensures
            final(self)@ == old(self)@.push(optional_text(*text)),
    {
        match text {
            Some(t) => self.add(SqlValue::Text(t.clone())),
            None => self.add(SqlValue::Null),
        }
    }

    /// Binds bytes, or null where there are none.
    pub fn add_optional_bytes(&mut self, bytes: &Option<Vec<u8>>)
        ensures
            final(self)@ == old(self)@.push(optional_bytes(*bytes)),
    {
        match bytes {
            Some(b) => self.add(SqlValue::Bytes(copy_bytes(b))),
            None => self.add(SqlValue::Null),
        }
    }

    /// Binds a height, or null where there is none.
    pub fn add_optional_decimal(&mut self, number: Option<u64>)
        ensures
            final(self)@ == old(self)@.push(optional_decimal(number)),
    {
        match number {
            Some(n) => self.add(SqlValue::Decimal(n as u128)),
            None => self.add(SqlValue::Null),
        }
    }

    /// Binds an index.
    pub fn add_integer(&mut self, number: i32)
        ensures
            final(self)@ == old(self)@.push(ColumnValue::Integer(number as int)),
    {
        self.add(SqlValue::Integer(number));
    }

    /// Binds a height, an amount or a timestamp.
    pub fn add_decimal(&mut self, number: u128)
        ensures
            final(self)@ == old(self)@.push(ColumnValue::Decimal(number as nat)),
    {
        self.add(SqlValue::Decimal(number));
    }

    /// The number of parameters bound so far.
    pub fn len(&self) -> (n: usize)
        ensures
            n == self@.len(),
    {
        self.values.len()
    }
}

/// A statement with its parameters, ready to be run.
#[derive(Clone, Debug, PartialEq, Eq)]
pub struct Statement {
    pub query: String,
    pub args: SqlArguments,
}

impl View for Statement {
    type V = (Seq<char>, Seq<ColumnValue>);

    open spec fn view(&self) -> (Seq<char>, Seq<ColumnValue>) {
        (self.query@, self.args@)
    }
}

/// A place in a chunk or a block, cut to the width of the column that holds
/// it.
pub fn index_column(index: usize) -> (column: i32)
    ensures
        column == index as i32,
{
    #[verifier::truncate]
    (index as i32)
}

/// The column for a text that may be missing.
pub open spec fn optional_text(text: Option<String>) -> ColumnValue {
    match text {
        Some(t) => ColumnValue::Text(t@),
        None => ColumnValue::Null,
    }
}

/// The column for bytes that may be missing.
pub open spec fn optional_bytes(bytes: Option<Vec<u8>>) -> ColumnValue {
    match bytes {
        Some(b) => ColumnValue::Bytes(b@),
        None => ColumnValue::Null,
    }
}

/// The column for a height that may be missing.
pub open spec fn optional_decimal(number: Option<u64>) -> ColumnValue {
    match number {
        Some(n) => ColumnValue::Decimal(n as nat),
        None => ColumnValue::Null,
    }
}

/// A copy of some bytes.
pub fn copy_bytes(bytes: &Vec<u8>) -> (copy: Vec<u8>)
    ensures
        copy@ == bytes@,
{
    let mut copy: Vec<u8> = Vec::new();
    let mut i: usize = 0;
    while i < bytes.len()
        invariant
            i <= bytes.len(),
            copy@ == bytes@.take(i as int),
        decreases bytes.len() - i,
    {
        copy.push(bytes[i]);
        i += 1;
        assert(copy@ =~= bytes@.take(i as int));
    }
    assert(copy@ =~= bytes@);
    copy
}

/// A copy of bytes that may be missing.
pub fn copy_optional_bytes(bytes: &Option<Vec<u8>>) -> (copy: Option<Vec<u8>>)
    ensures
        optional_bytes(copy) == optional_bytes(*bytes),
        copy is Some <==> bytes is Some,
{
    match bytes {
        Some(b) => Some(copy_bytes(b)),
        None => None,
    }
}

/// A text `n` times in a row.
pub open spec fn repeated(item: Seq<char>, n: nat) -> Seq<char>
    decreases n,
{
    if n == 0 {
        Seq::<char>::empty()
    } else {
        repeated(item, (n - 1) as nat) + item
    }
}

/// The placeholder group of one row: `(?, ?, ?)` for three fields.
pub open spec fn placeholder_text(fields_count: nat) -> Seq<char>
    recommends
        fields_count >= 1,
{
    "(?"@ + repeated(", ?"@, (fields_count - 1) as nat) + ")"@
}

/// A statement for `items_count` rows: its head, a space, and the rows'
/// placeholder groups separated by a comma and a space.
pub open spec fn query_text(head: Seq<char>, items_count: nat, fields_count: nat) -> Seq<char>
    recommends
        items_count >= 1,
        fields_count >= 1,
{
    head + " "@ + placeholder_text(fields_count) + repeated(
        ", "@ + placeholder_text(fields_count),
        (items_count - 1) as nat,
    )
}

/// Builds the placeholder group of one row. A record without fields is bad
/// input.
pub fn create_placeholder(fields_count: usize) -> (made: Result<String, IndexerError>)
    ensures
        made is Err <==> fields_count < 1,
        made matches Err(e) ==> e == IndexerError::BadInput,
        made matches Ok(text) ==> text@ == placeholder_text(fields_count as nat),
{
    if fields_count < 1 {
        return Err(IndexerError::BadInput);
    }
    let mut item = "(?".to_owned();
    let mut left = fields_count - 1;
    assert(item@ =~= "(?"@ + repeated(", ?"@, 0));
    while left > 0
        invariant
            left <= fields_count - 1,
            item@ == "(?"@ + repeated(", ?"@, (fields_count - 1 - left) as nat),
        decreases left,
    {
        item.append(", ?");
        left -= 1;
        assert(item@ =~= "(?"@ + repeated(", ?"@, (fields_count - 1 - left) as nat));
    }
    item.append(")");
    Ok(item)
}

/// Builds a statement for `items_count` rows of `fields_count` fields each
/// behind the given head. An empty batch and a record without fields are bad
/// input.
pub fn create_query_with_placeholders(
    query: &str,
    items_count: usize,
    fields_count: usize,
) -> (made: Result<String, IndexerError>)
    ensures
        made is Err <==> items_count < 1 || fields_count < 1,
        made matches Err(e) ==> e == IndexerError::BadInput,
        made matches Ok(text) ==> text@ == query_text(
            query@,
            items_count as nat,
            fields_count as nat,
        ),
{
    if items_count < 1 {
        return Err(IndexerError::BadInput);
    }
    let placeholder = match create_placeholder(fields_count) {
        Ok(text) => text,
        Err(e) => {
            return Err(e);
        },
    };
    let mut res = query.to_owned();
    res.append(" ");
    res.append(placeholder.as_str());
    let mut left = items_count - 1;
    let ghost group = ", "@ + placeholder@;
    assert(res@ =~= query@ + " "@ + placeholder@ + repeated(group, 0));
    while left > 0
        invariant
            left <= items_count - 1,
            group == ", "@ + placeholder@,
            res@ == query@ + " "@ + placeholder@ + repeated(
                group,
                (items_count - 1 - left) as nat,
            ),
        decreases left,
    {
        res.append(", ");
        res.append(placeholder.as_str());
        left -= 1;
        assert(res@ =~= query@ + " "@ + placeholder@ + repeated(
            group,
            (items_count - 1 - left) as nat,
        ));
    }
    Ok(res)
}

/// The number of columns of a record's table.
pub trait FieldCount {
    /// The number of columns in contracts.
    spec fn columns() -> nat;

    /// Get the number of fields on a struct.
    fn field_count() -> (count: usize)
        ensures
            count == Self::columns(),
            count >= 1,
    ;
}

/// What the writer needs of a record: its row, its statement and its table.
pub trait MySqlMethods: FieldCount + Sized {
    /// The values of the record's columns, in the order of the table.
    spec fn row(&self) -> Seq<ColumnValue>;

    /// The head of the insert statement for the record's table.
    spec fn statement_head() -> Seq<char>;

    /// The name of the record's table.
    spec fn table_name() -> Seq<char>;

    /// A row has one value for every column.
    proof fn row_is_complete(&self)
        ensures
            self.row().len() == Self::columns(),
    ;

    /// Binds the record's columns, in the order of the table, behind what is
    /// bound already.
    fn add_to_args(&self, args: &mut SqlArguments)
        ensures
            final(args)@ == old(args)@ + self.row(),
    ;

    /// The insert statement for `count` records. An empty batch is bad input.
    fn get_query(count: usize) -> (made: Result<String, IndexerError>)
        ensures
            made is Err <==> count < 1,
            made matches Err(e) ==> e == IndexerError::BadInput,
            made matches Ok(text) ==> text@ == query_text(
                Self::statement_head(),
                count as nat,
                Self::columns(),
            ),
    ;

    /// The name of the record's table.
    fn name() -> (table: String)
        ensures
            table@ == Self::table_name(),
    ;
}

/// What stands in the enum-typed column of a row is a label of the
/// column's set: the status of a transaction and of an execution outcome,
/// the kind of an action, the cause of an account change and the permission
/// of an access key.
pub proof fn lemma_enum_columns_are_closed(
    tx: crate::views::IndexerTransactionWithOutcome,
    outcome: crate::views::ExecutionOutcomeWithIdView,
    action: crate::views::ActionWithArgs,
    change: crate::views::StateChangeWithCauseView,
    permission: crate::views::AccessKeyPermissionView,
    hash: crate::hashes::CryptoHash,
    text: Seq<char>,
    number: u64,
    index: i32,
)
    requires
        change.cause.is_live(),
    ensures
        transactions::Transaction::row_of(tx, text, text, hash, hash, number, index)[10]
            matches ColumnValue::Text(label) && crate::enums::is_execution_status_label(label),
        execution_outcomes::ExecutionOutcome::row_of(outcome, index, number, number)[8]
            matches ColumnValue::Text(label) && crate::enums::is_execution_status_label(label),
        receipts::ActionReceiptAction::row_of(text, action, text, text, hash, number, index, index)[3]
            matches ColumnValue::Text(label) && crate::enums::is_action_kind_label(label),
        account_changes::AccountChange::row_of(change, hash, number, index)[4]
            matches ColumnValue::Text(label) && crate::enums::is_state_change_label(label),
        access_keys::AccessKeyView::added(text, text, permission, hash, number).row()[4]
            matches ColumnValue::Text(label) && crate::enums::is_permission_label(label),
        access_keys::AccessKeyView::deleted_only(text, text, hash, number).row()[4]
            matches ColumnValue::Text(label) && crate::enums::is_permission_label(label),
{
    crate::enums::lemma_labels_are_closed(
        tx.outcome.status,
        permission,
        crate::enums::ActionKind::of(action.action),
        change.cause.reason(),
    );
    crate::enums::lemma_labels_are_closed(
        outcome.status,
        crate::views::AccessKeyPermissionView::FullAccess,
        crate::enums::ActionKind::of(action.action),
        change.cause.reason(),
    );
}

/// Whether a statement head asks the database to skip rows that are there
/// already.
pub open spec fn ignores_duplicates(head: Seq<char>) -> bool {
    head.len() >= 18 && head.take(18) == "INSERT IGNORE INTO"@
}

/// The insert statement of every table skips rows that are there already,
/// so that a block can be written again.
pub proof fn lemma_every_insert_ignores_duplicates()
    ensures
        ignores_duplicates(<blocks::Block as MySqlMethods>::statement_head()),
        ignores_duplicates(<chunks::Chunk as MySqlMethods>::statement_head()),
        ignores_duplicates(<transactions::Transaction as MySqlMethods>::statement_head()),
        ignores_duplicates(<receipts::DataReceipt as MySqlMethods>::statement_head()),
        ignores_duplicates(<receipts::ActionReceipt as MySqlMethods>::statement_head()),
        ignores_duplicates(<receipts::ActionReceiptAction as MySqlMethods>::statement_head()),
        ignores_duplicates(<receipts::ActionReceiptsInput as MySqlMethods>::statement_head()),
        ignores_duplicates(<receipts::ActionReceiptsOutput as MySqlMethods>::statement_head()),
        ignores_duplicates(
            <execution_outcomes::ExecutionOutcome as MySqlMethods>::statement_head(),
        ),
        ignores_duplicates(
            <execution_outcomes::ExecutionOutcomeReceipt as MySqlMethods>::statement_head(),
        ),
        ignores_duplicates(<account_changes::AccountChange as MySqlMethods>::statement_head()),
        ignores_duplicates(<accounts::Account as MySqlMethods>::statement_head()),
        ignores_duplicates(<access_keys::AccessKey as MySqlMethods>::statement_head()),
{
    reveal_strlit("INSERT IGNORE INTO");
    reveal_strlit("INSERT IGNORE INTO blocks VALUES");
    reveal_strlit("INSERT IGNORE INTO chunks VALUES");
    reveal_strlit("INSERT IGNORE INTO transactions VALUES");
    reveal_strlit("INSERT IGNORE INTO data_receipts VALUES");
    reveal_strlit("INSERT IGNORE INTO action_receipts VALUES");
    reveal_strlit("INSERT IGNORE INTO action_receipts__actions VALUES");
    reveal_strlit("INSERT IGNORE INTO action_receipts__inputs VALUES");
    reveal_strlit("INSERT IGNORE INTO action_receipts__outputs VALUES");
    reveal_strlit("INSERT IGNORE INTO execution_outcomes VALUES");
    reveal_strlit("INSERT IGNORE INTO execution_outcomes__receipts VALUES");
    reveal_strlit("INSERT IGNORE INTO account_changes VALUES");
    reveal_strlit("INSERT IGNORE INTO accounts VALUES");
    reveal_strlit("INSERT IGNORE INTO access_keys VALUES");
    let mark = "INSERT IGNORE INTO"@;
    assert(<blocks::Block as MySqlMethods>::statement_head().take(18) =~= mark);
    assert(<chunks::Chunk as MySqlMethods>::statement_head().take(18) =~= mark);
    assert(<transactions::Transaction as MySqlMethods>::statement_head().take(18) =~= mark);
    assert(<receipts::DataReceipt as MySqlMethods>::statement_head().take(18) =~= mark);
    assert(<receipts::ActionReceipt as MySqlMethods>::statement_head().take(18) =~= mark);
    assert(<receipts::ActionReceiptAction as MySqlMethods>::statement_head().take(18) =~= mark);
    assert(<receipts::ActionReceiptsInput as MySqlMethods>::statement_head().take(18) =~= mark);
    assert(<receipts::ActionReceiptsOutput as MySqlMethods>::statement_head().take(18) =~= mark);
    assert(<execution_outcomes::ExecutionOutcome as MySqlMethods>::statement_head().take(18)
        =~= mark);
    assert(<execution_outcomes::ExecutionOutcomeReceipt as MySqlMethods>::statement_head().take(
        18,
    ) =~= mark);
    assert(<account_changes::AccountChange as MySqlMethods>::statement_head().take(18) =~= mark);
    assert(<accounts::Account as MySqlMethods>::statement_head().take(18) =~= mark);
    assert(<access_keys::AccessKey as MySqlMethods>::statement_head().take(18) =~= mark);
}

/// The rows of a run of records, one after the other.
pub open spec fn rows_of<T: MySqlMethods>(items: Seq<T>) -> Seq<ColumnValue>
    decreases items.len(),
{
    if items.len() == 0 {
        Seq::<ColumnValue>::empty()
    } else {
        rows_of(items.drop_last()) + items.last().row()
    }
}

} // verus!
