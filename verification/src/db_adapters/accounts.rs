//! Accounts that the receipts of a block create and delete.

use crate::models::accounts::{Account, AccountView};
use crate::models::Statement;
use crate::seqs::{kept, lemma_kept_holds, views_of};
use crate::text::{implicit_account_key, is_implicit_account};
use crate::views::{
    ActionView, ActionWithArgs, IndexerExecutionOutcomeWithReceipt, ReceiptEnumView, ReceiptView,
};
use vstd::prelude::*;

verus! {

/// Whether an account with the id is among the accounts.
pub open spec fn has_account(accounts: Seq<AccountView>, account_id: Seq<char>) -> bool {
    exists|i: int| 0 <= i < accounts.len() && (#[trigger] accounts[i]).account_id == account_id
}

/// The place of the first account with the id, where there is one.
pub open spec fn account_index(accounts: Seq<AccountView>, account_id: Seq<char>) -> int {
    choose|i: int|
        0 <= i < accounts.len() && (#[trigger] accounts[i]).account_id == account_id && forall|
            j: int,
        |
            0 <= j < i ==> (#[trigger] accounts[j]).account_id != account_id
}

/// The accounts with one put in: in the place of the one with its id, or
/// behind the others.
pub open spec fn put_account(accounts: Seq<AccountView>, account: AccountView) -> Seq<AccountView> {
    if has_account(accounts, account.account_id) {
        accounts.update(account_index(accounts, account.account_id), account)
    } else {
        accounts.push(account)
    }
}

/// The accounts after one action of a receipt that succeeded in a block of
/// the given height. A created account and an implicit account that
/// receives a transfer are put in; a deletion is noted in the account that
/// is there, or put in alone.
pub open spec fn apply_action(
    accounts: Seq<AccountView>,
    receipt: ReceiptView,
    action: ActionView,
    block_height: u64,
) -> Seq<AccountView> {
    let account_id = receipt.receiver_id@;
    match action {
        ActionView::CreateAccount => put_account(
            accounts,
            AccountView::created(account_id, receipt.receipt_id, block_height),
        ),
        ActionView::Transfer => if is_implicit_account(account_id) {
            put_account(accounts, AccountView::created(account_id, receipt.receipt_id, block_height))
        } else {
            accounts
        },
        ActionView::DeleteAccount => if has_account(accounts, account_id) {
            let i = account_index(accounts, account_id);
            accounts.update(i, accounts[i].marked_deleted(receipt.receipt_id, block_height))
        } else {
            accounts.push(AccountView::deleted_only(account_id, receipt.receipt_id, block_height))
        },
        _ => accounts,
    }
}

/// The accounts after the first `n` actions of a receipt.
pub open spec fn apply_actions(
    accounts: Seq<AccountView>,
    receipt: ReceiptView,
    actions: Seq<ActionWithArgs>,
    n: nat,
    block_height: u64,
) -> Seq<AccountView>
    recommends
        n <= actions.len(),
    decreases n,
{
    if n == 0 {
        accounts
    } else {
        apply_action(
            apply_actions(accounts, receipt, actions, (n - 1) as nat, block_height),
            receipt,
            actions[n - 1].action,
            block_height,
        )
    }
}

/// The accounts after one outcome: the actions of its receipt count where
/// the execution succeeded.
pub open spec fn apply_outcome(
    accounts: Seq<AccountView>,
    outcome: IndexerExecutionOutcomeWithReceipt,
    block_height: u64,
) -> Seq<AccountView> {
    if outcome.execution_outcome.status.succeeded() && outcome.receipt.receipt is Action {
        let actions = outcome.receipt.receipt->Action_actions@;
        apply_actions(accounts, outcome.receipt, actions, actions.len(), block_height)
    } else {
        accounts
    }
}

/// The accounts that the first `n` outcomes of a block touch, in the order
/// in which they were first touched.
pub open spec fn accounts_after(
    outcomes: Seq<IndexerExecutionOutcomeWithReceipt>,
    n: nat,
    block_height: u64,
) -> Seq<AccountView>
    recommends
        n <= outcomes.len(),
    decreases n,
{
    if n == 0 {
        Seq::<AccountView>::empty()
    } else {
        apply_outcome(
            accounts_after(outcomes, (n - 1) as nat, block_height),
            outcomes[n - 1],
            block_height,
        )
    }
}

/// The test of an account that a receipt of the block created.
pub open spec fn is_created() -> spec_fn(AccountView) -> bool {
    |account: AccountView| account.created_by_receipt_id is Some
}

/// The test of an account of which the block only shows the deletion.
pub open spec fn is_deleted_only() -> spec_fn(AccountView) -> bool {
    |account: AccountView| account.created_by_receipt_id is None
}

/// Where an account with the id is among the first `n`, one of them is the
/// first.
proof fn lemma_first_account_exists(accounts: Seq<AccountView>, account_id: Seq<char>, n: nat)
    requires
        n <= accounts.len(),
        exists|i: int| 0 <= i < n && (#[trigger] accounts[i]).account_id == account_id,
    ensures
        exists|i: int|
            0 <= i < n && (#[trigger] accounts[i]).account_id == account_id && forall|j: int|
                0 <= j < i ==> (#[trigger] accounts[j]).account_id != account_id,
    decreases n,
{
    if exists|i: int| 0 <= i < n - 1 && (#[trigger] accounts[i]).account_id == account_id {
        lemma_first_account_exists(accounts, account_id, (n - 1) as nat);
        let first = choose|i: int|
            0 <= i < n - 1 && (#[trigger] accounts[i]).account_id == account_id && forall|j: int|
                0 <= j < i ==> (#[trigger] accounts[j]).account_id != account_id;
        assert(0 <= first < n && accounts[first].account_id == account_id);
    } else {
        let last = n - 1;
        assert(accounts[last].account_id == account_id);
    }
}

/// The place of an account that is there is the first with its id.
pub proof fn lemma_account_index(accounts: Seq<AccountView>, account_id: Seq<char>)
    requires
        has_account(accounts, account_id),
    ensures
        0 <= account_index(accounts, account_id) < accounts.len(),
        accounts[account_index(accounts, account_id)].account_id == account_id,
        forall|j: int|
            0 <= j < account_index(accounts, account_id) ==> (#[trigger] accounts[j]).account_id
                != account_id,
{
    lemma_first_account_exists(accounts, account_id, accounts.len());
}

/// Whether each account is still there, in its place, and still has the
/// receipt that created it where it had one.
pub open spec fn keeps_created(before: Seq<AccountView>, after: Seq<AccountView>) -> bool {
    &&& before.len() <= after.len()
    &&& forall|i: int|
        0 <= i < before.len() ==> (#[trigger] after[i]).account_id == before[i].account_id && (
        before[i].created_by_receipt_id is Some ==> after[i].created_by_receipt_id is Some)
}

/// Whether an account with the id is there that a receipt of the block
/// created.
pub open spec fn has_created(accounts: Seq<AccountView>, account_id: Seq<char>) -> bool {
    exists|i: int|
        0 <= i < accounts.len() && (#[trigger] accounts[i]).account_id == account_id
            && accounts[i].created_by_receipt_id is Some
}

/// No action takes an account away, or the receipt that created it.
pub proof fn lemma_action_keeps_created(
    accounts: Seq<AccountView>,
    receipt: ReceiptView,
    action: ActionView,
    block_height: u64,
)
    ensures
        keeps_created(accounts, apply_action(accounts, receipt, action, block_height)),
{
    if has_account(accounts, receipt.receiver_id@) {
        lemma_account_index(accounts, receipt.receiver_id@);
    }
}

/// No run of actions takes an account away, or the receipt that created it.
pub proof fn lemma_actions_keep_created(
    accounts: Seq<AccountView>,
    receipt: ReceiptView,
    actions: Seq<ActionWithArgs>,
    m: nat,
    n: nat,
    block_height: u64,
)
    requires
        m <= n <= actions.len(),
    ensures
        keeps_created(
            apply_actions(accounts, receipt, actions, m, block_height),
            apply_actions(accounts, receipt, actions, n, block_height),
        ),
    decreases n - m,
{
    if m < n {
        lemma_actions_keep_created(accounts, receipt, actions, m, (n - 1) as nat, block_height);
        lemma_action_keeps_created(
            apply_actions(accounts, receipt, actions, (n - 1) as nat, block_height),
            receipt,
            actions[n - 1].action,
            block_height,
        );
    }
}

/// No run of outcomes takes an account away, or the receipt that created
/// it.
pub proof fn lemma_outcomes_keep_created(
    outcomes: Seq<IndexerExecutionOutcomeWithReceipt>,
    m: nat,
    n: nat,
    block_height: u64,
)
    requires
        m <= n <= outcomes.len(),
    ensures
        keeps_created(
            accounts_after(outcomes, m, block_height),
            accounts_after(outcomes, n, block_height),
        ),
    decreases n - m,
{
    if m < n {
        lemma_outcomes_keep_created(outcomes, m, (n - 1) as nat, block_height);
        let before = accounts_after(outcomes, (n - 1) as nat, block_height);
        let outcome = outcomes[n - 1];
        if outcome.execution_outcome.status.succeeded() && outcome.receipt.receipt is Action {
            let actions = outcome.receipt.receipt->Action_actions@;
            lemma_actions_keep_created(
                before,
                outcome.receipt,
                actions,
                0,
                actions.len(),
                block_height,
            );
        }
    }
}

/// A transfer to an implicit account puts the account in as created by the
/// receipt of the transfer in its block.
pub proof fn lemma_transfer_creates_implicit_account(
    accounts: Seq<AccountView>,
    receipt: ReceiptView,
    block_height: u64,
)
    requires
        is_implicit_account(receipt.receiver_id@),
    ensures
        has_account(
            apply_action(accounts, receipt, ActionView::Transfer, block_height),
            receipt.receiver_id@,
        ),
        apply_action(accounts, receipt, ActionView::Transfer, block_height)[account_index(
            apply_action(accounts, receipt, ActionView::Transfer, block_height),
            receipt.receiver_id@,
        )] == AccountView::created(receipt.receiver_id@, receipt.receipt_id, block_height),
        has_created(
            apply_action(accounts, receipt, ActionView::Transfer, block_height),
            receipt.receiver_id@,
        ),
{
    let account_id = receipt.receiver_id@;
    let made = AccountView::created(account_id, receipt.receipt_id, block_height);
    let after = apply_action(accounts, receipt, ActionView::Transfer, block_height);
    if has_account(accounts, account_id) {
        lemma_account_index(accounts, account_id);
        let i = account_index(accounts, account_id);
        assert(after[i] == made);
        lemma_account_index(after, account_id);
        let k = account_index(after, account_id);
        if k < i {
            assert(after[k] == accounts[k]);
        }
    } else {
        let i = accounts.len() as int;
        assert(after[i] == made);
        lemma_account_index(after, account_id);
        let k = account_index(after, account_id);
        if k < i {
            assert(after[k] == accounts[k]);
        }
    }
}

/// A block in which a successful receipt transfers to an implicit account
/// inserts that account: among the accounts to insert is one with the name
/// of the receiver, created by a receipt of the block.
pub proof fn lemma_implicit_account_is_inserted(
    outcomes: Seq<IndexerExecutionOutcomeWithReceipt>,
    block_height: u64,
    i: int,
    j: int,
)
    requires
        0 <= i < outcomes.len(),
        outcomes[i].execution_outcome.status.succeeded(),
        outcomes[i].receipt.receipt is Action,
        0 <= j < outcomes[i].receipt.receipt->Action_actions@.len(),
        outcomes[i].receipt.receipt->Action_actions@[j].action is Transfer,
        is_implicit_account(outcomes[i].receipt.receiver_id@),
    ensures
        exists|k: int|
            0 <= k < kept(
                accounts_after(outcomes, outcomes.len(), block_height),
                is_created(),
                accounts_after(outcomes, outcomes.len(), block_height).len(),
            ).len() && (#[trigger] kept(
                accounts_after(outcomes, outcomes.len(), block_height),
                is_created(),
                accounts_after(outcomes, outcomes.len(), block_height).len(),
            )[k]).account_id == outcomes[i].receipt.receiver_id@ && kept(
                accounts_after(outcomes, outcomes.len(), block_height),
                is_created(),
                accounts_after(outcomes, outcomes.len(), block_height).len(),
            )[k].created_by_receipt_id is Some,
{
    let receipt = outcomes[i].receipt;
    let account_id = receipt.receiver_id@;
    let actions = receipt.receipt->Action_actions@;
    let start = accounts_after(outcomes, i as nat, block_height);
    let before = apply_actions(start, receipt, actions, j as nat, block_height);
    let stepped = apply_actions(start, receipt, actions, (j + 1) as nat, block_height);
    let shard_done = accounts_after(outcomes, (i + 1) as nat, block_height);
    let all = accounts_after(outcomes, outcomes.len(), block_height);
    lemma_transfer_creates_implicit_account(before, receipt, block_height);
    assert(stepped == apply_action(before, receipt, ActionView::Transfer, block_height));
    let at = choose|at: int|
        0 <= at < stepped.len() && (#[trigger] stepped[at]).account_id == account_id
            && stepped[at].created_by_receipt_id is Some;
    lemma_actions_keep_created(
        start,
        receipt,
        actions,
        (j + 1) as nat,
        actions.len(),
        block_height,
    );
    assert(shard_done == apply_actions(start, receipt, actions, actions.len(), block_height));
    lemma_outcomes_keep_created(outcomes, (i + 1) as nat, outcomes.len(), block_height);
    assert(shard_done[at].account_id == account_id);
    assert(all[at].account_id == account_id && all[at].created_by_receipt_id is Some);
    lemma_kept_holds(all, is_created(), all.len(), at);
}

/// What a block does to the accounts table.
#[derive(Clone, Debug, PartialEq, Eq)]
pub struct AccountChanges {
    /// Accounts that the block created, some of them deleted again.
    pub new_accounts_to_insert: Vec<Account>,
    /// Accounts that were there before and that the block deleted.
    pub existing_accounts_to_update: Vec<Account>,
}

/// The place of the first account with the id.
fn find_account(accounts: &Vec<Account>, account_id: &String) -> (found: Option<usize>)
    ensures
        found is Some <==> has_account(views_of(accounts@), account_id@),
        found matches Some(i) ==> i < accounts.len() && i == account_index(
            views_of(accounts@),
            account_id@,
        ),
{
    let ghost all = views_of(accounts@);
    let mut i: usize = 0;
    while i < accounts.len()
        invariant
            i <= accounts.len(),
            all == views_of(accounts@),
            forall|j: int| 0 <= j < i ==> (#[trigger] all[j]).account_id != account_id@,
        decreases accounts.len() - i,
    {
        if accounts[i].account_id == *account_id {
            proof {
                assert(all[i as int].account_id == account_id@);
                let k = account_index(all, account_id@);
                assert(0 <= k < all.len() && all[k].account_id == account_id@ && forall|j: int|
                    0 <= j < k ==> (#[trigger] all[j]).account_id != account_id@);
                assert(k == i);
            }
            return Some(i);
        }
        i += 1;
    }
    None
}

/// Puts an account in: in the place of the one with its id, or behind the
/// others.
fn put(accounts: &mut Vec<Account>, account: Account)
    ensures
        views_of(final(accounts)@) == put_account(views_of(old(accounts)@), account@),
{
    match find_account(accounts, &account.account_id) {
        Some(i) => {
            accounts[i] = account;
            assert(views_of(accounts@) =~= put_account(views_of(old(accounts)@), account@));
        },
        None => {
            accounts.push(account);
            assert(views_of(accounts@) =~= put_account(views_of(old(accounts)@), account@));
        },
    }
}

/// Applies one action of a receipt that succeeded.
fn apply(accounts: &mut Vec<Account>, receipt: &ReceiptView, action: &ActionView, block_height: u64)
    ensures
        views_of(final(accounts)@) == apply_action(
            views_of(old(accounts)@),
            *receipt,
            *action,
            block_height,
        ),
{
    match action {
        ActionView::CreateAccount => {
            put(
                accounts,
                Account::new_from_receipt(
                    receipt.receiver_id.as_str(),
                    &receipt.receipt_id,
                    block_height,
                ),
            );
        },
        ActionView::Transfer => {
            if implicit_account_key(receipt.receiver_id.as_str()).is_some() {
                put(
                    accounts,
                    Account::new_from_receipt(
                        receipt.receiver_id.as_str(),
                        &receipt.receipt_id,
                        block_height,
                    ),
                );
            }
        },
        ActionView::DeleteAccount => {
            match find_account(accounts, &receipt.receiver_id) {
                Some(i) => {
                    let marked = accounts[i].with_deletion(&receipt.receipt_id, block_height);
                    accounts[i] = marked;
                    assert(views_of(accounts@) =~= apply_action(
                        views_of(old(accounts)@),
                        *receipt,
                        *action,
                        block_height,
                    ));
                },
                None => {
                    accounts.push(
                        Account::new_deleted(
                            receipt.receiver_id.as_str(),
                            &receipt.receipt_id,
                            block_height,
                        ),
                    );
                    assert(views_of(accounts@) =~= apply_action(
                        views_of(old(accounts)@),
                        *receipt,
                        *action,
                        block_height,
                    ));
                },
            }
        },
        _ => {},
    }
}

/// Collects the accounts that the outcomes of a block create and delete.
/// Only the actions of receipts whose execution succeeded count. An account
/// that the block created is to be inserted, with its deletion where the
/// block deleted it again; of one that it only deleted, the deletion is to
/// be noted in the stored row.
pub fn handle_accounts(
    outcomes: &Vec<IndexerExecutionOutcomeWithReceipt>,
    block_height: u64,
) -> (changes: AccountChanges)
    ensures
        views_of(changes.new_accounts_to_insert@) == kept(
            accounts_after(outcomes@, outcomes@.len(), block_height),
            is_created(),
            accounts_after(outcomes@, outcomes@.len(), block_height).len(),
        ),
        views_of(changes.existing_accounts_to_update@) == kept(
            accounts_after(outcomes@, outcomes@.len(), block_height),
            is_deleted_only(),
            accounts_after(outcomes@, outcomes@.len(), block_height).len(),
        ),
{
    let mut accounts: Vec<Account> = Vec::new();
    let mut i: usize = 0;
    assert(views_of(accounts@) =~= accounts_after(outcomes@, 0, block_height));
    while i < outcomes.len()
        invariant
            i <= outcomes.len(),
            views_of(accounts@) == accounts_after(outcomes@, i as nat, block_height),
        decreases outcomes.len() - i,
    {
        let outcome = &outcomes[i];
        if outcome.execution_outcome.status.is_success() {
            if let ReceiptEnumView::Action { actions, .. } = &outcome.receipt.receipt {
                let ghost before = views_of(accounts@);
                let mut j: usize = 0;
                while j < actions.len()
                    invariant
                        j <= actions.len(),
                        views_of(accounts@) == apply_actions(
                            before,
                            outcome.receipt,
                            actions@,
                            j as nat,
                            block_height,
                        ),
                    decreases actions.len() - j,
                {
                    apply(&mut accounts, &outcome.receipt, &actions[j].action, block_height);
                    j += 1;
                }
            }
        }
        i += 1;
    }
    let ghost all = views_of(accounts@);
    let mut new_accounts_to_insert: Vec<Account> = Vec::new();
    let mut existing_accounts_to_update: Vec<Account> = Vec::new();
    let mut k: usize = 0;
    assert(views_of(new_accounts_to_insert@) =~= kept(all, is_created(), 0));
    assert(views_of(existing_accounts_to_update@) =~= kept(all, is_deleted_only(), 0));
    while k < accounts.len()
        invariant
            k <= accounts.len(),
            all == views_of(accounts@),
            views_of(new_accounts_to_insert@) == kept(all, is_created(), k as nat),
            views_of(existing_accounts_to_update@) == kept(all, is_deleted_only(), k as nat),
        decreases accounts.len() - k,
    {
        let account = accounts[k].duplicate();
        assert(account@ == all[k as int]);
        if account.created_by_receipt_id.is_some() {
            new_accounts_to_insert.push(account);
        } else {
            existing_accounts_to_update.push(account);
        }
        k += 1;
        assert(views_of(new_accounts_to_insert@) =~= kept(all, is_created(), k as nat));
        assert(views_of(existing_accounts_to_update@) =~= kept(all, is_deleted_only(), k as nat));
    }
    AccountChanges { new_accounts_to_insert, existing_accounts_to_update }
}

/// The statements of the deletions, one for each account in its order.
pub open spec fn deletion_statements_of(accounts: Seq<AccountView>) -> Seq<
    (Seq<char>, Seq<crate::models::ColumnValue>),
> {
    Seq::new(
        accounts.len(),
        |i: int| (crate::models::accounts::account_deletion_query(), accounts[i].deletion_arguments()),
    )
}

/// The statements that note the deletions of stored accounts.
pub fn deletion_statements(accounts: &Vec<Account>) -> (statements: Vec<Statement>)
    ensures
        views_of(statements@) == deletion_statements_of(views_of(accounts@)),
{
    let mut statements: Vec<Statement> = Vec::new();
    let mut i: usize = 0;
    while i < accounts.len()
        invariant
            i <= accounts.len(),
            statements@.len() == i,
            forall|j: int|
                0 <= j < i ==> (#[trigger] statements@[j]).query@
                    == crate::models::accounts::account_deletion_query() && statements@[j].args@
                    == accounts@[j]@.deletion_arguments(),
        decreases accounts.len() - i,
    {
        statements.push(accounts[i].deletion_statement());
        i += 1;
    }
    assert(views_of(statements@) =~= deletion_statements_of(views_of(accounts@)));
    statements
}

} // verus!
