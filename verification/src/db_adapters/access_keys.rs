//! Access keys that the receipts of a block add and delete.

use crate::models::access_keys::{
    access_key_deletion_query, access_key_refresh_query, account_keys_deletion_arguments,
    account_keys_deletion_query, account_keys_deletion_statement, AccessKey, AccessKeyView,
};
use crate::models::Statement;
use crate::seqs::{kept, lemma_kept_holds, views_of};
use crate::text::{implicit_account_key, implicit_key_text, is_implicit_account};
use crate::views::{
    AccessKeyPermissionView, ActionView, ActionWithArgs, IndexerExecutionOutcomeWithReceipt,
    ReceiptEnumView, ReceiptView,
};
use vstd::prelude::*;

verus! {

/// An account that a block deleted, with the text of the id of the receipt
/// that did so.
pub type DeletedAccount = (Seq<char>, Seq<char>);

/// What the receipts of a block have done to access keys so far.
pub struct KeysState {
    /// The keys that were touched, in the order in which they first were.
    pub keys: Seq<AccessKeyView>,
    /// The accounts that were deleted, in the order in which they first were.
    pub deleted_accounts: Seq<DeletedAccount>,
}

/// Whether the key of the account is among the keys.
pub open spec fn has_key(
    keys: Seq<AccessKeyView>,
    public_key: Seq<char>,
    account_id: Seq<char>,
) -> bool {
    exists|i: int|
        0 <= i < keys.len() && (#[trigger] keys[i]).public_key == public_key && keys[i].account_id
            == account_id
}

/// The place of the first entry for the key of the account, where there is
/// one.
pub open spec fn key_place(
    keys: Seq<AccessKeyView>,
    public_key: Seq<char>,
    account_id: Seq<char>,
) -> int {
    choose|i: int|
        0 <= i < keys.len() && (#[trigger] keys[i]).public_key == public_key && keys[i].account_id
            == account_id && forall|j: int|
            0 <= j < i ==> !((#[trigger] keys[j]).public_key == public_key && keys[j].account_id
                == account_id)
}

/// The keys with one put in: in the place of the entry for the same key of
/// the same account, or behind the others.
pub open spec fn put_key(keys: Seq<AccessKeyView>, key: AccessKeyView) -> Seq<AccessKeyView> {
    if has_key(keys, key.public_key, key.account_id) {
        keys.update(key_place(keys, key.public_key, key.account_id), key)
    } else {
        keys.push(key)
    }
}

/// The keys with the deletion by the receipt noted in every key of the
/// account.
pub open spec fn mark_account_keys(
    keys: Seq<AccessKeyView>,
    account_id: Seq<char>,
    receipt_id: crate::hashes::CryptoHash,
) -> Seq<AccessKeyView> {
    Seq::new(
        keys.len(),
        |i: int|
            if keys[i].account_id == account_id {
                keys[i].marked_deleted(receipt_id)
            } else {
                keys[i]
            },
    )
}

/// Whether the account is among the deleted ones.
pub open spec fn has_deleted_account(accounts: Seq<DeletedAccount>, account_id: Seq<char>) -> bool {
    exists|i: int| 0 <= i < accounts.len() && (#[trigger] accounts[i]).0 == account_id
}

/// The place of the first entry for the account, where there is one.
pub open spec fn deleted_account_place(
    accounts: Seq<DeletedAccount>,
    account_id: Seq<char>,
) -> int {
    choose|i: int|
        0 <= i < accounts.len() && (#[trigger] accounts[i]).0 == account_id && forall|j: int|
            0 <= j < i ==> (#[trigger] accounts[j]).0 != account_id
}

/// The deleted accounts with one put in: in the place of the entry for the
/// same account, or behind the others.
pub open spec fn put_deleted_account(accounts: Seq<DeletedAccount>, account: DeletedAccount) -> Seq<
    DeletedAccount,
> {
    if has_deleted_account(accounts, account.0) {
        accounts.update(deleted_account_place(accounts, account.0), account)
    } else {
        accounts.push(account)
    }
}

/// The state after one action of a receipt that succeeded in a block of the
/// given height.
///
/// A deleted account is noted, and so is the deletion in each of its keys
/// that the block has touched. An added key is put in. The deletion of a
/// key is noted in the key that is there, or put in alone. A transfer to an
/// implicit account puts in the full-access key that the account's name
/// spells.
pub open spec fn apply_action(
    state: KeysState,
    receipt: ReceiptView,
    action: ActionView,
    block_height: u64,
) -> KeysState {
    let account_id = receipt.receiver_id@;
    match action {
        ActionView::DeleteAccount => KeysState {
            keys: mark_account_keys(state.keys, account_id, receipt.receipt_id),
            deleted_accounts: put_deleted_account(
                state.deleted_accounts,
                (account_id, receipt.receipt_id.text()),
            ),
        },
        ActionView::AddKey { public_key, permission } => KeysState {
            keys: put_key(
                state.keys,
                AccessKeyView::added(
                    public_key@,
                    account_id,
                    permission,
                    receipt.receipt_id,
                    block_height,
                ),
            ),
            ..state
        },
        ActionView::DeleteKey { public_key } => KeysState {
            keys: if has_key(state.keys, public_key@, account_id) {
                let i = key_place(state.keys, public_key@, account_id);
                state.keys.update(i, state.keys[i].marked_deleted(receipt.receipt_id))
            } else {
                state.keys.push(
                    AccessKeyView::deleted_only(
                        public_key@,
                        account_id,
                        receipt.receipt_id,
                        block_height,
                    ),
                )
            },
            ..state
        },
        ActionView::Transfer => if is_implicit_account(account_id) {
            KeysState {
                keys: put_key(
                    state.keys,
                    AccessKeyView::added(
                        implicit_key_text(account_id),
                        account_id,
                        AccessKeyPermissionView::FullAccess,
                        receipt.receipt_id,
                        block_height,
                    ),
                ),
                ..state
            }
        } else {
            state
        },
        _ => state,
    }
}

/// The state after the first `n` actions of a receipt.
pub open spec fn apply_actions(
    state: KeysState,
    receipt: ReceiptView,
    actions: Seq<ActionWithArgs>,
    n: nat,
    block_height: u64,
) -> KeysState
    recommends
        n <= actions.len(),
    decreases n,
{
    if n == 0 {
        state
    } else {
        apply_action(
            apply_actions(state, receipt, actions, (n - 1) as nat, block_height),
            receipt,
            actions[n - 1].action,
            block_height,
        )
    }
}

/// The state after one outcome: the actions of its receipt count where the
/// execution succeeded.
pub open spec fn apply_outcome(
    state: KeysState,
    outcome: IndexerExecutionOutcomeWithReceipt,
    block_height: u64,
) -> KeysState {
    if outcome.execution_outcome.status.succeeded() && outcome.receipt.receipt is Action {
        let actions = outcome.receipt.receipt->Action_actions@;
        apply_actions(state, outcome.receipt, actions, actions.len(), block_height)
    } else {
        state
    }
}

/// The state after the first `n` outcomes of a block.
pub open spec fn keys_after(
    outcomes: Seq<IndexerExecutionOutcomeWithReceipt>,
    n: nat,
    block_height: u64,
) -> KeysState
    recommends
        n <= outcomes.len(),
    decreases n,
{
    if n == 0 {
        KeysState {
            keys: Seq::<AccessKeyView>::empty(),
            deleted_accounts: Seq::<DeletedAccount>::empty(),
        }
    } else {
        apply_outcome(
            keys_after(outcomes, (n - 1) as nat, block_height),
            outcomes[n - 1],
            block_height,
        )
    }
}

/// The test of a key that a receipt of the block added.
pub open spec fn is_added() -> spec_fn(AccessKeyView) -> bool {
    |key: AccessKeyView| key.created_by_receipt_id is Some
}

/// The test of a key of which the block only shows the deletion.
pub open spec fn is_deleted_only() -> spec_fn(AccessKeyView) -> bool {
    |key: AccessKeyView| key.created_by_receipt_id is None
}

/// Where an entry for the key of the account is among the first `n`, one of
/// them is the first.
proof fn lemma_first_key_exists(
    keys: Seq<AccessKeyView>,
    public_key: Seq<char>,
    account_id: Seq<char>,
    n: nat,
)
    requires
        n <= keys.len(),
        exists|i: int|
            0 <= i < n && (#[trigger] keys[i]).public_key == public_key && keys[i].account_id
                == account_id,
    ensures
        exists|i: int|
            0 <= i < n && (#[trigger] keys[i]).public_key == public_key && keys[i].account_id
                == account_id && forall|j: int|
                0 <= j < i ==> !((#[trigger] keys[j]).public_key == public_key
                    && keys[j].account_id == account_id),
    decreases n,
{
    if exists|i: int|
        0 <= i < n - 1 && (#[trigger] keys[i]).public_key == public_key && keys[i].account_id
            == account_id {
        lemma_first_key_exists(keys, public_key, account_id, (n - 1) as nat);
        let first = choose|i: int|
            0 <= i < n - 1 && (#[trigger] keys[i]).public_key == public_key && keys[i].account_id
                == account_id && forall|j: int|
                0 <= j < i ==> !((#[trigger] keys[j]).public_key == public_key
                    && keys[j].account_id == account_id);
        assert(0 <= first < n && keys[first].public_key == public_key && keys[first].account_id
            == account_id);
    } else {
        let last = n - 1;
        assert(keys[last].public_key == public_key && keys[last].account_id == account_id);
    }
}

/// The place of a key that is there is the first for that key of that
/// account.
pub proof fn lemma_key_place(keys: Seq<AccessKeyView>, public_key: Seq<char>, account_id: Seq<char>)
    requires
        has_key(keys, public_key, account_id),
    ensures
        0 <= key_place(keys, public_key, account_id) < keys.len(),
        keys[key_place(keys, public_key, account_id)].public_key == public_key,
        keys[key_place(keys, public_key, account_id)].account_id == account_id,
        forall|j: int|
            0 <= j < key_place(keys, public_key, account_id) ==> !((#[trigger] keys[j]).public_key
                == public_key && keys[j].account_id == account_id),
{
    lemma_first_key_exists(keys, public_key, account_id, keys.len());
}

/// Whether each key is still there, in its place, and still has the receipt
/// that added it where it had one.
pub open spec fn keeps_added(before: Seq<AccessKeyView>, after: Seq<AccessKeyView>) -> bool {
    &&& before.len() <= after.len()
    &&& forall|i: int|
        0 <= i < before.len() ==> (#[trigger] after[i]).public_key == before[i].public_key
            && after[i].account_id == before[i].account_id && (before[i].created_by_receipt_id
            is Some ==> after[i].created_by_receipt_id is Some)
}

/// No action takes a key away, or the receipt that added it.
pub proof fn lemma_action_keeps_added(
    state: KeysState,
    receipt: ReceiptView,
    action: ActionView,
    block_height: u64,
)
    ensures
        keeps_added(state.keys, apply_action(state, receipt, action, block_height).keys),
{
    let account_id = receipt.receiver_id@;
    match action {
        ActionView::AddKey { public_key, permission } => {
            if has_key(state.keys, public_key@, account_id) {
                lemma_key_place(state.keys, public_key@, account_id);
            }
        },
        ActionView::DeleteKey { public_key } => {
            if has_key(state.keys, public_key@, account_id) {
                lemma_key_place(state.keys, public_key@, account_id);
            }
        },
        ActionView::Transfer => {
            if has_key(state.keys, implicit_key_text(account_id), account_id) {
                lemma_key_place(state.keys, implicit_key_text(account_id), account_id);
            }
        },
        _ => {},
    }
}

/// No run of actions takes a key away, or the receipt that added it.
pub proof fn lemma_actions_keep_added(
    state: KeysState,
    receipt: ReceiptView,
    actions: Seq<ActionWithArgs>,
    m: nat,
    n: nat,
    block_height: u64,
)
    requires
        m <= n <= actions.len(),
    ensures
        keeps_added(
            apply_actions(state, receipt, actions, m, block_height).keys,
            apply_actions(state, receipt, actions, n, block_height).keys,
        ),
    decreases n - m,
{
    if m < n {
        lemma_actions_keep_added(state, receipt, actions, m, (n - 1) as nat, block_height);
        lemma_action_keeps_added(
            apply_actions(state, receipt, actions, (n - 1) as nat, block_height),
            receipt,
            actions[n - 1].action,
            block_height,
        );
    }
}

/// No run of outcomes takes a key away, or the receipt that added it.
pub proof fn lemma_outcomes_keep_added(
    outcomes: Seq<IndexerExecutionOutcomeWithReceipt>,
    m: nat,
    n: nat,
    block_height: u64,
)
    requires
        m <= n <= outcomes.len(),
    ensures
        keeps_added(
            keys_after(outcomes, m, block_height).keys,
            keys_after(outcomes, n, block_height).keys,
        ),
    decreases n - m,
{
    if m < n {
        lemma_outcomes_keep_added(outcomes, m, (n - 1) as nat, block_height);
        let before = keys_after(outcomes, (n - 1) as nat, block_height);
        let outcome = outcomes[n - 1];
        if outcome.execution_outcome.status.succeeded() && outcome.receipt.receipt is Action {
            let actions = outcome.receipt.receipt->Action_actions@;
            lemma_actions_keep_added(
                before,
                outcome.receipt,
                actions,
                0,
                actions.len(),
                block_height,
            );
        }
    }
}

/// A transfer to an implicit account puts in the key that the name of the
/// account spells, with full access, as added by the receipt of the
/// transfer in its block.
pub proof fn lemma_transfer_adds_implicit_key(
    state: KeysState,
    receipt: ReceiptView,
    block_height: u64,
)
    requires
        is_implicit_account(receipt.receiver_id@),
    ensures
        has_key(
            apply_action(state, receipt, ActionView::Transfer, block_height).keys,
            implicit_key_text(receipt.receiver_id@),
            receipt.receiver_id@,
        ),
        apply_action(state, receipt, ActionView::Transfer, block_height).keys[key_place(
            apply_action(state, receipt, ActionView::Transfer, block_height).keys,
            implicit_key_text(receipt.receiver_id@),
            receipt.receiver_id@,
        )] == AccessKeyView::added(
            implicit_key_text(receipt.receiver_id@),
            receipt.receiver_id@,
            AccessKeyPermissionView::FullAccess,
            receipt.receipt_id,
            block_height,
        ),
        AccessKeyView::added(
            implicit_key_text(receipt.receiver_id@),
            receipt.receiver_id@,
            AccessKeyPermissionView::FullAccess,
            receipt.receipt_id,
            block_height,
        ).permission_kind == "FULL_ACCESS"@,
{
    let account_id = receipt.receiver_id@;
    let public_key = implicit_key_text(account_id);
    let made = AccessKeyView::added(
        public_key,
        account_id,
        AccessKeyPermissionView::FullAccess,
        receipt.receipt_id,
        block_height,
    );
    let after = apply_action(state, receipt, ActionView::Transfer, block_height).keys;
    let i = if has_key(state.keys, public_key, account_id) {
        lemma_key_place(state.keys, public_key, account_id);
        key_place(state.keys, public_key, account_id)
    } else {
        state.keys.len() as int
    };
    assert(after[i] == made);
    lemma_key_place(after, public_key, account_id);
    let k = key_place(after, public_key, account_id);
    if k < i {
        assert(after[k] == state.keys[k]);
    }
}

/// A block in which a successful receipt transfers to an implicit account
/// inserts the key of that account: among the keys to insert is the one
/// that the name of the receiver spells, for the receiver, added by a
/// receipt of the block.
pub proof fn lemma_implicit_key_is_inserted(
    outcomes: Seq<IndexerExecutionOutcomeWithReceipt>,
    block_height: u64,
    i: int,
    j: int,
)
    requires
        0 <= i < outcomes.len(),
        outcomes[i].execution_outcome.status.succeeded(),
        outcomes[i].receipt.receipt is Action,
        0 <= j < outcomes[i].receipt.receipt->Action_actions@.len(),
        outcomes[i].receipt.receipt->Action_actions@[j].action is Transfer,
        is_implicit_account(outcomes[i].receipt.receiver_id@),
    ensures
        exists|k: int|
            0 <= k < kept(
                keys_after(outcomes, outcomes.len(), block_height).keys,
                is_added(),
                keys_after(outcomes, outcomes.len(), block_height).keys.len(),
            ).len() && (#[trigger] kept(
                keys_after(outcomes, outcomes.len(), block_height).keys,
                is_added(),
                keys_after(outcomes, outcomes.len(), block_height).keys.len(),
            )[k]).account_id == outcomes[i].receipt.receiver_id@ && kept(
                keys_after(outcomes, outcomes.len(), block_height).keys,
                is_added(),
                keys_after(outcomes, outcomes.len(), block_height).keys.len(),
            )[k].public_key == implicit_key_text(outcomes[i].receipt.receiver_id@) && kept(
                keys_after(outcomes, outcomes.len(), block_height).keys,
                is_added(),
                keys_after(outcomes, outcomes.len(), block_height).keys.len(),
            )[k].created_by_receipt_id is Some,
{
    let receipt = outcomes[i].receipt;
    let account_id = receipt.receiver_id@;
    let public_key = implicit_key_text(account_id);
    let actions = receipt.receipt->Action_actions@;
    let start = keys_after(outcomes, i as nat, block_height);
    let before = apply_actions(start, receipt, actions, j as nat, block_height);
    let stepped = apply_actions(start, receipt, actions, (j + 1) as nat, block_height);
    let shard_done = keys_after(outcomes, (i + 1) as nat, block_height);
    let all = keys_after(outcomes, outcomes.len(), block_height).keys;
    lemma_transfer_adds_implicit_key(before, receipt, block_height);
    assert(stepped == apply_action(before, receipt, ActionView::Transfer, block_height));
    lemma_key_place(stepped.keys, public_key, account_id);
    let at = key_place(stepped.keys, public_key, account_id);
    lemma_actions_keep_added(
        start,
        receipt,
        actions,
        (j + 1) as nat,
        actions.len(),
        block_height,
    );
    assert(shard_done == apply_actions(start, receipt, actions, actions.len(), block_height));
    lemma_outcomes_keep_added(outcomes, (i + 1) as nat, outcomes.len(), block_height);
    assert(shard_done.keys[at].account_id == account_id);
    assert(all[at].account_id == account_id && all[at].public_key == public_key
        && all[at].created_by_receipt_id is Some);
    lemma_kept_holds(all, is_added(), all.len(), at);
}

/// The deleted accounts as pairs of texts.
pub open spec fn deleted_account_views(accounts: Seq<(String, String)>) -> Seq<DeletedAccount> {
    Seq::new(accounts.len(), |i: int| (accounts[i].0@, accounts[i].1@))
}

/// What a block does to the access keys table.
#[derive(Clone, Debug, PartialEq, Eq)]
pub struct AccessKeyChanges {
    /// Keys that the block added, some of them deleted again.
    pub access_keys_to_insert: Vec<AccessKey>,
    /// Keys that were there before and that the block deleted.
    pub access_keys_to_update: Vec<AccessKey>,
    /// Accounts that the block deleted, each with the id of the receipt
    /// that did so.
    pub deleted_accounts: Vec<(String, String)>,
}

/// The place of the first entry for the key of the account.
fn find_key(
    keys: &Vec<AccessKey>,
    public_key: &String,
    account_id: &String,
) -> (found: Option<usize>)
    ensures
        found is Some <==> has_key(views_of(keys@), public_key@, account_id@),
        found matches Some(i) ==> i < keys.len() && i == key_place(
            views_of(keys@),
            public_key@,
            account_id@,
        ),
{
    let ghost all = views_of(keys@);
    let mut i: usize = 0;
    while i < keys.len()
        invariant
            i <= keys.len(),
            all == views_of(keys@),
            forall|j: int|
                0 <= j < i ==> !((#[trigger] all[j]).public_key == public_key@ && all[j].account_id
                    == account_id@),
        decreases keys.len() - i,
    {
        if keys[i].public_key == *public_key && keys[i].account_id == *account_id {
            proof {
                assert(all[i as int].public_key == public_key@ && all[i as int].account_id
                    == account_id@);
                let k = key_place(all, public_key@, account_id@);
                assert(0 <= k < all.len() && all[k].public_key == public_key@ && all[k].account_id
                    == account_id@ && forall|j: int|
                    0 <= j < k ==> !((#[trigger] all[j]).public_key == public_key@
                        && all[j].account_id == account_id@));
                assert(k == i);
            }
            return Some(i);
        }
        i += 1;
    }
    None
}

/// Puts a key in: in the place of the entry for the same key of the same
/// account, or behind the others.
fn put(keys: &mut Vec<AccessKey>, key: AccessKey)
    ensures
        views_of(final(keys)@) == put_key(views_of(old(keys)@), key@),
{
    match find_key(keys, &key.public_key, &key.account_id) {
        Some(i) => {
            keys[i] = key;
            assert(views_of(keys@) =~= put_key(views_of(old(keys)@), key@));
        },
        None => {
            keys.push(key);
            assert(views_of(keys@) =~= put_key(views_of(old(keys)@), key@));
        },
    }
}

/// Notes the deletion by the receipt in every key of the account.
fn mark_keys_of_account(keys: &mut Vec<AccessKey>, receipt: &ReceiptView)
    ensures
        views_of(final(keys)@) == mark_account_keys(
            views_of(old(keys)@),
            receipt.receiver_id@,
            receipt.receipt_id,
        ),
{
    let ghost before = views_of(keys@);
    let ghost after = mark_account_keys(before, receipt.receiver_id@, receipt.receipt_id);
    let mut i: usize = 0;
    while i < keys.len()
        invariant
            i <= keys.len(),
            keys@.len() == before.len(),
            after == mark_account_keys(before, receipt.receiver_id@, receipt.receipt_id),
            forall|j: int| 0 <= j < i ==> (#[trigger] keys@[j])@ == after[j],
            forall|j: int| i <= j < keys.len() ==> (#[trigger] keys@[j])@ == before[j],
        decreases keys.len() - i,
    {
        if keys[i].account_id == receipt.receiver_id {
            let marked = keys[i].with_deletion(&receipt.receipt_id);
            keys[i] = marked;
        }
        i += 1;
    }
    assert(views_of(keys@) =~= after);
}

/// Notes that the receipt deleted its receiver.
fn note_deleted_account(accounts: &mut Vec<(String, String)>, receipt: &ReceiptView)
    ensures
        deleted_account_views(final(accounts)@) == put_deleted_account(
            deleted_account_views(old(accounts)@),
            (receipt.receiver_id@, receipt.receipt_id.text()),
        ),
{
    let ghost all = deleted_account_views(accounts@);
    let ghost account_id = receipt.receiver_id@;
    let entry = (receipt.receiver_id.clone(), receipt.receipt_id.to_text());
    let mut i: usize = 0;
    while i < accounts.len()
        invariant
            i <= accounts.len(),
            all == deleted_account_views(accounts@),
            accounts@ == old(accounts)@,
            account_id == receipt.receiver_id@,
            entry.0@ == account_id,
            entry.1@ == receipt.receipt_id.text(),
            forall|j: int| 0 <= j < i ==> (#[trigger] all[j]).0 != account_id,
        decreases accounts.len() - i,
    {
        if accounts[i].0 == receipt.receiver_id {
            proof {
                assert(all[i as int].0 == account_id);
                let k = deleted_account_place(all, account_id);
                assert(0 <= k < all.len() && all[k].0 == account_id && forall|j: int|
                    0 <= j < k ==> (#[trigger] all[j]).0 != account_id);
                assert(k == i);
            }
            accounts[i] = entry;
            assert(deleted_account_views(accounts@) =~= put_deleted_account(
                all,
                (account_id, receipt.receipt_id.text()),
            ));
            return ;
        }
        i += 1;
    }
    accounts.push(entry);
    assert(deleted_account_views(accounts@) =~= put_deleted_account(
        all,
        (account_id, receipt.receipt_id.text()),
    ));
}

/// Applies one action of a receipt that succeeded.
fn apply(
    keys: &mut Vec<AccessKey>,
    deleted_accounts: &mut Vec<(String, String)>,
    receipt: &ReceiptView,
    action: &ActionView,
    block_height: u64,
)
    ensures
        (KeysState {
            keys: views_of(final(keys)@),
            deleted_accounts: deleted_account_views(final(deleted_accounts)@),
        }) == apply_action(
            (KeysState {
                keys: views_of(old(keys)@),
                deleted_accounts: deleted_account_views(old(deleted_accounts)@),
            }),
            *receipt,
            *action,
            block_height,
        ),
{
    match action {
        ActionView::DeleteAccount => {
            note_deleted_account(deleted_accounts, receipt);
            mark_keys_of_account(keys, receipt);
        },
        ActionView::AddKey { public_key, permission } => {
            put(
                keys,
                AccessKey::from_action_view(
                    public_key.as_str(),
                    receipt.receiver_id.as_str(),
                    permission,
                    &receipt.receipt_id,
                    block_height,
                ),
            );
        },
        ActionView::DeleteKey { public_key } => {
            match find_key(keys, public_key, &receipt.receiver_id) {
                Some(i) => {
                    let marked = keys[i].with_deletion(&receipt.receipt_id);
                    keys[i] = marked;
                    assert(views_of(keys@) =~= apply_action(
                        (KeysState {
                            keys: views_of(old(keys)@),
                            deleted_accounts: deleted_account_views(old(deleted_accounts)@),
                        }),
                        *receipt,
                        *action,
                        block_height,
                    ).keys);
                },
                None => {
                    keys.push(
                        AccessKey::new_deleted(
                            public_key.as_str(),
                            receipt.receiver_id.as_str(),
                            &receipt.receipt_id,
                            block_height,
                        ),
                    );
                    assert(views_of(keys@) =~= apply_action(
                        (KeysState {
                            keys: views_of(old(keys)@),
                            deleted_accounts: deleted_account_views(old(deleted_accounts)@),
                        }),
                        *receipt,
                        *action,
                        block_height,
                    ).keys);
                },
            }
        },
        ActionView::Transfer => {
            match implicit_account_key(receipt.receiver_id.as_str()) {
                Some(public_key) => {
                    put(
                        keys,
                        AccessKey::from_action_view(
                            public_key.as_str(),
                            receipt.receiver_id.as_str(),
                            &AccessKeyPermissionView::FullAccess,
                            &receipt.receipt_id,
                            block_height,
                        ),
                    );
                },
                None => {},
            }
        },
        _ => {},
    }
}

/// Collects what the outcomes of a block do to access keys. Only the
/// actions of receipts whose execution succeeded count. A key that the
/// block added is to be inserted, with its deletion where the block deleted
/// it again; of one that it only deleted, the deletion is to be noted in
/// the stored row; and every deleted account takes its stored keys along.
pub fn handle_access_keys(
    outcomes: &Vec<IndexerExecutionOutcomeWithReceipt>,
    block_height: u64,
) -> (changes: AccessKeyChanges)
    ensures
        views_of(changes.access_keys_to_insert@) == kept(
            keys_after(outcomes@, outcomes@.len(), block_height).keys,
            is_added(),
            keys_after(outcomes@, outcomes@.len(), block_height).keys.len(),
        ),
        views_of(changes.access_keys_to_update@) == kept(
            keys_after(outcomes@, outcomes@.len(), block_height).keys,
            is_deleted_only(),
            keys_after(outcomes@, outcomes@.len(), block_height).keys.len(),
        ),
        deleted_account_views(changes.deleted_accounts@) == keys_after(
            outcomes@,
            outcomes@.len(),
            block_height,
        ).deleted_accounts,
{
    let mut keys: Vec<AccessKey> = Vec::new();
    let mut deleted_accounts: Vec<(String, String)> = Vec::new();
    let mut i: usize = 0;
    assert(views_of(keys@) =~= keys_after(outcomes@, 0, block_height).keys);
    assert(deleted_account_views(deleted_accounts@) =~= keys_after(
        outcomes@,
        0,
        block_height,
    ).deleted_accounts);
    while i < outcomes.len()
        invariant
            i <= outcomes.len(),
            (KeysState {
                keys: views_of(keys@),
                deleted_accounts: deleted_account_views(deleted_accounts@),
            }) == keys_after(outcomes@, i as nat, block_height),
        decreases outcomes.len() - i,
    {
        let outcome = &outcomes[i];
        if outcome.execution_outcome.status.is_success() {
            if let ReceiptEnumView::Action { actions, .. } = &outcome.receipt.receipt {
                let ghost before = KeysState {
                    keys: views_of(keys@),
                    deleted_accounts: deleted_account_views(deleted_accounts@),
                };
                let mut j: usize = 0;
                while j < actions.len()
                    invariant
                        j <= actions.len(),
                        (KeysState {
                            keys: views_of(keys@),
                            deleted_accounts: deleted_account_views(deleted_accounts@),
                        }) == apply_actions(
                            before,
                            outcome.receipt,
                            actions@,
                            j as nat,
                            block_height,
                        ),
                    decreases actions.len() - j,
                {
                    apply(
                        &mut keys,
                        &mut deleted_accounts,
                        &outcome.receipt,
                        &actions[j].action,
                        block_height,
                    );
                    j += 1;
                }
            }
        }
        i += 1;
    }
    let ghost all = views_of(keys@);
    let mut access_keys_to_insert: Vec<AccessKey> = Vec::new();
    let mut access_keys_to_update: Vec<AccessKey> = Vec::new();
    let mut k: usize = 0;
    assert(views_of(access_keys_to_insert@) =~= kept(all, is_added(), 0));
    assert(views_of(access_keys_to_update@) =~= kept(all, is_deleted_only(), 0));
    while k < keys.len()
        invariant
            k <= keys.len(),
            all == views_of(keys@),
            views_of(access_keys_to_insert@) == kept(all, is_added(), k as nat),
            views_of(access_keys_to_update@) == kept(all, is_deleted_only(), k as nat),
        decreases keys.len() - k,
    {
        let key = keys[k].duplicate();
        assert(key@ == all[k as int]);
        if key.created_by_receipt_id.is_some() {
            access_keys_to_insert.push(key);
        } else {
            access_keys_to_update.push(key);
        }
        k += 1;
        assert(views_of(access_keys_to_insert@) =~= kept(all, is_added(), k as nat));
        assert(views_of(access_keys_to_update@) =~= kept(all, is_deleted_only(), k as nat));
    }
    AccessKeyChanges { access_keys_to_insert, access_keys_to_update, deleted_accounts }
}

/// The statements that take the stored keys of deleted accounts along, one
/// for each account in its order.
pub fn delete_access_keys_for_deleted_accounts(
    last_update_block_height: u64,
    deleted_accounts: &Vec<(String, String)>,
) -> (statements: Vec<Statement>)
    ensures
        views_of(statements@) == Seq::new(
            deleted_accounts@.len(),
            |i: int|
                (
                    account_keys_deletion_query(),
                    account_keys_deletion_arguments(
                        deleted_accounts@[i].0@,
                        deleted_accounts@[i].1@,
                        last_update_block_height,
                    ),
                ),
        ),
{
    let mut statements: Vec<Statement> = Vec::new();
    let mut i: usize = 0;
    while i < deleted_accounts.len()
        invariant
            i <= deleted_accounts.len(),
            statements@.len() == i,
            forall|j: int|
                0 <= j < i ==> (#[trigger] statements@[j]).query@ == account_keys_deletion_query()
                    && statements@[j].args@ == account_keys_deletion_arguments(
                    deleted_accounts@[j].0@,
                    deleted_accounts@[j].1@,
                    last_update_block_height,
                ),
        decreases deleted_accounts.len() - i,
    {
        statements.push(
            account_keys_deletion_statement(
                &deleted_accounts[i].0,
                &deleted_accounts[i].1,
                last_update_block_height,
            ),
        );
        i += 1;
    }
    assert(views_of(statements@) =~= Seq::new(
        deleted_accounts@.len(),
        |i: int|
            (
                account_keys_deletion_query(),
                account_keys_deletion_arguments(
                    deleted_accounts@[i].0@,
                    deleted_accounts@[i].1@,
                    last_update_block_height,
                ),
            ),
    ));
    statements
}

/// The statements that note the deletions of stored keys, one for each key
/// in its order.
pub fn update_access_keys(access_keys_to_update: &Vec<AccessKey>) -> (statements: Vec<Statement>)
    ensures
        views_of(statements@) == Seq::new(
            access_keys_to_update@.len(),
            |i: int|
                (access_key_deletion_query(), access_keys_to_update@[i]@.deletion_arguments()),
        ),
{
    let mut statements: Vec<Statement> = Vec::new();
    let mut i: usize = 0;
    while i < access_keys_to_update.len()
        invariant
            i <= access_keys_to_update.len(),
            statements@.len() == i,
            forall|j: int|
                0 <= j < i ==> (#[trigger] statements@[j]).query@ == access_key_deletion_query()
                    && statements@[j].args@ == access_keys_to_update@[j]@.deletion_arguments(),
        decreases access_keys_to_update.len() - i,
    {
        statements.push(access_keys_to_update[i].deletion_statement());
        i += 1;
    }
    assert(views_of(statements@) =~= Seq::new(
        access_keys_to_update@.len(),
        |i: int| (access_key_deletion_query(), access_keys_to_update@[i]@.deletion_arguments()),
    ));
    statements
}

/// The statements that follow the insert of added keys and bring rows that
/// were stored before up to date, one for each key in its order.
pub fn add_access_keys(access_keys_to_insert: &Vec<AccessKey>) -> (statements: Vec<Statement>)
    ensures
        views_of(statements@) == Seq::new(
            access_keys_to_insert@.len(),
            |i: int| (access_key_refresh_query(), access_keys_to_insert@[i]@.refresh_arguments()),
        ),
{
    let mut statements: Vec<Statement> = Vec::new();
    let mut i: usize = 0;
    while i < access_keys_to_insert.len()
        invariant
            i <= access_keys_to_insert.len(),
            statements@.len() == i,
            forall|j: int|
                0 <= j < i ==> (#[trigger] statements@[j]).query@ == access_key_refresh_query()
                    && statements@[j].args@ == access_keys_to_insert@[j]@.refresh_arguments(),
        decreases access_keys_to_insert.len() - i,
    {
        statements.push(access_keys_to_insert[i].refresh_statement());
        i += 1;
    }
    assert(views_of(statements@) =~= Seq::new(
        access_keys_to_insert@.len(),
        |i: int| (access_key_refresh_query(), access_keys_to_insert@[i]@.refresh_arguments()),
    ));
    statements
}

} // verus!
