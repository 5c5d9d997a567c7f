//! The rows of the account changes of a block.

use crate::errors::IndexerError;
use crate::hashes::CryptoHash;
use crate::models::account_changes::AccountChange;
use crate::models::{index_column, ColumnValue};
use crate::seqs::views_of;
use crate::views::{IndexerShard, StateChangeWithCauseView};
use vstd::prelude::*;

verus! {

/// The state changes of the first `n` shards of a block, shard after shard.
pub open spec fn changes_of(shards: Seq<IndexerShard>, n: nat) -> Seq<StateChangeWithCauseView>
    recommends
        n <= shards.len(),
    decreases n,
{
    if n == 0 {
        Seq::<StateChangeWithCauseView>::empty()
    } else {
        changes_of(shards, (n - 1) as nat) + shards[n - 1].state_changes@
    }
}

/// Whether every state change has a cause that a live stream can show.
pub open spec fn all_live(changes: Seq<StateChangeWithCauseView>) -> bool {
    forall|i: int| 0 <= i < changes.len() ==> (#[trigger] changes[i]).cause.is_live()
}

/// The rows of state changes, each with its place among them.
pub open spec fn change_rows(
    changes: Seq<StateChangeWithCauseView>,
    block_hash: CryptoHash,
    block_timestamp: u64,
) -> Seq<Seq<ColumnValue>> {
    Seq::new(
        changes.len(),
        |i: int| AccountChange::row_of(changes[i], block_hash, block_timestamp, i as i32),
    )
}

/// The rows of the state changes of a block are numbered by their place:
/// from zero, without a gap, as long as the places fit the column.
pub proof fn lemma_change_indices_are_dense(
    changes: Seq<StateChangeWithCauseView>,
    block_hash: CryptoHash,
    block_timestamp: u64,
)
    requires
        changes.len() <= i32::MAX,
    ensures
        change_rows(changes, block_hash, block_timestamp).len() == changes.len(),
        forall|i: int|
            0 <= i < changes.len() ==> (#[trigger] change_rows(
                changes,
                block_hash,
                block_timestamp,
            )[i])[2] == ColumnValue::Integer(i),
{
}

/// The state changes of the first shards are among those of all.
proof fn lemma_changes_prefix(shards: Seq<IndexerShard>, n: nat, m: nat)
    requires
        n <= m <= shards.len(),
    ensures
        changes_of(shards, n).len() <= changes_of(shards, m).len(),
        forall|i: int|
            0 <= i < changes_of(shards, n).len() ==> #[trigger] changes_of(shards, m)[i]
                == changes_of(shards, n)[i],
    decreases m - n,
{
    if n < m {
        lemma_changes_prefix(shards, n, (m - 1) as nat);
    }
}

/// Appends the rows of the state changes of one shard to those of the
/// shards before it, counting on from their number. A cause that never
/// reaches a live stream is a schema violation.
fn store_account_changes_for_chunk(
    state_changes: &Vec<StateChangeWithCauseView>,
    block_hash: &CryptoHash,
    block_timestamp: u64,
    rows: &mut Vec<AccountChange>,
    Ghost(before): Ghost<Seq<StateChangeWithCauseView>>,
) -> (done: Result<(), IndexerError>)
    requires
        views_of(old(rows)@) == change_rows(before, *block_hash, block_timestamp),
    ensures
        done is Ok <==> all_live(state_changes@),
        done matches Err(e) ==> e == IndexerError::SchemaViolation,
        done is Ok ==> views_of(final(rows)@) == change_rows(
            before + state_changes@,
            *block_hash,
            block_timestamp,
        ),
{
    let mut i: usize = 0;
    assert(before + state_changes@.take(0) =~= before);
    while i < state_changes.len()
        invariant
            i <= state_changes.len(),
            all_live(state_changes@.take(i as int)),
            views_of(rows@) == change_rows(
                before + state_changes@.take(i as int),
                *block_hash,
                block_timestamp,
            ),
        decreases state_changes.len() - i,
    {
        let ghost seen = before + state_changes@.take(i as int);
        let ghost prior = views_of(rows@);
        assert(rows@.len() == seen.len()) by {
            assert(prior.len() == rows@.len());
        }
        match AccountChange::from_state_change_with_cause(
            &state_changes[i],
            block_hash,
            block_timestamp,
            index_column(rows.len()),
        ) {
            Ok(row) => {
                rows.push(row);
            },
            Err(e) => {
                assert(!state_changes@[i as int].cause.is_live());
                return Err(e);
            },
        }
        i += 1;
        proof {
            let now = before + state_changes@.take(i as int);
            assert(now =~= seen.push(state_changes@[i - 1]));
            assert forall|k: int| 0 <= k < now.len() implies #[trigger] views_of(rows@)[k]
                == change_rows(now, *block_hash, block_timestamp)[k] by {
                if k < seen.len() {
                    assert(prior[k] == change_rows(seen, *block_hash, block_timestamp)[k]);
                    assert(views_of(rows@)[k] == prior[k]);
                }
            }
            assert(views_of(rows@) =~= change_rows(now, *block_hash, block_timestamp));
            assert forall|k: int| 0 <= k < i implies (#[trigger] state_changes@.take(
                i as int,
            )[k]).cause.is_live() by {
                if k < i - 1 {
                    assert(state_changes@.take(i as int)[k] == state_changes@.take(i - 1)[k]);
                }
            }
        }
    }
    assert(state_changes@.take(state_changes@.len() as int) =~= state_changes@);
    Ok(())
}

/// Builds the rows of the state changes of a block, shard after shard. The
/// rows are counted through the block, from zero and without a gap. A cause
/// that never reaches a live stream is a schema violation.
pub fn store_account_changes(
    shards: &Vec<IndexerShard>,
    block_hash: &CryptoHash,
    block_timestamp: u64,
) -> (made: Result<Vec<AccountChange>, IndexerError>)
    ensures
        made is Ok <==> all_live(changes_of(shards@, shards@.len())),
        made matches Err(e) ==> e == IndexerError::SchemaViolation,
        made matches Ok(rows) ==> views_of(rows@) == change_rows(
            changes_of(shards@, shards@.len()),
            *block_hash,
            block_timestamp,
        ),
{
    let mut rows: Vec<AccountChange> = Vec::new();
    let mut i: usize = 0;
    assert(views_of(rows@) =~= change_rows(changes_of(shards@, 0), *block_hash, block_timestamp));
    while i < shards.len()
        invariant
            i <= shards.len(),
            all_live(changes_of(shards@, i as nat)),
            views_of(rows@) == change_rows(
                changes_of(shards@, i as nat),
                *block_hash,
                block_timestamp,
            ),
        decreases shards.len() - i,
    {
        let ghost before = changes_of(shards@, i as nat);
        let ghost own = shards@[i as int].state_changes@;
        match store_account_changes_for_chunk(
            &shards[i].state_changes,
            block_hash,
            block_timestamp,
            &mut rows,
            Ghost(before),
        ) {
            Ok(()) => {},
            Err(e) => {
                proof {
                    let k = choose|k: int| 0 <= k < own.len() && !(#[trigger] own[k]).cause.is_live();
                    let all = changes_of(shards@, shards@.len());
                    lemma_changes_prefix(shards@, (i + 1) as nat, shards@.len());
                    assert(changes_of(shards@, (i + 1) as nat)[before.len() + k] == own[k]);
                    assert(!all[before.len() + k].cause.is_live());
                }
                return Err(e);
            },
        }
        i += 1;
        assert forall|k: int| 0 <= k < changes_of(shards@, i as nat).len() implies (
        #[trigger] changes_of(shards@, i as nat)[k]).cause.is_live() by {
            if k < before.len() {
                assert(changes_of(shards@, i as nat)[k] == before[k]);
            } else {
                assert(changes_of(shards@, i as nat)[k] == own[k - before.len()]);
            }
        }
    }
    Ok(rows)
}

} // verus!
