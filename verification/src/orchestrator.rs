//! The order in which the record families of a block are written, and what
//! becomes of a block on which a family fails.
//!
//! The families of a block are written in three waves. Receipts come after
//! transactions, because a receipt of the same block finds its transaction
//! in the cache only once the transaction was filed there. Execution
//! outcomes come after receipts, because they take out of the cache what
//! the receipts of the block still have to read.

use crate::cache::ReceiptsCache;
use crate::db_adapters::access_keys::{handle_access_keys, keys_after, AccessKeyChanges};
use crate::db_adapters::account_changes::{
    all_live, change_rows, changes_of, store_account_changes,
};
use crate::db_adapters::accounts::{accounts_after, handle_accounts, AccountChanges};
use crate::db_adapters::blocks::store_block;
use crate::db_adapters::chunks::{chunk_rows, store_chunks};
use crate::db_adapters::execution_outcomes::{
    block_drained, rows_of_shard, store_execution_outcomes, ChunkOutcomes,
};
use crate::db_adapters::transactions::{
    block_seeded, block_transaction_rows, shards_converted, store_transactions,
};
use crate::errors::IndexerError;
use crate::models::account_changes::AccountChange;
use crate::models::blocks::Block;
use crate::models::chunks::Chunk;
use crate::models::transactions::Transaction;
use crate::models::{query_text, Statement};
use crate::seqs::{kept, views_of};
use crate::views::StreamerMessage;
use vstd::prelude::*;

verus! {

/// The families of records that a block gives.
#[derive(Clone, Copy, Debug, PartialEq, Eq, Structural)]
pub enum Family {
    Blocks,
    Chunks,
    Transactions,
    Receipts,
    ExecutionOutcomes,
    AccountChanges,
    Accounts,
    AccessKeys,
}

/// The three waves in which the families of a block are written. The
/// families of one wave may be written side by side; a wave starts when the
/// one before it is through.
#[derive(Clone, Copy, Debug, PartialEq, Eq, Structural)]
pub enum Wave {
    First,
    Second,
    Third,
}

impl Family {
    /// The wave in which the family is written.
    pub open spec fn wave_of(self) -> Wave {
        match self {
            Family::Blocks | Family::Chunks | Family::Transactions => Wave::First,
            Family::Receipts => Wave::Second,
            _ => Wave::Third,
        }
    }

    /// The wave in which the family is written.
    pub fn wave(&self) -> (wave: Wave)
        ensures
            wave == self.wave_of(),
    {
        match self {
            Family::Blocks => Wave::First,
            Family::Chunks => Wave::First,
            Family::Transactions => Wave::First,
            Family::Receipts => Wave::Second,
            _ => Wave::Third,
        }
    }
}

impl Wave {
    /// The wave that follows, if any.
    pub open spec fn following(self) -> Option<Wave> {
        match self {
            Wave::First => Some(Wave::Second),
            Wave::Second => Some(Wave::Third),
            Wave::Third => None,
        }
    }

    /// The families of the wave, in the order in which they are named.
    pub open spec fn families_of(self) -> Seq<Family> {
        match self {
            Wave::First => seq![Family::Blocks, Family::Chunks, Family::Transactions],
            Wave::Second => seq![Family::Receipts],
            Wave::Third => seq![
                Family::ExecutionOutcomes,
                Family::AccountChanges,
                Family::Accounts,
                Family::AccessKeys,
            ],
        }
    }

    /// The families of the wave.
    pub fn families(&self) -> (families: Vec<Family>)
        ensures
            families@ == self.families_of(),
    {
        let families = match self {
            Wave::First => vec![Family::Blocks, Family::Chunks, Family::Transactions],
            Wave::Second => vec![Family::Receipts],
            Wave::Third => vec![
                Family::ExecutionOutcomes,
                Family::AccountChanges,
                Family::Accounts,
                Family::AccessKeys,
            ],
        };
        assert(families@ =~= self.families_of());
        families
    }
}

/// Every family is written in exactly one wave: it is among the families
/// of its wave and of no other.
pub proof fn lemma_every_family_has_its_wave(family: Family, wave: Wave)
    ensures
        wave.families_of().contains(family) <==> family.wave_of() == wave,
{
    let families = wave.families_of();
    if family.wave_of() == wave {
        match family {
            Family::Blocks => assert(families[0] == family),
            Family::Chunks => assert(families[1] == family),
            Family::Transactions => assert(families[2] == family),
            Family::Receipts => assert(families[0] == family),
            Family::ExecutionOutcomes => assert(families[0] == family),
            Family::AccountChanges => assert(families[1] == family),
            Family::Accounts => assert(families[2] == family),
            Family::AccessKeys => assert(families[3] == family),
        }
    }
}

/// Where the orchestrator stands.
#[derive(Clone, Copy, Debug, PartialEq, Eq, Structural)]
pub enum Progress {
    /// No block is in progress.
    Idle,
    /// A wave of the block of this height is being written.
    Running { block_height: u64, wave: Wave },
    /// A fatal error has ended the run.
    Stopped,
}

/// What the orchestrator is told.
#[derive(Clone, Copy, Debug, PartialEq, Eq, Structural)]
pub enum StreamEvent {
    /// The stream has handed out the block of this height.
    Message { block_height: u64 },
    /// Every family of the wave in progress was written.
    WaveDone,
    /// A family of the wave in progress failed.
    WaveFailed { error: IndexerError },
}

/// What the orchestrator asks for.
#[derive(Clone, Copy, Debug, PartialEq, Eq, Structural)]
pub enum Decision {
    /// Write the families of this wave.
    Run { wave: Wave },
    /// The block is through: take the next message.
    NextMessage,
    /// Put the block of this height down for another run, then take the
    /// next message.
    Rerun { block_height: u64 },
    /// End the run with this error.
    Stop { error: IndexerError },
}

/// The state after an event, and the decision that the event brings.
///
/// A message starts the first wave, and only while no block is in
/// progress. A finished wave starts the next; after the third the block is
/// through. A failed wave ends the run, except that a lineage failure in
/// non-strict mode only puts the block down for another run. An event that
/// does not fit the state shows a stream out of order and ends the run.
pub open spec fn transition(progress: Progress, strict_mode: bool, event: StreamEvent) -> (
    Progress,
    Decision,
) {
    match (progress, event) {
        (Progress::Idle, StreamEvent::Message { block_height }) => (
            Progress::Running { block_height, wave: Wave::First },
            Decision::Run { wave: Wave::First },
        ),
        (Progress::Running { block_height, wave }, StreamEvent::WaveDone) => match wave.following() {
            Some(next) => (
                Progress::Running { block_height, wave: next },
                Decision::Run { wave: next },
            ),
            None => (Progress::Idle, Decision::NextMessage),
        },
        (Progress::Running { block_height, wave }, StreamEvent::WaveFailed { error }) => if error
            == IndexerError::UnresolvedLineage && !strict_mode {
            (Progress::Idle, Decision::Rerun { block_height })
        } else {
            (Progress::Stopped, Decision::Stop { error })
        },
        _ => (Progress::Stopped, Decision::Stop { error: IndexerError::Upstream }),
    }
}

/// The orchestrator: it takes the messages of the stream one at a time.
#[derive(Clone, Copy, Debug, PartialEq, Eq, Structural)]
pub struct Orchestrator {
    pub strict_mode: bool,
    pub progress: Progress,
}

impl Orchestrator {
    /// An orchestrator with no block in progress.
    pub fn new(strict_mode: bool) -> (orchestrator: Orchestrator)
        ensures
            orchestrator.strict_mode == strict_mode,
            orchestrator.progress == Progress::Idle,
    {
        Orchestrator { strict_mode, progress: Progress::Idle }
    }

    /// Takes an event and says what to do next.
    pub fn handle(&mut self, event: StreamEvent) -> (decision: Decision)
        ensures
            final(self).strict_mode == old(self).strict_mode,
            (final(self).progress, decision) == transition(
                old(self).progress,
                old(self).strict_mode,
                event,
            ),
    {
        match (self.progress, event) {
            (Progress::Idle, StreamEvent::Message { block_height }) => {
                self.progress = Progress::Running { block_height, wave: Wave::First };
                Decision::Run { wave: Wave::First }
            },
            (Progress::Running { block_height, wave }, StreamEvent::WaveDone) => {
                match wave {
                    Wave::First => {
                        self.progress = Progress::Running { block_height, wave: Wave::Second };
                        Decision::Run { wave: Wave::Second }
                    },
                    Wave::Second => {
                        self.progress = Progress::Running { block_height, wave: Wave::Third };
                        Decision::Run { wave: Wave::Third }
                    },
                    Wave::Third => {
                        self.progress = Progress::Idle;
                        Decision::NextMessage
                    },
                }
            },
            (Progress::Running { block_height, wave }, StreamEvent::WaveFailed { error }) => {
                let lineage = match error {
                    IndexerError::UnresolvedLineage => true,
                    _ => false,
                };
                if lineage && !self.strict_mode {
                    self.progress = Progress::Idle;
                    Decision::Rerun { block_height }
                } else {
                    self.progress = Progress::Stopped;
                    Decision::Stop { error }
                }
            },
            _ => {
                self.progress = Progress::Stopped;
                Decision::Stop { error: IndexerError::Upstream }
            },
        }
    }
}

/// The row of a block is written only as the first thing of a block that
/// starts while no other is in progress, and a block in progress gives way
/// only after its third wave, with the accounts and access keys in it, or
/// when it is given up. So the block row of a message is written after the
/// account and access key updates of the message before it have returned.
pub proof fn lemma_blocks_wait_for_the_block_before(
    progress: Progress,
    strict_mode: bool,
    event: StreamEvent,
)
    ensures
        Family::Blocks.wave_of() == Wave::First,
        Family::Accounts.wave_of() == Wave::Third,
        Family::AccessKeys.wave_of() == Wave::Third,
        transition(progress, strict_mode, event).1 == (Decision::Run { wave: Wave::First })
            ==> progress == Progress::Idle && event is Message,
        transition(progress, strict_mode, event).0 == Progress::Idle ==> progress is Running && (
        (progress->wave == Wave::Third && event == StreamEvent::WaveDone) || event is WaveFailed),
        forall|wave: Wave|
            wave != Wave::First && transition(progress, strict_mode, event).1 == (Decision::Run {
                wave,
            }) ==> progress is Running && progress->wave.following() == Some(wave) && event
                == StreamEvent::WaveDone,
{
}

/// What the first wave of a block writes.
#[derive(Clone, Debug, PartialEq, Eq)]
pub struct FirstWave {
    /// The statement that inserts the row of the block.
    pub block: Statement,
    pub chunks: Vec<Chunk>,
    pub transactions: Vec<Transaction>,
}

/// Builds what the first wave of a message writes: the row of the block,
/// the rows of its chunks and of its transactions. Each transaction is
/// filed in the cache for the receipt that it was converted into. A
/// transaction that was not converted into a receipt shows a malformed
/// stream: nothing is filed then.
pub fn first_wave(
    message: &StreamerMessage,
    receipts_cache: &mut ReceiptsCache,
) -> (made: Result<FirstWave, IndexerError>)
    requires
        old(receipts_cache).wf(),
    ensures
        final(receipts_cache).wf(),
        final(receipts_cache).capacity() == old(receipts_cache).capacity(),
        made is Ok <==> shards_converted(message.shards@, message.shards@.len()),
        made matches Err(e) ==> e == IndexerError::Upstream && final(receipts_cache)@ == old(
            receipts_cache,
        )@,
        made matches Ok(wave) ==> {
            &&& wave.block.query@ == query_text("INSERT IGNORE INTO blocks VALUES"@, 1, 7)
            &&& wave.block.args@ == Block::row_of(message.block)
            &&& views_of(wave.chunks@) == chunk_rows(
                message.shards@,
                message.block.hash,
                message.shards@.len(),
            )
            &&& views_of(wave.transactions@) == block_transaction_rows(
                message.shards@,
                message.block.hash,
                message.block.timestamp,
                message.shards@.len(),
            )
            &&& final(receipts_cache)@ == block_seeded(
                message.shards@,
                old(receipts_cache)@,
                old(receipts_cache).capacity(),
                message.shards@.len(),
            )
        },
{
    let transactions = match store_transactions(
        &message.shards,
        &message.block.hash,
        message.block.timestamp,
        receipts_cache,
    ) {
        Ok(rows) => rows,
        Err(e) => {
            return Err(e);
        },
    };
    let block = store_block(&message.block);
    let chunks = store_chunks(&message.shards, &message.block.hash);
    Ok(FirstWave { block, chunks, transactions })
}

/// What the third wave of a block writes.
#[derive(Clone, Debug, PartialEq, Eq)]
pub struct ThirdWave {
    /// The rows of the execution outcomes, one set for each shard.
    pub execution_outcomes: Vec<ChunkOutcomes>,
    /// The rows of the state changes of the block.
    pub account_changes: Vec<AccountChange>,
    /// The accounts made and deleted, one set for each shard.
    pub accounts: Vec<AccountChanges>,
    /// The access keys added and deleted, one set for each shard.
    pub access_keys: Vec<AccessKeyChanges>,
}

/// Whether the changes are those that the outcomes of a shard make to
/// accounts in a block of the given height.
pub open spec fn accounts_of_shard(
    changes: AccountChanges,
    shard: crate::views::IndexerShard,
    block_height: u64,
) -> bool {
    let all = accounts_after(
        shard.receipt_execution_outcomes@,
        shard.receipt_execution_outcomes@.len(),
        block_height,
    );
    &&& views_of(changes.new_accounts_to_insert@) == kept(
        all,
        crate::db_adapters::accounts::is_created(),
        all.len(),
    )
    &&& views_of(changes.existing_accounts_to_update@) == kept(
        all,
        crate::db_adapters::accounts::is_deleted_only(),
        all.len(),
    )
}

/// Whether the changes are those that the outcomes of a shard make to
/// access keys in a block of the given height.
pub open spec fn access_keys_of_shard(
    changes: AccessKeyChanges,
    shard: crate::views::IndexerShard,
    block_height: u64,
) -> bool {
    let all = keys_after(
        shard.receipt_execution_outcomes@,
        shard.receipt_execution_outcomes@.len(),
        block_height,
    );
    &&& views_of(changes.access_keys_to_insert@) == kept(
        all.keys,
        crate::db_adapters::access_keys::is_added(),
        all.keys.len(),
    )
    &&& views_of(changes.access_keys_to_update@) == kept(
        all.keys,
        crate::db_adapters::access_keys::is_deleted_only(),
        all.keys.len(),
    )
    &&& crate::db_adapters::access_keys::deleted_account_views(changes.deleted_accounts@)
        == all.deleted_accounts
}

/// Builds what the third wave of a message writes: the rows of the
/// execution outcomes and of the state changes, and what the successful
/// receipts do to accounts and access keys, shard by shard. The lineage
/// moves on in the cache from each executed receipt to the receipts that it
/// produced. A state change with a cause that never reaches a live stream
/// is a schema violation: the cache is left alone then.
pub fn third_wave(
    message: &StreamerMessage,
    receipts_cache: &mut ReceiptsCache,
) -> (made: Result<ThirdWave, IndexerError>)
    requires
        old(receipts_cache).wf(),
    ensures
        final(receipts_cache).wf(),
        final(receipts_cache).capacity() == old(receipts_cache).capacity(),
        made is Ok <==> all_live(changes_of(message.shards@, message.shards@.len())),
        made matches Err(e) ==> e == IndexerError::SchemaViolation && final(receipts_cache)@
            == old(receipts_cache)@,
        made matches Ok(wave) ==> {
            &&& final(receipts_cache)@ == block_drained(
                message.shards@,
                old(receipts_cache)@,
                old(receipts_cache).capacity(),
                message.shards@.len(),
            )
            &&& views_of(wave.account_changes@) == change_rows(
                changes_of(message.shards@, message.shards@.len()),
                message.block.hash,
                message.block.timestamp,
            )
            &&& wave.execution_outcomes@.len() == message.shards@.len()
            &&& wave.accounts@.len() == message.shards@.len()
            &&& wave.access_keys@.len() == message.shards@.len()
            &&& forall|s: int|
                0 <= s < message.shards@.len() ==> rows_of_shard(
                    #[trigger] wave.execution_outcomes@[s],
                    message.shards@[s],
                    message.block.hash,
                    message.block.timestamp,
                )
            &&& forall|s: int|
                0 <= s < message.shards@.len() ==> accounts_of_shard(
                    #[trigger] wave.accounts@[s],
                    message.shards@[s],
                    message.block.height,
                )
            &&& forall|s: int|
                0 <= s < message.shards@.len() ==> access_keys_of_shard(
                    #[trigger] wave.access_keys@[s],
                    message.shards@[s],
                    message.block.height,
                )
        },
{
    let account_changes = match store_account_changes(
        &message.shards,
        &message.block.hash,
        message.block.timestamp,
    ) {
        Ok(rows) => rows,
        Err(e) => {
            return Err(e);
        },
    };
    let execution_outcomes = store_execution_outcomes(
        &message.shards,
        &message.block.hash,
        message.block.timestamp,
        receipts_cache,
    );
    let mut accounts: Vec<AccountChanges> = Vec::new();
    let mut access_keys: Vec<AccessKeyChanges> = Vec::new();
    let mut i: usize = 0;
    while i < message.shards.len()
        invariant
            i <= message.shards@.len(),
            accounts@.len() == i,
            access_keys@.len() == i,
            forall|s: int|
                0 <= s < i ==> accounts_of_shard(
                    #[trigger] accounts@[s],
                    message.shards@[s],
                    message.block.height,
                ),
            forall|s: int|
                0 <= s < i ==> access_keys_of_shard(
                    #[trigger] access_keys@[s],
                    message.shards@[s],
                    message.block.height,
                ),
        decreases message.shards@.len() - i,
    {
        let outcomes = &message.shards[i].receipt_execution_outcomes;
        accounts.push(handle_accounts(outcomes, message.block.height));
        access_keys.push(handle_access_keys(outcomes, message.block.height));
        i += 1;
    }
    Ok(ThirdWave { execution_outcomes, account_changes, accounts, access_keys })
}

} // verus!
