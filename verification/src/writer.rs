//! The batched writer: how a run of records is cut into insert statements,
//! and how often and after which delays a failed statement is tried again.

use crate::errors::IndexerError;
use crate::models::{query_text, rows_of, ColumnValue, MySqlMethods, SqlArguments, Statement};
use crate::seqs::views_of;
use vstd::prelude::*;

verus! {

/// The number of rows that one insert statement carries at most, unless
/// the configuration says otherwise.
pub const CHUNK_SIZE_FOR_BATCH_INSERT: usize = 500;

/// The items cut into batches of `chunk_size`: all but the last are full,
/// and the last is not empty.
pub open spec fn batches<T>(items: Seq<T>, chunk_size: nat) -> Seq<Seq<T>>
    decreases items.len(),
{
    if items.len() == 0 || chunk_size == 0 {
        Seq::<Seq<T>>::empty()
    } else if items.len() <= chunk_size {
        seq![items]
    } else {
        seq![items.take(chunk_size as int)] + batches(items.skip(chunk_size as int), chunk_size)
    }
}

/// The insert statement of one batch in contracts: its text and its
/// parameters.
pub open spec fn batch_statement<T: MySqlMethods>(batch: Seq<T>) -> (Seq<char>, Seq<ColumnValue>) {
    (query_text(T::statement_head(), batch.len(), T::columns()), rows_of(batch))
}

/// The insert statements of a run of records.
pub open spec fn batch_statements<T: MySqlMethods>(items: Seq<T>, chunk_size: nat) -> Seq<
    (Seq<char>, Seq<ColumnValue>),
> {
    Seq::new(
        batches(items, chunk_size).len(),
        |k: int| batch_statement(batches(items, chunk_size)[k]),
    )
}

/// No batch is empty or longer than the chunk size, and the batches one
/// after the other are the items.
pub proof fn lemma_batches<T>(items: Seq<T>, chunk_size: nat)
    requires
        chunk_size > 0,
    ensures
        forall|k: int|
            0 <= k < batches(items, chunk_size).len() ==> 0 < (#[trigger] batches(
                items,
                chunk_size,
            )[k]).len() <= chunk_size,
        batches(items, chunk_size).flatten() == items,
        items.len() > 0 ==> batches(items, chunk_size).len() > 0,
    decreases items.len(),
{
    let all = batches(items, chunk_size);
    if items.len() == 0 {
        assert(all.flatten() =~= items);
    } else if items.len() <= chunk_size {
        assert(all.flatten() =~= items) by {
            assert(all.drop_first() =~= Seq::<Seq<T>>::empty());
            assert(all.drop_first().flatten() =~= Seq::<T>::empty());
            assert(all.flatten() =~= all.first() + all.drop_first().flatten());
        }
    } else {
        let rest = batches(items.skip(chunk_size as int), chunk_size);
        lemma_batches(items.skip(chunk_size as int), chunk_size);
        assert forall|k: int| 0 <= k < all.len() implies 0 < (#[trigger] all[k]).len()
            <= chunk_size by {
            if k > 0 {
                assert(all[k] == rest[k - 1]);
            }
        }
        assert(all.drop_first() =~= rest);
        assert(all.flatten() =~= all.first() + all.drop_first().flatten());
        assert(all.flatten() =~= items);
    }
}

/// The parameters of a batch are as many as its records times the columns
/// of the table.
pub proof fn lemma_rows_of_len<T: MySqlMethods>(items: Seq<T>)
    ensures
        rows_of(items).len() == items.len() * T::columns(),
    decreases items.len(),
{
    if items.len() > 0 {
        lemma_rows_of_len(items.drop_last());
        items.last().row_is_complete();
        assert((items.len() - 1) * T::columns() + T::columns() == items.len() * T::columns())
            by (nonlinear_arith);
    }
}

/// Builds the insert statement of the records from `start` up to `end`.
fn insert_statement<T: MySqlMethods>(
    items: &Vec<T>,
    start: usize,
    end: usize,
) -> (made: Result<Statement, IndexerError>)
    requires
        start < end <= items@.len(),
    ensures
        made matches Ok(statement) && (statement.query@, statement.args@) == batch_statement(
            items@.subrange(start as int, end as int),
        ),
{
    let ghost batch = items@.subrange(start as int, end as int);
    let mut args = SqlArguments::new();
    let mut j: usize = start;
    assert(items@.subrange(start as int, start as int) =~= Seq::<T>::empty());
    while j < end
        invariant
            start <= j <= end <= items@.len(),
            args@ == rows_of(items@.subrange(start as int, j as int)),
        decreases end - j,
    {
        items[j].add_to_args(&mut args);
        j += 1;
        proof {
            let now = items@.subrange(start as int, j as int);
            assert(now.drop_last() =~= items@.subrange(start as int, j - 1));
            assert(now.last() == items@[j - 1]);
        }
    }
    match T::get_query(end - start) {
        Ok(query) => Ok(Statement { query, args }),
        Err(e) => Err(e),
    }
}

/// Cuts a run of records into insert statements of at most `chunk_size`
/// rows each, in the order of the records. Each statement has one
/// placeholder group for each of its rows, and binds the columns of its
/// rows one after the other.
///
/// An empty run and a chunk size of zero are bad input.
pub fn chunked_insert<T: MySqlMethods>(
    items: &Vec<T>,
    chunk_size: usize,
) -> (made: Result<Vec<Statement>, IndexerError>)
    ensures
        made is Err <==> items@.len() == 0 || chunk_size == 0,
        made matches Err(e) ==> e == IndexerError::BadInput,
        made matches Ok(statements) ==> views_of(statements@) == batch_statements(
            items@,
            chunk_size as nat,
        ),
{
    if items.len() == 0 || chunk_size == 0 {
        return Err(IndexerError::BadInput);
    }
    let ghost all = batches(items@, chunk_size as nat);
    let mut statements: Vec<Statement> = Vec::new();
    let mut start: usize = 0;
    assert(items@.skip(0) =~= items@);
    assert(Seq::<Seq<T>>::empty() + all =~= all);
    let ghost mut done: Seq<Seq<T>> = Seq::empty();
    while start < items.len()
        invariant
            start <= items@.len(),
            chunk_size > 0,
            all == batches(items@, chunk_size as nat),
            done + batches(items@.skip(start as int), chunk_size as nat) == all,
            statements@.len() == done.len(),
            forall|k: int|
                0 <= k < done.len() ==> ((#[trigger] statements@[k]).query@, statements@[k].args@)
                    == batch_statement(done[k]),
        decreases items@.len() - start,
    {
        let end = if items.len() - start > chunk_size {
            start + chunk_size
        } else {
            items.len()
        };
        let ghost rest = items@.skip(start as int);
        let ghost batch = items@.subrange(start as int, end as int);
        proof {
            if rest.len() <= chunk_size {
                assert(batch =~= rest);
                assert(items@.skip(end as int) =~= Seq::<T>::empty());
                assert(batches(rest, chunk_size as nat) =~= seq![batch] + batches(
                    items@.skip(end as int),
                    chunk_size as nat,
                ));
            } else {
                assert(batch =~= rest.take(chunk_size as int));
                assert(items@.skip(end as int) =~= rest.skip(chunk_size as int));
            }
            assert(done.push(batch) + batches(items@.skip(end as int), chunk_size as nat) =~= done
                + batches(rest, chunk_size as nat));
        }
        match insert_statement(items, start, end) {
            Ok(statement) => {
                statements.push(statement);
            },
            Err(e) => {
                return Err(e);
            },
        }
        proof {
            done = done.push(batch);
        }
        start = end;
    }
    proof {
        assert(items@.skip(items@.len() as int) =~= Seq::<T>::empty());
        assert(done =~= all);
        assert(views_of(statements@) =~= batch_statements(items@, chunk_size as nat));
    }
    Ok(statements)
}

/// How often a statement is tried, and how long the writer waits between
/// the tries.
#[derive(Clone, Copy, Debug, PartialEq, Eq, Structural)]
pub struct RetryPolicy {
    /// The number of tries after which the writer gives up.
    pub retry_count: usize,
    /// The wait after the first failure, in milliseconds.
    pub base_delay_ms: u32,
    /// The wait from which on the waits stop growing, in milliseconds.
    pub max_delay_ms: u32,
}

/// The wait after the failure with the given number, counted from zero: the
/// base delay at first, and twice the wait before as long as that was under
/// the maximum.
pub open spec fn delay_after(policy: RetryPolicy, failures: nat) -> nat
    decreases failures,
{
    if failures == 0 {
        policy.base_delay_ms as nat
    } else {
        let before = delay_after(policy, (failures - 1) as nat);
        if before < policy.max_delay_ms {
            2 * before
        } else {
            before
        }
    }
}

/// The waits never shrink, and stay under twice the maximum unless the
/// base delay itself is longer.
pub proof fn lemma_delay_bounds(policy: RetryPolicy, failures: nat)
    ensures
        delay_after(policy, failures) >= policy.base_delay_ms,
        delay_after(policy, failures) <= policy.base_delay_ms || delay_after(policy, failures) < 2
            * policy.max_delay_ms,
        failures > 0 ==> delay_after(policy, failures) >= delay_after(
            policy,
            (failures - 1) as nat,
        ),
    decreases failures,
{
    if failures > 0 {
        lemma_delay_bounds(policy, (failures - 1) as nat);
    }
}

/// Where the writer stands with one statement.
#[derive(Clone, Copy, Debug, PartialEq, Eq, Structural)]
pub struct Retry {
    /// The tries begun so far.
    pub attempts: usize,
    /// The tries that have failed so far.
    pub failures: usize,
    /// The wait after the next failure, in milliseconds.
    pub interval_ms: u64,
}

/// What the writer does next with a statement.
#[derive(Clone, Copy, Debug, PartialEq, Eq, Structural)]
pub enum WriteAction {
    /// Run the statement.
    Execute,
    /// Wait this many milliseconds, then ask again.
    Sleep(u64),
    /// The statement went through.
    Done,
    /// The retry budget is spent.
    GiveUp(IndexerError),
}

/// What happened to a statement since the writer last decided.
#[derive(Clone, Copy, Debug, PartialEq, Eq, Structural)]
pub enum WriteEvent {
    /// Nothing yet, or a wait is over.
    Ready,
    /// The database took the statement.
    Succeeded,
    /// The database failed on the statement in a way that may pass.
    Failed,
}

impl Retry {
    /// The state is one that the writer can reach under the policy.
    pub open spec fn wf(&self, policy: RetryPolicy) -> bool {
        &&& self.failures <= self.attempts <= policy.retry_count
        &&& self.interval_ms == delay_after(policy, self.failures as nat)
    }

    /// The state in contracts after an event, and the action that it asks
    /// for. A statement is run as long as tries are left; a failure is
    /// followed by the wait that is due, and the wait after it doubles as
    /// long as it was under the maximum.
    pub open spec fn after(self, policy: RetryPolicy, event: WriteEvent) -> (Retry, WriteAction) {
        match event {
            WriteEvent::Ready => if self.attempts == policy.retry_count {
                (self, WriteAction::GiveUp(IndexerError::Transient))
            } else {
                (Retry { attempts: (self.attempts + 1) as usize, ..self }, WriteAction::Execute)
            },
            WriteEvent::Succeeded => (self, WriteAction::Done),
            WriteEvent::Failed => if self.failures < self.attempts {
                (
                    Retry {
                        failures: (self.failures + 1) as usize,
                        interval_ms: delay_after(policy, (self.failures + 1) as nat) as u64,
                        ..self
                    },
                    WriteAction::Sleep(self.interval_ms),
                )
            } else {
                (self, WriteAction::Sleep(self.interval_ms))
            },
        }
    }

    /// The state before the first try.
    pub fn new(policy: &RetryPolicy) -> (retry: Retry)
        ensures
            retry.wf(*policy),
            retry.attempts == 0,
            retry.failures == 0,
            retry.interval_ms == policy.base_delay_ms,
    {
        Retry { attempts: 0, failures: 0, interval_ms: policy.base_delay_ms as u64 }
    }

    /// Takes an event and says what to do next.
    pub fn step(&mut self, policy: &RetryPolicy, event: WriteEvent) -> (action: WriteAction)
        requires
            old(self).wf(*policy),
        ensures
            final(self).wf(*policy),
            (*final(self), action) == old(self).after(*policy, event),
    {
        match event {
            WriteEvent::Ready => {
                if self.attempts == policy.retry_count {
                    WriteAction::GiveUp(IndexerError::Transient)
                } else {
                    self.attempts = self.attempts + 1;
                    WriteAction::Execute
                }
            },
            WriteEvent::Succeeded => WriteAction::Done,
            WriteEvent::Failed => {
                let wait = self.interval_ms;
                if self.failures < self.attempts {
                    proof {
                        lemma_delay_bounds(*policy, self.failures as nat);
                        lemma_delay_bounds(*policy, (self.failures + 1) as nat);
                    }
                    if self.interval_ms < policy.max_delay_ms as u64 {
                        self.interval_ms = self.interval_ms * 2;
                    }
                    self.failures = self.failures + 1;
                }
                WriteAction::Sleep(wait)
            },
        }
    }
}

} // verus!
