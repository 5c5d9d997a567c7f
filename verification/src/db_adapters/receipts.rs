//! The rows that the receipts of a chunk give, once the transaction behind
//! each of them is known, and the entries they leave in the lineage cache.

use crate::cache::{lookup, stored, LineageEntry, ReceiptsCache};
use crate::hashes::{CryptoHash, ReceiptOrDataId};
use crate::lineage::LineageMap;
use crate::models::receipts::{
    ActionReceipt, ActionReceiptAction, ActionReceiptsInput, ActionReceiptsOutput, DataReceipt,
};
use crate::models::{index_column, ColumnValue};
use crate::seqs::views_of;
use crate::views::{
    ActionWithArgs, ChunkHeaderView, DataReceiverView, ReceiptEnumView, ReceiptView,
};
use vstd::prelude::*;

verus! {

/// The cache after the transaction hash was filed under the data ids of the
/// first `n` outputs of a receipt.
pub open spec fn seed_outputs(
    cache: Seq<LineageEntry>,
    limit: nat,
    receivers: Seq<DataReceiverView>,
    text: Seq<char>,
    n: nat,
) -> Seq<LineageEntry>
    recommends
        n <= receivers.len(),
    decreases n,
{
    if n == 0 {
        cache
    } else {
        stored(
            seed_outputs(cache, limit, receivers, text, (n - 1) as nat),
            (true, receivers[n - 1].data_id@),
            text,
            limit,
        )
    }
}

/// The cache after the outputs of the first `n` receipts of a chunk were
/// filed: each action receipt whose transaction is known files it under the
/// data id of each of its outputs.
pub open spec fn seeded(
    receipts: Seq<ReceiptView>,
    map: Seq<LineageEntry>,
    cache: Seq<LineageEntry>,
    limit: nat,
    n: nat,
) -> Seq<LineageEntry>
    recommends
        n <= receipts.len(),
    decreases n,
{
    if n == 0 {
        cache
    } else {
        let before = seeded(receipts, map, cache, limit, (n - 1) as nat);
        let receipt = receipts[n - 1];
        match (receipt.receipt, lookup(map, receipt.lineage_key())) {
            (ReceiptEnumView::Action { output_data_receivers, .. }, Some(text)) => seed_outputs(
                before,
                limit,
                output_data_receivers@,
                text,
                output_data_receivers@.len(),
            ),
            _ => before,
        }
    }
}

/// Files the transaction of each action receipt under the data ids of its
/// outputs, so that the data receipts of later blocks find it in the cache.
/// At the time an action receipt shows its outputs, the ids of the data
/// receipts that will carry them are not known: only the data ids are.
pub fn seed_output_data(
    receipts: &Vec<ReceiptView>,
    tx_hashes_for_receipts: &LineageMap,
    receipts_cache: &mut ReceiptsCache,
)
    requires
        tx_hashes_for_receipts.wf(),
        old(receipts_cache).wf(),
    ensures
        final(receipts_cache).wf(),
        final(receipts_cache).capacity() == old(receipts_cache).capacity(),
        final(receipts_cache)@ == seeded(
            receipts@,
            tx_hashes_for_receipts@,
            old(receipts_cache)@,
            old(receipts_cache).capacity(),
            receipts@.len(),
        ),
{
    let ghost limit = receipts_cache.capacity();
    let mut i: usize = 0;
    while i < receipts.len()
        invariant
            i <= receipts.len(),
            tx_hashes_for_receipts.wf(),
            receipts_cache.wf(),
            receipts_cache.capacity() == limit,
            limit == old(receipts_cache).capacity(),
            receipts_cache@ == seeded(
                receipts@,
                tx_hashes_for_receipts@,
                old(receipts_cache)@,
                limit,
                i as nat,
            ),
        decreases receipts.len() - i,
    {
        let receipt = &receipts[i];
        if let ReceiptEnumView::Action { output_data_receivers, .. } = &receipt.receipt {
            let id = receipt.lineage_id();
            match tx_hashes_for_receipts.get(&id) {
                Some(transaction_hash) => {
                    let ghost before = receipts_cache@;
                    let mut j: usize = 0;
                    while j < output_data_receivers.len()
                        invariant
                            j <= output_data_receivers.len(),
                            receipts_cache.wf(),
                            receipts_cache.capacity() == limit,
                            receipts_cache@ == seed_outputs(
                                before,
                                limit,
                                output_data_receivers@,
                                transaction_hash@,
                                j as nat,
                            ),
                        decreases output_data_receivers.len() - j,
                    {
                        receipts_cache.cache_set(
                            ReceiptOrDataId::DataId(output_data_receivers[j].data_id),
                            transaction_hash.clone(),
                        );
                        j += 1;
                    }
                },
                None => {},
            }
        }
        i += 1;
    }
}

/// The rows of the resolved action receipts among the first `n` receipts of
/// a chunk. Each carries its place in the chunk and the hash of its
/// transaction as the map has it.
pub open spec fn action_receipt_rows(
    receipts: Seq<ReceiptView>,
    map: Seq<LineageEntry>,
    block_hash: CryptoHash,
    chunk_header: ChunkHeaderView,
    block_timestamp: u64,
    n: nat,
) -> Seq<Seq<ColumnValue>>
    recommends
        n <= receipts.len(),
    decreases n,
{
    if n == 0 {
        Seq::<Seq<ColumnValue>>::empty()
    } else {
        let before = action_receipt_rows(
            receipts,
            map,
            block_hash,
            chunk_header,
            block_timestamp,
            (n - 1) as nat,
        );
        let receipt = receipts[n - 1];
        match lookup(map, receipt.lineage_key()) {
            Some(text) => if receipt.is_action() {
                before.push(
                    ActionReceipt::row_of(
                        receipt,
                        block_hash,
                        text,
                        chunk_header,
                        (n - 1) as i32,
                        block_timestamp,
                    ),
                )
            } else {
                before
            },
            None => before,
        }
    }
}

/// The rows of the resolved data receipts among the first `n` receipts of a
/// chunk.
pub open spec fn data_receipt_rows(
    receipts: Seq<ReceiptView>,
    map: Seq<LineageEntry>,
    block_hash: CryptoHash,
    chunk_header: ChunkHeaderView,
    block_timestamp: u64,
    n: nat,
) -> Seq<Seq<ColumnValue>>
    recommends
        n <= receipts.len(),
    decreases n,
{
    if n == 0 {
        Seq::<Seq<ColumnValue>>::empty()
    } else {
        let before = data_receipt_rows(
            receipts,
            map,
            block_hash,
            chunk_header,
            block_timestamp,
            (n - 1) as nat,
        );
        let receipt = receipts[n - 1];
        match lookup(map, receipt.lineage_key()) {
            Some(text) => if receipt.is_action() {
                before
            } else {
                before.push(
                    DataReceipt::row_of(
                        receipt,
                        block_hash,
                        text,
                        chunk_header,
                        (n - 1) as i32,
                        block_timestamp,
                    ),
                )
            },
            None => before,
        }
    }
}

/// Whether the map has a transaction for the receipt at a place in a chunk.
pub open spec fn resolved_at(receipts: Seq<ReceiptView>, map: Seq<LineageEntry>, i: int) -> bool {
    0 <= i < receipts.len() && lookup(map, receipts[i].lineage_key()) is Some
}

/// The row of the receipt at a place in a chunk, with the transaction that
/// the map has for it.
pub open spec fn row_of_resolved(
    receipts: Seq<ReceiptView>,
    map: Seq<LineageEntry>,
    block_hash: CryptoHash,
    chunk_header: ChunkHeaderView,
    block_timestamp: u64,
    i: int,
) -> Seq<ColumnValue>
    recommends
        resolved_at(receipts, map, i),
{
    let text = lookup(map, receipts[i].lineage_key()).unwrap();
    if receipts[i].is_action() {
        ActionReceipt::row_of(
            receipts[i],
            block_hash,
            text,
            chunk_header,
            i as i32,
            block_timestamp,
        )
    } else {
        DataReceipt::row_of(receipts[i], block_hash, text, chunk_header, i as i32, block_timestamp)
    }
}

/// Whether a row is that of one of the first `n` receipts of a chunk, of
/// the given kind, with the transaction that the map has for it.
pub open spec fn comes_from_resolved(
    row: Seq<ColumnValue>,
    receipts: Seq<ReceiptView>,
    map: Seq<LineageEntry>,
    block_hash: CryptoHash,
    chunk_header: ChunkHeaderView,
    block_timestamp: u64,
    n: nat,
    action: bool,
) -> bool {
    exists|i: int|
        #[trigger] resolved_at(receipts, map, i) && i < n && receipts[i].is_action() == action
            && row == row_of_resolved(receipts, map, block_hash, chunk_header, block_timestamp, i)
}

/// Every row of an action receipt and of a data receipt belongs to a
/// receipt of the chunk for which the map has a transaction, and names
/// that transaction as the one it originated from. A receipt without a
/// transaction gives no row; where every receipt has one, every receipt
/// gives a row.
pub proof fn lemma_receipt_rows_are_resolved(
    receipts: Seq<ReceiptView>,
    map: Seq<LineageEntry>,
    block_hash: CryptoHash,
    chunk_header: ChunkHeaderView,
    block_timestamp: u64,
    n: nat,
)
    requires
        n <= receipts.len(),
    ensures
        forall|k: int|
            0 <= k < action_receipt_rows(
                receipts,
                map,
                block_hash,
                chunk_header,
                block_timestamp,
                n,
            ).len() ==> comes_from_resolved(
                #[trigger] action_receipt_rows(
                    receipts,
                    map,
                    block_hash,
                    chunk_header,
                    block_timestamp,
                    n,
                )[k],
                receipts,
                map,
                block_hash,
                chunk_header,
                block_timestamp,
                n,
                true,
            ),
        forall|k: int|
            0 <= k < data_receipt_rows(
                receipts,
                map,
                block_hash,
                chunk_header,
                block_timestamp,
                n,
            ).len() ==> comes_from_resolved(
                #[trigger] data_receipt_rows(
                    receipts,
                    map,
                    block_hash,
                    chunk_header,
                    block_timestamp,
                    n,
                )[k],
                receipts,
                map,
                block_hash,
                chunk_header,
                block_timestamp,
                n,
                false,
            ),
        forall|i: int|
            resolved_at(receipts, map, i) ==> (#[trigger] row_of_resolved(
                receipts,
                map,
                block_hash,
                chunk_header,
                block_timestamp,
                i,
            ))[8] == ColumnValue::Text(lookup(map, receipts[i].lineage_key()).unwrap()),
        action_receipt_rows(receipts, map, block_hash, chunk_header, block_timestamp, n).len()
            + data_receipt_rows(receipts, map, block_hash, chunk_header, block_timestamp, n).len()
            <= n,
        crate::lineage::all_resolved(receipts, map, n) ==> action_receipt_rows(
            receipts,
            map,
            block_hash,
            chunk_header,
            block_timestamp,
            n,
        ).len() + data_receipt_rows(
            receipts,
            map,
            block_hash,
            chunk_header,
            block_timestamp,
            n,
        ).len() == n,
    decreases n,
{
    if n > 0 {
        let m = (n - 1) as nat;
        lemma_receipt_rows_are_resolved(receipts, map, block_hash, chunk_header, block_timestamp, m);
        let actions = action_receipt_rows(
            receipts,
            map,
            block_hash,
            chunk_header,
            block_timestamp,
            n,
        );
        let actions_before = action_receipt_rows(
            receipts,
            map,
            block_hash,
            chunk_header,
            block_timestamp,
            m,
        );
        let data = data_receipt_rows(receipts, map, block_hash, chunk_header, block_timestamp, n);
        let data_before = data_receipt_rows(
            receipts,
            map,
            block_hash,
            chunk_header,
            block_timestamp,
            m,
        );
        assert forall|k: int| 0 <= k < actions.len() implies comes_from_resolved(
            #[trigger] actions[k],
            receipts,
            map,
            block_hash,
            chunk_header,
            block_timestamp,
            n,
            true,
        ) by {
            if k < actions_before.len() {
                assert(actions[k] == actions_before[k]);
                assert(comes_from_resolved(
                    actions_before[k],
                    receipts,
                    map,
                    block_hash,
                    chunk_header,
                    block_timestamp,
                    m,
                    true,
                ));
                let i = choose|i: int|
                    #[trigger] resolved_at(receipts, map, i) && i < m && receipts[i].is_action()
                        == true && actions_before[k] == row_of_resolved(
                        receipts,
                        map,
                        block_hash,
                        chunk_header,
                        block_timestamp,
                        i,
                    );
                assert(resolved_at(receipts, map, i) && i < n);
            } else {
                assert(resolved_at(receipts, map, n - 1));
            }
        }
        assert forall|k: int| 0 <= k < data.len() implies comes_from_resolved(
            #[trigger] data[k],
            receipts,
            map,
            block_hash,
            chunk_header,
            block_timestamp,
            n,
            false,
        ) by {
            if k < data_before.len() {
                assert(data[k] == data_before[k]);
                assert(comes_from_resolved(
                    data_before[k],
                    receipts,
                    map,
                    block_hash,
                    chunk_header,
                    block_timestamp,
                    m,
                    false,
                ));
                let i = choose|i: int|
                    #[trigger] resolved_at(receipts, map, i) && i < m && receipts[i].is_action()
                        == false && data_before[k] == row_of_resolved(
                        receipts,
                        map,
                        block_hash,
                        chunk_header,
                        block_timestamp,
                        i,
                    );
                assert(resolved_at(receipts, map, i) && i < n);
            } else {
                assert(resolved_at(receipts, map, n - 1));
            }
        }
        if crate::lineage::all_resolved(receipts, map, n) {
            assert(crate::cache::holds_key(map, receipts[n - 1].lineage_key()));
            assert(crate::lineage::all_resolved(receipts, map, m));
        }
    }
}

/// The rows of the actions of one receipt, each with its place among them.
pub open spec fn actions_of(
    receipt: ReceiptView,
    actions: Seq<ActionWithArgs>,
    block_hash: CryptoHash,
    block_timestamp: u64,
    shard_id: u64,
) -> Seq<Seq<ColumnValue>> {
    Seq::new(
        actions.len(),
        |k: int|
            ActionReceiptAction::row_of(
                receipt.receipt_id.text(),
                actions[k],
                receipt.predecessor_id@,
                receipt.receiver_id@,
                block_hash,
                block_timestamp,
                shard_id as i32,
                k as i32,
            ),
    )
}

/// The rows of the inputs of one receipt, each with its place among them.
pub open spec fn inputs_of(
    receipt: ReceiptView,
    input_data_ids: Seq<CryptoHash>,
    block_hash: CryptoHash,
    block_timestamp: u64,
    shard_id: u64,
) -> Seq<Seq<ColumnValue>> {
    Seq::new(
        input_data_ids.len(),
        |k: int|
            ActionReceiptsInput::row_of(
                receipt.receipt_id.text(),
                input_data_ids[k],
                block_hash,
                block_timestamp,
                shard_id as i32,
                k as i32,
            ),
    )
}

/// The rows of the outputs of one receipt, each with its place among them.
pub open spec fn outputs_of(
    receipt: ReceiptView,
    receivers: Seq<DataReceiverView>,
    block_hash: CryptoHash,
    block_timestamp: u64,
    shard_id: u64,
) -> Seq<Seq<ColumnValue>> {
    Seq::new(
        receivers.len(),
        |k: int|
            ActionReceiptsOutput::row_of(
                receipt.receipt_id.text(),
                receivers[k],
                block_hash,
                block_timestamp,
                shard_id as i32,
                k as i32,
            ),
    )
}

/// The dependent rows of one receipt: of its actions, its inputs and its
/// outputs, in this order. A data receipt and a receipt whose transaction
/// is not known give none.
pub open spec fn dependent_rows_of(
    receipt: ReceiptView,
    map: Seq<LineageEntry>,
    block_hash: CryptoHash,
    block_timestamp: u64,
    shard_id: u64,
) -> (Seq<Seq<ColumnValue>>, Seq<Seq<ColumnValue>>, Seq<Seq<ColumnValue>>) {
    match (receipt.receipt, lookup(map, receipt.lineage_key())) {
        (
            ReceiptEnumView::Action { actions, input_data_ids, output_data_receivers, .. },
            Some(_),
        ) => (
            actions_of(receipt, actions@, block_hash, block_timestamp, shard_id),
            inputs_of(receipt, input_data_ids@, block_hash, block_timestamp, shard_id),
            outputs_of(receipt, output_data_receivers@, block_hash, block_timestamp, shard_id),
        ),
        _ => (
            Seq::<Seq<ColumnValue>>::empty(),
            Seq::<Seq<ColumnValue>>::empty(),
            Seq::<Seq<ColumnValue>>::empty(),
        ),
    }
}

/// The dependent rows of the first `n` receipts of a chunk, receipt after
/// receipt.
pub open spec fn dependent_rows(
    receipts: Seq<ReceiptView>,
    map: Seq<LineageEntry>,
    block_hash: CryptoHash,
    block_timestamp: u64,
    shard_id: u64,
    n: nat,
) -> (Seq<Seq<ColumnValue>>, Seq<Seq<ColumnValue>>, Seq<Seq<ColumnValue>>)
    recommends
        n <= receipts.len(),
    decreases n,
{
    if n == 0 {
        (
            Seq::<Seq<ColumnValue>>::empty(),
            Seq::<Seq<ColumnValue>>::empty(),
            Seq::<Seq<ColumnValue>>::empty(),
        )
    } else {
        let before = dependent_rows(
            receipts,
            map,
            block_hash,
            block_timestamp,
            shard_id,
            (n - 1) as nat,
        );
        let own = dependent_rows_of(receipts[n - 1], map, block_hash, block_timestamp, shard_id);
        (before.0 + own.0, before.1 + own.1, before.2 + own.2)
    }
}

/// The rows of the action receipts of a chunk.
#[derive(Clone, Debug, PartialEq, Eq)]
pub struct ReceiptActions {
    pub action_receipts: Vec<ActionReceipt>,
    pub action_receipt_actions: Vec<ActionReceiptAction>,
    pub action_receipts_input_data: Vec<ActionReceiptsInput>,
    pub action_receipts_output_data: Vec<ActionReceiptsOutput>,
}

/// All rows of the receipts of a chunk.
#[derive(Clone, Debug, PartialEq, Eq)]
pub struct ChunkReceipts {
    pub receipt_actions: ReceiptActions,
    pub data_receipts: Vec<DataReceipt>,
}

/// The rows of the actions of one receipt.
fn receipt_action_rows(
    receipt: &ReceiptView,
    actions: &Vec<ActionWithArgs>,
    block_hash: &CryptoHash,
    block_timestamp: u64,
    shard_id: u64,
) -> (rows: Vec<ActionReceiptAction>)
    ensures
        views_of(rows@) == actions_of(*receipt, actions@, *block_hash, block_timestamp, shard_id),
{
    let mut rows: Vec<ActionReceiptAction> = Vec::new();
    let chunk_index: i32 = #[verifier::truncate]
    (shard_id as i32);
    let mut k: usize = 0;
    while k < actions.len()
        invariant
            k <= actions.len(),
            chunk_index == shard_id as i32,
            rows@.len() == k,
            forall|j: int|
                0 <= j < k ==> (#[trigger] rows@[j])@ == actions_of(
                    *receipt,
                    actions@,
                    *block_hash,
                    block_timestamp,
                    shard_id,
                )[j],
        decreases actions.len() - k,
    {
        rows.push(
            ActionReceiptAction::from_action_view(
                receipt.receipt_id.to_text(),
                &actions[k],
                receipt.predecessor_id.clone(),
                receipt.receiver_id.clone(),
                block_hash,
                block_timestamp,
                chunk_index,
                index_column(k),
            ),
        );
        k += 1;
    }
    assert(views_of(rows@) =~= actions_of(
        *receipt,
        actions@,
        *block_hash,
        block_timestamp,
        shard_id,
    ));
    rows
}

/// The rows of the inputs of one receipt.
fn receipt_input_rows(
    receipt: &ReceiptView,
    input_data_ids: &Vec<CryptoHash>,
    block_hash: &CryptoHash,
    block_timestamp: u64,
    shard_id: u64,
) -> (rows: Vec<ActionReceiptsInput>)
    ensures
        views_of(rows@) == inputs_of(
            *receipt,
            input_data_ids@,
            *block_hash,
            block_timestamp,
            shard_id,
        ),
{
    let mut rows: Vec<ActionReceiptsInput> = Vec::new();
    let chunk_index: i32 = #[verifier::truncate]
    (shard_id as i32);
    let mut k: usize = 0;
    while k < input_data_ids.len()
        invariant
            k <= input_data_ids.len(),
            chunk_index == shard_id as i32,
            rows@.len() == k,
            forall|j: int|
                0 <= j < k ==> (#[trigger] rows@[j])@ == inputs_of(
                    *receipt,
                    input_data_ids@,
                    *block_hash,
                    block_timestamp,
                    shard_id,
                )[j],
        decreases input_data_ids.len() - k,
    {
        rows.push(
            ActionReceiptsInput::from_data_id(
                receipt.receipt_id.to_text(),
                &input_data_ids[k],
                block_hash,
                block_timestamp,
                chunk_index,
                index_column(k),
            ),
        );
        k += 1;
    }
    assert(views_of(rows@) =~= inputs_of(
        *receipt,
        input_data_ids@,
        *block_hash,
        block_timestamp,
        shard_id,
    ));
    rows
}

/// The rows of the outputs of one receipt.
fn receipt_output_rows(
    receipt: &ReceiptView,
    receivers: &Vec<DataReceiverView>,
    block_hash: &CryptoHash,
    block_timestamp: u64,
    shard_id: u64,
) -> (rows: Vec<ActionReceiptsOutput>)
    ensures
        views_of(rows@) == outputs_of(*receipt, receivers@, *block_hash, block_timestamp, shard_id),
{
    let mut rows: Vec<ActionReceiptsOutput> = Vec::new();
    let chunk_index: i32 = #[verifier::truncate]
    (shard_id as i32);
    let mut k: usize = 0;
    while k < receivers.len()
        invariant
            k <= receivers.len(),
            chunk_index == shard_id as i32,
            rows@.len() == k,
            forall|j: int|
                0 <= j < k ==> (#[trigger] rows@[j])@ == outputs_of(
                    *receipt,
                    receivers@,
                    *block_hash,
                    block_timestamp,
                    shard_id,
                )[j],
        decreases receivers.len() - k,
    {
        rows.push(
            ActionReceiptsOutput::from_data_receiver(
                receipt.receipt_id.to_text(),
                &receivers[k],
                block_hash,
                block_timestamp,
                chunk_index,
                index_column(k),
            ),
        );
        k += 1;
    }
    assert(views_of(rows@) =~= outputs_of(
        *receipt,
        receivers@,
        *block_hash,
        block_timestamp,
        shard_id,
    ));
    rows
}

/// Builds the rows of the action receipts of a chunk whose transaction is
/// known: the receipts themselves, and their actions, inputs and outputs.
/// A receipt carries its place in the chunk; an action, an input and an
/// output carry their place in their receipt.
pub fn store_receipt_actions(
    receipts: &Vec<ReceiptView>,
    tx_hashes_for_receipts: &LineageMap,
    block_hash: &CryptoHash,
    chunk_header: &ChunkHeaderView,
    block_timestamp: u64,
) -> (rows: ReceiptActions)
    requires
        tx_hashes_for_receipts.wf(),
    ensures
        views_of(rows.action_receipts@) == action_receipt_rows(
            receipts@,
            tx_hashes_for_receipts@,
            *block_hash,
            *chunk_header,
            block_timestamp,
            receipts@.len(),
        ),
        views_of(rows.action_receipt_actions@) == dependent_rows(
            receipts@,
            tx_hashes_for_receipts@,
            *block_hash,
            block_timestamp,
            chunk_header.shard_id,
            receipts@.len(),
        ).0,
        views_of(rows.action_receipts_input_data@) == dependent_rows(
            receipts@,
            tx_hashes_for_receipts@,
            *block_hash,
            block_timestamp,
            chunk_header.shard_id,
            receipts@.len(),
        ).1,
        views_of(rows.action_receipts_output_data@) == dependent_rows(
            receipts@,
            tx_hashes_for_receipts@,
            *block_hash,
            block_timestamp,
            chunk_header.shard_id,
            receipts@.len(),
        ).2,
{
    let mut action_receipts: Vec<ActionReceipt> = Vec::new();
    let mut action_receipt_actions: Vec<ActionReceiptAction> = Vec::new();
    let mut action_receipts_input_data: Vec<ActionReceiptsInput> = Vec::new();
    let mut action_receipts_output_data: Vec<ActionReceiptsOutput> = Vec::new();
    let shard_id = chunk_header.shard_id;
    let ghost map = tx_hashes_for_receipts@;
    let mut i: usize = 0;
    assert(views_of(action_receipts@) =~= Seq::<Seq<ColumnValue>>::empty());
    assert(views_of(action_receipt_actions@) =~= Seq::<Seq<ColumnValue>>::empty());
    assert(views_of(action_receipts_input_data@) =~= Seq::<Seq<ColumnValue>>::empty());
    assert(views_of(action_receipts_output_data@) =~= Seq::<Seq<ColumnValue>>::empty());
    while i < receipts.len()
        invariant
            i <= receipts.len(),
            tx_hashes_for_receipts.wf(),
            map == tx_hashes_for_receipts@,
            shard_id == chunk_header.shard_id,
            views_of(action_receipts@) == action_receipt_rows(
                receipts@,
                map,
                *block_hash,
                *chunk_header,
                block_timestamp,
                i as nat,
            ),
            views_of(action_receipt_actions@) == dependent_rows(
                receipts@,
                map,
                *block_hash,
                block_timestamp,
                shard_id,
                i as nat,
            ).0,
            views_of(action_receipts_input_data@) == dependent_rows(
                receipts@,
                map,
                *block_hash,
                block_timestamp,
                shard_id,
                i as nat,
            ).1,
            views_of(action_receipts_output_data@) == dependent_rows(
                receipts@,
                map,
                *block_hash,
                block_timestamp,
                shard_id,
                i as nat,
            ).2,
        decreases receipts.len() - i,
    {
        let receipt = &receipts[i];
        let ghost actions_before = views_of(action_receipt_actions@);
        let ghost inputs_before = views_of(action_receipts_input_data@);
        let ghost outputs_before = views_of(action_receipts_output_data@);
        let ghost receipts_before = views_of(action_receipts@);
        if let ReceiptEnumView::Action { actions, input_data_ids, output_data_receivers, .. } =
            &receipt.receipt {
            let id = receipt.lineage_id();
            match tx_hashes_for_receipts.get(&id) {
                Some(transaction_hash) => {
                    match ActionReceipt::try_from_action_receipt_view(
                        receipt,
                        block_hash,
                        transaction_hash.as_str(),
                        chunk_header,
                        index_column(i),
                        block_timestamp,
                    ) {
                        Ok(row) => {
                            action_receipts.push(row);
                        },
                        Err(_) => {},
                    }
                    let mut own_actions = receipt_action_rows(
                        receipt,
                        actions,
                        block_hash,
                        block_timestamp,
                        shard_id,
                    );
                    let mut own_inputs = receipt_input_rows(
                        receipt,
                        input_data_ids,
                        block_hash,
                        block_timestamp,
                        shard_id,
                    );
                    let mut own_outputs = receipt_output_rows(
                        receipt,
                        output_data_receivers,
                        block_hash,
                        block_timestamp,
                        shard_id,
                    );
                    action_receipt_actions.append(&mut own_actions);
                    action_receipts_input_data.append(&mut own_inputs);
                    action_receipts_output_data.append(&mut own_outputs);
                },
                None => {},
            }
        }
        i += 1;
        proof {
            let own = dependent_rows_of(*receipt, map, *block_hash, block_timestamp, shard_id);
            assert(views_of(action_receipt_actions@) =~= actions_before + own.0);
            assert(views_of(action_receipts_input_data@) =~= inputs_before + own.1);
            assert(views_of(action_receipts_output_data@) =~= outputs_before + own.2);
            assert(views_of(action_receipts@) =~= action_receipt_rows(
                receipts@,
                map,
                *block_hash,
                *chunk_header,
                block_timestamp,
                i as nat,
            ));
        }
    }
    ReceiptActions {
        action_receipts,
        action_receipt_actions,
        action_receipts_input_data,
        action_receipts_output_data,
    }
}

/// Builds the rows of the data receipts of a chunk whose transaction is
/// known, each with its place in the chunk.
pub fn store_data_receipts(
    receipts: &Vec<ReceiptView>,
    tx_hashes_for_receipts: &LineageMap,
    block_hash: &CryptoHash,
    chunk_header: &ChunkHeaderView,
    block_timestamp: u64,
) -> (rows: Vec<DataReceipt>)
    requires
        tx_hashes_for_receipts.wf(),
    ensures
        views_of(rows@) == data_receipt_rows(
            receipts@,
            tx_hashes_for_receipts@,
            *block_hash,
            *chunk_header,
            block_timestamp,
            receipts@.len(),
        ),
{
    let mut rows: Vec<DataReceipt> = Vec::new();
    let ghost map = tx_hashes_for_receipts@;
    let mut i: usize = 0;
    assert(views_of(rows@) =~= Seq::<Seq<ColumnValue>>::empty());
    while i < receipts.len()
        invariant
            i <= receipts.len(),
            tx_hashes_for_receipts.wf(),
            map == tx_hashes_for_receipts@,
            views_of(rows@) == data_receipt_rows(
                receipts@,
                map,
                *block_hash,
                *chunk_header,
                block_timestamp,
                i as nat,
            ),
        decreases receipts.len() - i,
    {
        let receipt = &receipts[i];
        if let ReceiptEnumView::Data { .. } = &receipt.receipt {
            let id = receipt.lineage_id();
            match tx_hashes_for_receipts.get(&id) {
                Some(transaction_hash) => {
                    match DataReceipt::try_from_data_receipt_view(
                        receipt,
                        block_hash,
                        transaction_hash.as_str(),
                        chunk_header,
                        index_column(i),
                        block_timestamp,
                    ) {
                        Ok(row) => {
                            rows.push(row);
                        },
                        Err(_) => {},
                    }
                },
                None => {},
            }
        }
        i += 1;
        assert(views_of(rows@) =~= data_receipt_rows(
            receipts@,
            map,
            *block_hash,
            *chunk_header,
            block_timestamp,
            i as nat,
        ));
    }
    rows
}

/// Does for the receipts of a chunk what follows the search for their
/// transactions: files the transactions under the data ids of the outputs,
/// and builds the rows of all receipts whose transaction is known. A
/// receipt whose transaction is not known gives no row at all.
pub fn store_chunk_receipts(
    receipts: &Vec<ReceiptView>,
    tx_hashes_for_receipts: &LineageMap,
    block_hash: &CryptoHash,
    chunk_header: &ChunkHeaderView,
    block_timestamp: u64,
    receipts_cache: &mut ReceiptsCache,
) -> (rows: ChunkReceipts)
    requires
        tx_hashes_for_receipts.wf(),
        old(receipts_cache).wf(),
    ensures
        final(receipts_cache).wf(),
        final(receipts_cache).capacity() == old(receipts_cache).capacity(),
        final(receipts_cache)@ == seeded(
            receipts@,
            tx_hashes_for_receipts@,
            old(receipts_cache)@,
            old(receipts_cache).capacity(),
            receipts@.len(),
        ),
        views_of(rows.receipt_actions.action_receipts@) == action_receipt_rows(
            receipts@,
            tx_hashes_for_receipts@,
            *block_hash,
            *chunk_header,
            block_timestamp,
            receipts@.len(),
        ),
        views_of(rows.receipt_actions.action_receipt_actions@) == dependent_rows(
            receipts@,
            tx_hashes_for_receipts@,
            *block_hash,
            block_timestamp,
            chunk_header.shard_id,
            receipts@.len(),
        ).0,
        views_of(rows.receipt_actions.action_receipts_input_data@) == dependent_rows(
            receipts@,
            tx_hashes_for_receipts@,
            *block_hash,
            block_timestamp,
            chunk_header.shard_id,
            receipts@.len(),
        ).1,
        views_of(rows.receipt_actions.action_receipts_output_data@) == dependent_rows(
            receipts@,
            tx_hashes_for_receipts@,
            *block_hash,
            block_timestamp,
            chunk_header.shard_id,
            receipts@.len(),
        ).2,
        views_of(rows.data_receipts@) == data_receipt_rows(
            receipts@,
            tx_hashes_for_receipts@,
            *block_hash,
            *chunk_header,
            block_timestamp,
            receipts@.len(),
        ),
{
    seed_output_data(receipts, tx_hashes_for_receipts, receipts_cache);
    let receipt_actions = store_receipt_actions(
        receipts,
        tx_hashes_for_receipts,
        block_hash,
        chunk_header,
        block_timestamp,
    );
    let data_receipts = store_data_receipts(
        receipts,
        tx_hashes_for_receipts,
        block_hash,
        chunk_header,
        block_timestamp,
    );
    ChunkReceipts { receipt_actions, data_receipts }
}

} // verus!
