//! Finding the transaction that caused each receipt of a chunk: first in
//! the lineage cache, then with up to three questions to the database.

use crate::cache::{
    distinct_keys, dropped, holds_key, key_index, lemma_dropped, lemma_key_index_unique,
    lemma_touched, lookup, touched, LineageEntry, ReceiptsCache,
};
use crate::errors::IndexerError;
use crate::hashes::{crypto_hash_parse, CryptoHash, LineageKey, ReceiptOrDataId};
use crate::models::{create_placeholder, placeholder_text, ColumnValue, SqlArguments, Statement};
use crate::views::{ReceiptEnumView, ReceiptView};
use vstd::prelude::*;
use vstd::string::*;

verus! {

/// The entries with one noted: a key that is there keeps what it has, a new
/// one goes behind the others.
pub open spec fn noted(entries: Seq<LineageEntry>, key: LineageKey, text: Seq<char>) -> Seq<
    LineageEntry,
> {
    if holds_key(entries, key) {
        entries
    } else {
        entries.push((key, text))
    }
}

/// Noting an entry keeps the keys distinct and what was there, and files the
/// text under a key that was new.
pub proof fn lemma_noted(entries: Seq<LineageEntry>, key: LineageKey, text: Seq<char>)
    requires
        distinct_keys(entries),
    ensures
        distinct_keys(noted(entries, key, text)),
        holds_key(noted(entries, key, text), key),
        holds_key(entries, key) ==> lookup(noted(entries, key, text), key) == lookup(entries, key),
        !holds_key(entries, key) ==> lookup(noted(entries, key, text), key) == Some(text),
        forall|other: LineageKey|
            other != key ==> #[trigger] lookup(noted(entries, key, text), other) == lookup(
                entries,
                other,
            ),
        forall|other: LineageKey|
            holds_key(entries, other) ==> #[trigger] holds_key(noted(entries, key, text), other),
{
    let after = noted(entries, key, text);
    if !holds_key(entries, key) {
        let last = entries.len() as int;
        assert(after[last] == (key, text));
        assert forall|a: int, b: int|
            0 <= a < after.len() && 0 <= b < after.len() && a != b implies (#[trigger] after[a]).0
            != (#[trigger] after[b]).0 by {
            if a < last {
                assert(after[a] == entries[a]);
            }
            if b < last {
                assert(after[b] == entries[b]);
            }
        }
        lemma_key_index_unique(after, last);
        assert forall|other: LineageKey| other != key implies #[trigger] lookup(after, other)
            == lookup(entries, other) by {
            if holds_key(entries, other) {
                let b = key_index(entries, other);
                assert(after[b] == entries[b]);
                lemma_key_index_unique(after, b);
                lemma_key_index_unique(entries, b);
            } else if holds_key(after, other) {
                let a = key_index(after, other);
                assert(a < last);
                assert(after[a] == entries[a]);
            }
        }
        assert forall|other: LineageKey| holds_key(entries, other) implies #[trigger] holds_key(
            after,
            other,
        ) by {
            let b = key_index(entries, other);
            assert(after[b] == entries[b]);
        }
    }
}

/// The transaction hashes found for the receipts of a chunk, filed under the
/// id of an action receipt or under the data id of a data receipt.
#[derive(Clone, Debug, PartialEq, Eq)]
pub struct LineageMap {
    entries: Vec<(ReceiptOrDataId, String)>,
}

impl View for LineageMap {
    type V = Seq<LineageEntry>;

    closed spec fn view(&self) -> Seq<LineageEntry> {
        Seq::new(self.entries@.len(), |i: int| (self.entries@[i].0@, self.entries@[i].1@))
    }
}

impl LineageMap {
    /// No key is filed twice.
    pub open spec fn wf(&self) -> bool {
        distinct_keys(self@)
    }

    /// The text filed under the key, if any.
    pub open spec fn parent_of(&self, key: LineageKey) -> Option<Seq<char>> {
        lookup(self@, key)
    }

    /// A map without entries.
    pub fn new() -> (map: LineageMap)
        ensures
            map.wf(),
            map@ == Seq::<LineageEntry>::empty(),
    {
        let map = LineageMap { entries: Vec::new() };
        assert(map@ =~= Seq::<LineageEntry>::empty());
        map
    }

    /// The number of entries.
    pub fn len(&self) -> (n: usize)
        ensures
            n == self@.len(),
    {
        self.entries.len()
    }

    /// The place of the entry under the id.
    fn find(&self, id: &ReceiptOrDataId) -> (found: Option<usize>)
        requires
            self.wf(),
        ensures
            found is Some <==> holds_key(self@, id@),
            found matches Some(i) ==> i < self.entries@.len() && i == key_index(self@, id@),
    {
        let mut i: usize = 0;
        while i < self.entries.len()
            invariant
                i <= self.entries@.len(),
                self.wf(),
                forall|j: int| 0 <= j < i ==> (#[trigger] self@[j]).0 != id@,
            decreases self.entries@.len() - i,
        {
            if self.entries[i].0.same(id) {
                proof {
                    assert(self@[i as int].0 == id@);
                    lemma_key_index_unique(self@, i as int);
                }
                return Some(i);
            }
            i += 1;
        }
        None
    }

    /// The transaction hash filed under the id, if any.
    pub fn get(&self, id: &ReceiptOrDataId) -> (found: Option<String>)
        requires
            self.wf(),
        ensures
            found is Some <==> self.parent_of(id@) is Some,
            found matches Some(text) ==> self.parent_of(id@) == Some(text@),
    {
        match self.find(id) {
            Some(i) => Some(self.entries[i].1.clone()),
            None => None,
        }
    }

    /// Whether a transaction hash is filed under the id.
    pub fn contains_key(&self, id: &ReceiptOrDataId) -> (held: bool)
        requires
            self.wf(),
        ensures
            held == holds_key(self@, id@),
    {
        self.find(id).is_some()
    }

    /// Files the transaction hash under the id, unless one is filed there
    /// already: the first answer stays.
    pub fn note(&mut self, id: ReceiptOrDataId, text: String)
        requires
            old(self).wf(),
        ensures
            final(self).wf(),
            final(self)@ == noted(old(self)@, id@, text@),
    {
        proof {
            lemma_noted(self@, id@, text@);
        }
        if self.find(&id).is_none() {
            self.entries.push((id, text));
            assert(self@ =~= noted(old(self)@, id@, text@));
        }
    }
}

/// The map and the cache after the lineage of one receipt was looked up in
/// the cache. A hit is noted in the map. The entry of an action receipt
/// stays in the cache, as the most recently used one; that of a data receipt
/// leaves it, since no data id is asked for twice.
pub open spec fn cache_step(
    map: Seq<LineageEntry>,
    cache: Seq<LineageEntry>,
    receipt: ReceiptView,
) -> (Seq<LineageEntry>, Seq<LineageEntry>) {
    let key = receipt.lineage_key();
    match lookup(cache, key) {
        Some(text) => (
            noted(map, key, text),
            if receipt.is_action() {
                touched(cache, key)
            } else {
                dropped(cache, key)
            },
        ),
        None => (map, cache),
    }
}

/// The map and the cache after the first `n` receipts of a chunk were looked
/// up in the cache, starting from an empty map.
pub open spec fn cache_pass(receipts: Seq<ReceiptView>, cache: Seq<LineageEntry>, n: nat) -> (
    Seq<LineageEntry>,
    Seq<LineageEntry>,
)
    recommends
        n <= receipts.len(),
    decreases n,
{
    if n == 0 {
        (Seq::<LineageEntry>::empty(), cache)
    } else {
        let before = cache_pass(receipts, cache, (n - 1) as nat);
        cache_step(before.0, before.1, receipts[n - 1])
    }
}

/// Looks up the lineage of every receipt of a chunk in the cache.
pub fn find_tx_hashes_in_cache(
    receipts: &Vec<ReceiptView>,
    receipts_cache: &mut ReceiptsCache,
) -> (map: LineageMap)
    requires
        old(receipts_cache).wf(),
    ensures
        final(receipts_cache).wf(),
        final(receipts_cache).capacity() == old(receipts_cache).capacity(),
        map.wf(),
        map@ == cache_pass(receipts@, old(receipts_cache)@, receipts@.len()).0,
        final(receipts_cache)@ == cache_pass(receipts@, old(receipts_cache)@, receipts@.len()).1,
{
    let mut map = LineageMap::new();
    let mut i: usize = 0;
    while i < receipts.len()
        invariant
            i <= receipts.len(),
            receipts_cache.wf(),
            receipts_cache.capacity() == old(receipts_cache).capacity(),
            map.wf(),
            map@ == cache_pass(receipts@, old(receipts_cache)@, i as nat).0,
            receipts_cache@ == cache_pass(receipts@, old(receipts_cache)@, i as nat).1,
        decreases receipts.len() - i,
    {
        let receipt = &receipts[i];
        let id = receipt.lineage_id();
        let found = match &receipt.receipt {
            ReceiptEnumView::Action { .. } => receipts_cache.cache_get(&id),
            ReceiptEnumView::Data { .. } => receipts_cache.cache_remove(&id),
        };
        match found {
            Some(text) => {
                map.note(id, text);
            },
            None => {},
        }
        i += 1;
    }
    map
}

/// Whether one of the first `n` receipts is looked up under the key.
pub open spec fn asked_for(receipts: Seq<ReceiptView>, key: LineageKey, n: nat) -> bool {
    exists|i: int| 0 <= i < n && (#[trigger] receipts[i]).lineage_key() == key
}

/// What the pass through the cache keeps: the keys of the map and of the
/// cache stay distinct; the cache holds what it held under every receipt id
/// and under every data id that was not asked for; the map holds nothing
/// that was not asked for; and what was asked for and the cache held, the
/// map holds.
proof fn lemma_cache_pass(receipts: Seq<ReceiptView>, cache: Seq<LineageEntry>, n: nat)
    requires
        n <= receipts.len(),
        distinct_keys(cache),
    ensures
        distinct_keys(cache_pass(receipts, cache, n).0),
        distinct_keys(cache_pass(receipts, cache, n).1),
        forall|key: LineageKey|
            !key.0 || !asked_for(receipts, key, n) ==> #[trigger] lookup(
                cache_pass(receipts, cache, n).1,
                key,
            ) == lookup(cache, key),
        forall|key: LineageKey|
            !asked_for(receipts, key, n) ==> !#[trigger] holds_key(
                cache_pass(receipts, cache, n).0,
                key,
            ),
        forall|key: LineageKey|
            asked_for(receipts, key, n) && lookup(cache, key) is Some ==> #[trigger] lookup(
                cache_pass(receipts, cache, n).0,
                key,
            ) == lookup(cache, key),
    decreases n,
{
    if n > 0 {
        let m = (n - 1) as nat;
        lemma_cache_pass(receipts, cache, m);
        let before = cache_pass(receipts, cache, m);
        let after = cache_pass(receipts, cache, n);
        let receipt = receipts[n - 1];
        let asked = receipt.lineage_key();
        assert forall|key: LineageKey| asked_for(receipts, key, m) implies asked_for(
            receipts,
            key,
            n,
        ) by {
            let i = choose|i: int| 0 <= i < m && (#[trigger] receipts[i]).lineage_key() == key;
            assert(0 <= i < n && receipts[i].lineage_key() == key);
        }
        assert(asked_for(receipts, asked, n));
        assert forall|key: LineageKey| asked_for(receipts, key, n) && key != asked implies asked_for(
            receipts,
            key,
            m,
        ) by {
            let i = choose|i: int| 0 <= i < n && (#[trigger] receipts[i]).lineage_key() == key;
            assert(0 <= i < m && receipts[i].lineage_key() == key);
        }
        match lookup(before.1, asked) {
            Some(text) => {
                lemma_noted(before.0, asked, text);
                lemma_touched(before.1, asked);
                lemma_dropped(before.1, asked);
                assert(receipt.is_action() ==> !asked.0);
                assert forall|key: LineageKey|
                    !key.0 || !asked_for(receipts, key, n) implies #[trigger] lookup(after.1, key)
                    == lookup(cache, key) by {
                    assert(lookup(before.1, key) == lookup(cache, key));
                }
                assert forall|key: LineageKey| !asked_for(receipts, key, n) implies !#[trigger] holds_key(
                    after.0,
                    key,
                ) by {
                    assert(!holds_key(before.0, key));
                    assert(lookup(after.0, key) == lookup(before.0, key));
                }
                assert forall|key: LineageKey|
                    asked_for(receipts, key, n) && lookup(cache, key)
                        is Some implies #[trigger] lookup(after.0, key) == lookup(cache, key) by {
                    if asked_for(receipts, key, m) {
                        assert(lookup(before.0, key) == lookup(cache, key));
                        assert(holds_key(before.0, key));
                    } else {
                        assert(key == asked);
                        assert(lookup(before.1, key) == lookup(cache, key));
                        assert(!holds_key(before.0, key));
                    }
                }
            },
            None => {
                assert forall|key: LineageKey|
                    asked_for(receipts, key, n) && lookup(cache, key)
                        is Some implies #[trigger] lookup(after.0, key) == lookup(cache, key) by {
                    if asked_for(receipts, key, m) {
                        assert(lookup(before.0, key) == lookup(cache, key));
                    } else {
                        assert(key == asked);
                        assert(lookup(before.1, key) == lookup(cache, key));
                    }
                }
                assert forall|key: LineageKey|
                    !key.0 || !asked_for(receipts, key, n) implies #[trigger] lookup(after.1, key)
                    == lookup(cache, key) by {
                    assert(lookup(before.1, key) == lookup(cache, key));
                }
                assert forall|key: LineageKey| !asked_for(receipts, key, n) implies !#[trigger] holds_key(
                    after.0,
                    key,
                ) by {
                    assert(!holds_key(before.0, key));
                }
            },
        }
    }
}

/// A receipt whose transaction the cache holds when its chunk arrives gets
/// that transaction from the cache, whatever else the chunk holds.
pub proof fn lemma_cache_resolves_what_it_holds(
    receipts: Seq<ReceiptView>,
    cache: Seq<LineageEntry>,
    i: int,
)
    requires
        distinct_keys(cache),
        0 <= i < receipts.len(),
        lookup(cache, receipts[i].lineage_key()) is Some,
    ensures
        lookup(cache_pass(receipts, cache, receipts.len()).0, receipts[i].lineage_key()) == lookup(
            cache,
            receipts[i].lineage_key(),
        ),
{
    lemma_cache_pass(receipts, cache, receipts.len());
    assert(asked_for(receipts, receipts[i].lineage_key(), receipts.len()));
}

/// Where the cache holds the transaction of every receipt of a chunk, the
/// search is over after the cache: the database is not asked.
pub proof fn lemma_no_question_where_the_cache_holds_all(
    receipts: Seq<ReceiptView>,
    cache: Seq<LineageEntry>,
)
    requires
        distinct_keys(cache),
        forall|i: int|
            0 <= i < receipts.len() ==> lookup(cache, (#[trigger] receipts[i]).lineage_key())
                is Some,
    ensures
        step_after(receipts, cache_pass(receipts, cache, receipts.len()).0, None)
            == LineageStepView::Resolved,
{
    let map = cache_pass(receipts, cache, receipts.len()).0;
    assert forall|i: int| 0 <= i < receipts.len() implies holds_key(
        map,
        (#[trigger] receipts[i]).lineage_key(),
    ) by {
        lemma_cache_resolves_what_it_holds(receipts, cache, i);
    }
}

/// Whether the lineage of each of the first `n` receipts is in the map.
pub open spec fn all_resolved(receipts: Seq<ReceiptView>, map: Seq<LineageEntry>, n: nat) -> bool {
    forall|i: int| 0 <= i < n ==> holds_key(map, (#[trigger] receipts[i]).lineage_key())
}

/// The id texts to ask the database for: of those of the first `n` receipts
/// that are of the wanted kind and not in the map, the data id of a data
/// receipt or the receipt id of an action receipt.
pub open spec fn open_ids(
    receipts: Seq<ReceiptView>,
    map: Seq<LineageEntry>,
    want_data: bool,
    n: nat,
) -> Seq<Seq<char>>
    recommends
        n <= receipts.len(),
    decreases n,
{
    if n == 0 {
        Seq::<Seq<char>>::empty()
    } else {
        let before = open_ids(receipts, map, want_data, (n - 1) as nat);
        let receipt = receipts[n - 1];
        if receipt.is_action() != want_data && !holds_key(map, receipt.lineage_key()) {
            before.push(crate::hashes::crypto_hash_text(receipt.lineage_key().1))
        } else {
            before
        }
    }
}

/// The texts of strings.
pub open spec fn texts_of(strings: Seq<String>) -> Seq<Seq<char>> {
    Seq::new(strings.len(), |i: int| strings[i]@)
}

/// Collects the id texts of the receipts of one kind whose lineage is still
/// open.
pub fn collect_open_ids(
    receipts: &Vec<ReceiptView>,
    map: &LineageMap,
    want_data: bool,
) -> (ids: Vec<String>)
    requires
        map.wf(),
    ensures
        texts_of(ids@) == open_ids(receipts@, map@, want_data, receipts@.len()),
{
    let mut ids: Vec<String> = Vec::new();
    let mut i: usize = 0;
    assert(texts_of(ids@) =~= open_ids(receipts@, map@, want_data, 0));
    while i < receipts.len()
        invariant
            i <= receipts.len(),
            map.wf(),
            texts_of(ids@) == open_ids(receipts@, map@, want_data, i as nat),
        decreases receipts.len() - i,
    {
        let receipt = &receipts[i];
        let id = receipt.lineage_id();
        let is_data = match &receipt.receipt {
            ReceiptEnumView::Action { .. } => false,
            ReceiptEnumView::Data { .. } => true,
        };
        if is_data == want_data && !map.contains_key(&id) {
            let text = match id {
                ReceiptOrDataId::ReceiptId(hash) => hash.to_text(),
                ReceiptOrDataId::DataId(hash) => hash.to_text(),
            };
            ids.push(text);
        }
        i += 1;
        assert(texts_of(ids@) =~= open_ids(receipts@, map@, want_data, i as nat));
    }
    ids
}

/// The three questions that the database can answer, in the order in which
/// they are asked.
#[derive(Clone, Copy, Debug, PartialEq, Eq, Structural)]
pub enum Probe {
    /// Which transaction caused the receipt whose output a data id is.
    DataOutput,
    /// Which transaction caused the receipt whose execution produced a
    /// receipt.
    OutcomeReceipt,
    /// Which transaction was converted into a receipt.
    Transaction,
}

impl Probe {
    /// Whether the answers are filed under data ids.
    pub open spec fn about_data(&self) -> bool {
        *self is DataOutput
    }

    /// Whether the answers are filed under data ids.
    pub fn is_about_data(&self) -> (r: bool)
        ensures
            r == self.about_data(),
    {
        match self {
            Probe::DataOutput => true,
            _ => false,
        }
    }

    /// The question without its list of ids.
    pub open spec fn head(&self) -> Seq<char> {
        match self {
            Probe::DataOutput => "SELECT output_data_id, originated_from_transaction_hash FROM action_receipt_output_data JOIN receipts ON output_from_receipt_id = receipt_id WHERE output_data_id IN "@,
            Probe::OutcomeReceipt => "SELECT produced_receipt_id, originated_from_transaction_hash FROM execution_outcome_receipts JOIN receipts ON executed_receipt_id = receipt_id WHERE produced_receipt_id IN "@,
            Probe::Transaction => "SELECT converted_into_receipt_id, transaction_hash FROM transactions WHERE converted_into_receipt_id IN "@,
        }
    }

    /// The question without its list of ids.
    pub fn select_head(&self) -> (head: &'static str)
        ensures
            head@ == self.head(),
    {
        match self {
            Probe::DataOutput => "SELECT output_data_id, originated_from_transaction_hash FROM action_receipt_output_data JOIN receipts ON output_from_receipt_id = receipt_id WHERE output_data_id IN ",
            Probe::OutcomeReceipt => "SELECT produced_receipt_id, originated_from_transaction_hash FROM execution_outcome_receipts JOIN receipts ON executed_receipt_id = receipt_id WHERE produced_receipt_id IN ",
            Probe::Transaction => "SELECT converted_into_receipt_id, transaction_hash FROM transactions WHERE converted_into_receipt_id IN ",
        }
    }
}

/// The parameters of a question: the id texts in their order.
pub open spec fn id_arguments(ids: Seq<Seq<char>>) -> Seq<ColumnValue> {
    Seq::new(ids.len(), |i: int| ColumnValue::Text(ids[i]))
}

/// The statement of a question about the given ids. A question about no id
/// is bad input.
pub fn probe_statement(probe: Probe, ids: &Vec<String>) -> (made: Result<Statement, IndexerError>)
    ensures
        made is Err <==> ids@.len() == 0,
        made matches Err(e) ==> e == IndexerError::BadInput,
        made matches Ok(statement) ==> statement.query@ == probe.head() + placeholder_text(
            ids@.len(),
        ) && statement.args@ == id_arguments(texts_of(ids@)),
{
    let placeholder = match create_placeholder(ids.len()) {
        Ok(text) => text,
        Err(e) => {
            return Err(e);
        },
    };
    let mut query = probe.select_head().to_owned();
    query.append(placeholder.as_str());
    let mut args = SqlArguments::new();
    let mut i: usize = 0;
    while i < ids.len()
        invariant
            i <= ids.len(),
            args@ == id_arguments(texts_of(ids@)).take(i as int),
        decreases ids.len() - i,
    {
        args.add_text(&ids[i]);
        i += 1;
        assert(args@ =~= id_arguments(texts_of(ids@)).take(i as int));
    }
    assert(args@ =~= id_arguments(texts_of(ids@)));
    Ok(Statement { query, args })
}

/// What to do next for the receipts of a chunk.
#[derive(Clone, Debug, PartialEq, Eq)]
pub enum LineageStep {
    /// Every receipt has its transaction.
    Resolved,
    /// Ask the database about these ids.
    Ask(Probe, Vec<String>),
    /// Receipts are left of which no source knows the transaction.
    Unresolved,
}

/// The next step in contracts.
pub enum LineageStepView {
    Resolved,
    Ask(Probe, Seq<Seq<char>>),
    Unresolved,
}

impl View for LineageStep {
    type V = LineageStepView;

    open spec fn view(&self) -> LineageStepView {
        match self {
            LineageStep::Resolved => LineageStepView::Resolved,
            LineageStep::Ask(probe, ids) => LineageStepView::Ask(*probe, texts_of(ids@)),
            LineageStep::Unresolved => LineageStepView::Unresolved,
        }
    }
}

/// The next step after the given question was the last one asked, `None`
/// standing for the cache alone. Nothing is asked once every receipt has
/// its transaction, and no question is asked about no id.
pub open spec fn step_after(
    receipts: Seq<ReceiptView>,
    map: Seq<LineageEntry>,
    last: Option<Probe>,
) -> LineageStepView {
    let data_ids = open_ids(receipts, map, true, receipts.len());
    let receipt_ids = open_ids(receipts, map, false, receipts.len());
    if all_resolved(receipts, map, receipts.len()) {
        LineageStepView::Resolved
    } else if last is None && data_ids.len() > 0 {
        LineageStepView::Ask(Probe::DataOutput, data_ids)
    } else if (last is None || last == Some(Probe::DataOutput)) && receipt_ids.len() > 0 {
        LineageStepView::Ask(Probe::OutcomeReceipt, receipt_ids)
    } else if last != Some(Probe::Transaction) && receipt_ids.len() > 0 {
        LineageStepView::Ask(Probe::Transaction, receipt_ids)
    } else {
        LineageStepView::Unresolved
    }
}

/// An open id among the first `n` receipts shows that not all of them are
/// resolved, and the other way round.
pub proof fn lemma_open_ids_empty(receipts: Seq<ReceiptView>, map: Seq<LineageEntry>, n: nat)
    requires
        n <= receipts.len(),
    ensures
        all_resolved(receipts, map, n) <==> open_ids(receipts, map, true, n).len() == 0
            && open_ids(receipts, map, false, n).len() == 0,
    decreases n,
{
    if n > 0 {
        lemma_open_ids_empty(receipts, map, (n - 1) as nat);
        let receipt = receipts[n - 1];
        if all_resolved(receipts, map, n) {
            assert(holds_key(map, receipts[n - 1].lineage_key()));
            assert(all_resolved(receipts, map, (n - 1) as nat));
        } else if all_resolved(receipts, map, (n - 1) as nat) {
            assert(!holds_key(map, receipt.lineage_key()));
        }
    }
}

/// Decides what to do next for the receipts of a chunk, after the given
/// question was the last one asked.
pub fn next_step(
    receipts: &Vec<ReceiptView>,
    map: &LineageMap,
    last: Option<Probe>,
) -> (step: LineageStep)
    requires
        map.wf(),
    ensures
        step@ == step_after(receipts@, map@, last),
{
    let data_ids = collect_open_ids(receipts, map, true);
    let receipt_ids = collect_open_ids(receipts, map, false);
    proof {
        lemma_open_ids_empty(receipts@, map@, receipts@.len());
        assert(texts_of(data_ids@).len() == data_ids@.len());
        assert(texts_of(receipt_ids@).len() == receipt_ids@.len());
    }
    if data_ids.len() == 0 && receipt_ids.len() == 0 {
        return LineageStep::Resolved;
    }
    match last {
        None => {
            if data_ids.len() > 0 {
                LineageStep::Ask(Probe::DataOutput, data_ids)
            } else {
                LineageStep::Ask(Probe::OutcomeReceipt, receipt_ids)
            }
        },
        Some(Probe::DataOutput) => {
            if receipt_ids.len() > 0 {
                LineageStep::Ask(Probe::OutcomeReceipt, receipt_ids)
            } else {
                LineageStep::Unresolved
            }
        },
        Some(Probe::OutcomeReceipt) => {
            if receipt_ids.len() > 0 {
                LineageStep::Ask(Probe::Transaction, receipt_ids)
            } else {
                LineageStep::Unresolved
            }
        },
        Some(Probe::Transaction) => LineageStep::Unresolved,
    }
}

/// Whether each of the first `n` answers names its id as the text of a hash.
pub open spec fn rows_parse(rows: Seq<(String, String)>, n: nat) -> bool {
    forall|i: int| 0 <= i < n ==> crypto_hash_parse((#[trigger] rows[i]).0@) is Some
}

/// The map after the first `n` answers to a question were noted: each is
/// filed under the hash that its id text spells, unless the map has an
/// answer for that key already.
pub open spec fn absorbed(
    map: Seq<LineageEntry>,
    about_data: bool,
    rows: Seq<(String, String)>,
    n: nat,
) -> Seq<LineageEntry>
    recommends
        n <= rows.len(),
        rows_parse(rows, n),
    decreases n,
{
    if n == 0 {
        map
    } else {
        noted(
            absorbed(map, about_data, rows, (n - 1) as nat),
            (about_data, crypto_hash_parse(rows[n - 1].0@).unwrap()),
            rows[n - 1].1@,
        )
    }
}

/// Notes the answers to a question in the map. An answer whose id is not
/// the text of a hash shows a malformed source: nothing is noted then.
pub fn absorb(
    map: &mut LineageMap,
    probe: Probe,
    rows: &Vec<(String, String)>,
) -> (done: Result<(), IndexerError>)
    requires
        old(map).wf(),
    ensures
        final(map).wf(),
        done is Ok <==> rows_parse(rows@, rows@.len()),
        done matches Err(e) ==> e == IndexerError::Upstream && final(map)@ == old(map)@,
        done is Ok ==> final(map)@ == absorbed(old(map)@, probe.about_data(), rows@, rows@.len()),
{
    let mut hashes: Vec<CryptoHash> = Vec::new();
    let mut i: usize = 0;
    while i < rows.len()
        invariant
            i <= rows.len(),
            hashes@.len() == i,
            map.wf(),
            map@ == old(map)@,
            rows_parse(rows@, i as nat),
            forall|j: int|
                0 <= j < i ==> crypto_hash_parse(rows@[j].0@) == Some((#[trigger] hashes@[j])@),
        decreases rows.len() - i,
    {
        match CryptoHash::from_text(rows[i].0.as_str()) {
            Some(hash) => {
                hashes.push(hash);
            },
            None => {
                assert(!rows_parse(rows@, rows@.len()));
                return Err(IndexerError::Upstream);
            },
        }
        i += 1;
    }
    let about_data = probe.is_about_data();
    let mut k: usize = 0;
    while k < rows.len()
        invariant
            k <= rows.len(),
            hashes@.len() == rows@.len(),
            about_data == probe.about_data(),
            rows_parse(rows@, rows@.len()),
            forall|j: int|
                0 <= j < rows@.len() ==> crypto_hash_parse(rows@[j].0@) == Some(
                    (#[trigger] hashes@[j])@,
                ),
            map.wf(),
            map@ == absorbed(old(map)@, about_data, rows@, k as nat),
        decreases rows.len() - k,
    {
        let id = if about_data {
            ReceiptOrDataId::DataId(hashes[k])
        } else {
            ReceiptOrDataId::ReceiptId(hashes[k])
        };
        map.note(id, rows[k].1.clone());
        k += 1;
    }
    Ok(())
}

/// What is left to do for a chunk once no source is left to ask.
#[derive(Clone, Copy, Debug, PartialEq, Eq, Structural)]
pub enum Residual {
    /// Every receipt has its transaction.
    Complete,
    /// Receipts without a transaction are left out, and the block of this
    /// height is to be put down for another run.
    Rerun(u64),
}

/// Settles what happens to receipts of which no source knows the
/// transaction. In strict mode they are an error. Else the height of their
/// block is handed back, to be put down for another run.
pub fn settle_residual(
    receipts: &Vec<ReceiptView>,
    map: &LineageMap,
    strict_mode: bool,
    block_height: u64,
) -> (settled: Result<Residual, IndexerError>)
    requires
        map.wf(),
    ensures
        settled is Err <==> strict_mode && !all_resolved(receipts@, map@, receipts@.len()),
        settled matches Err(e) ==> e == IndexerError::UnresolvedLineage,
        settled matches Ok(residual) ==> residual == if all_resolved(
            receipts@,
            map@,
            receipts@.len(),
        ) {
            Residual::Complete
        } else {
            Residual::Rerun(block_height)
        },
{
    let data_ids = collect_open_ids(receipts, map, true);
    let receipt_ids = collect_open_ids(receipts, map, false);
    proof {
        lemma_open_ids_empty(receipts@, map@, receipts@.len());
        assert(texts_of(data_ids@).len() == data_ids@.len());
        assert(texts_of(receipt_ids@).len() == receipt_ids@.len());
    }
    if data_ids.len() == 0 && receipt_ids.len() == 0 {
        Ok(Residual::Complete)
    } else if strict_mode {
        Err(IndexerError::UnresolvedLineage)
    } else {
        Ok(Residual::Rerun(block_height))
    }
}

/// The statement that puts a block down for another run.
pub fn rerun_statement(block_height: u64) -> (statement: Statement)
    ensures
        statement.query@ == "INSERT IGNORE INTO _blocks_to_rerun VALUES (?)"@,
        statement.args@ == seq![ColumnValue::Decimal(block_height as nat)],
{
    let mut args = SqlArguments::new();
    args.add_decimal(block_height as u128);
    assert(args@ =~= seq![ColumnValue::Decimal(block_height as nat)]);
    Statement { query: "INSERT IGNORE INTO _blocks_to_rerun VALUES (?)".to_owned(), args }
}

} // verus!
