//! The lineage cache: a bounded map from receipt and data ids to the hash of
//! the transaction that caused them, which forgets the entry that was used
//! longest ago when a new one does not fit.

use crate::errors::IndexerError;
use crate::hashes::{LineageKey, ReceiptOrDataId};
use cached::Cached;
use vstd::prelude::*;

verus! {

/// The largest capacity that a cache can be asked for. A cache lays out
/// room for all its entries when it is made; up to this number that fits
/// the address space of every machine.
pub const MAX_CACHE_CAPACITY: usize = 16_777_216;

/// The text of the hash of the transaction that a receipt goes back to.
pub type ParentTransactionHashString = String;

/// One cache entry in contracts: the key and the text of the transaction hash.
pub type LineageEntry = (LineageKey, Seq<char>);

/// Makes `cached::SizedCache` known as a type. Nothing inside a value of it
/// is seen: what it holds and its limit have the two names below.
#[verifier::external_type_specification]
#[verifier::external_body]
#[verifier::reject_recursive_types(K)]
#[verifier::reject_recursive_types(V)]
pub struct ExSizedCache<K, V>(cached::SizedCache<K, V>);

/// What a `cached::SizedCache` holds, the entry used last first and the one
/// used longest ago last.
pub uninterp spec fn cache_entries(store: cached::SizedCache<(bool, [u8; 32]), String>) -> Seq<
    LineageEntry,
>;

/// The size limit that a `cached::SizedCache` was made with.
pub uninterp spec fn cache_limit(store: cached::SizedCache<(bool, [u8; 32]), String>) -> nat;

/// Whether some entry is filed under the key.
pub open spec fn holds_key(entries: Seq<LineageEntry>, key: LineageKey) -> bool {
    exists|i: int| 0 <= i < entries.len() && (#[trigger] entries[i]).0 == key
}

/// The place of an entry filed under the key, where there is one.
pub open spec fn key_index(entries: Seq<LineageEntry>, key: LineageKey) -> int {
    choose|i: int| 0 <= i < entries.len() && (#[trigger] entries[i]).0 == key
}

/// The text filed under the key, if any.
pub open spec fn lookup(entries: Seq<LineageEntry>, key: LineageKey) -> Option<Seq<char>> {
    if holds_key(entries, key) {
        Some(entries[key_index(entries, key)].1)
    } else {
        None
    }
}

/// The entries after a read of the key: a hit moves to the front.
pub open spec fn touched(entries: Seq<LineageEntry>, key: LineageKey) -> Seq<LineageEntry> {
    if holds_key(entries, key) {
        let i = key_index(entries, key);
        seq![entries[i]] + entries.remove(i)
    } else {
        entries
    }
}

/// The entries after the key was set to the text under the limit: a key that
/// is there keeps its place and gets the text; a new one goes to the front,
/// and the last entry leaves where the limit would be passed.
pub open spec fn stored(
    entries: Seq<LineageEntry>,
    key: LineageKey,
    text: Seq<char>,
    limit: nat,
) -> Seq<LineageEntry> {
    if holds_key(entries, key) {
        entries.update(key_index(entries, key), (key, text))
    } else if entries.len() < limit {
        seq![(key, text)] + entries
    } else {
        (seq![(key, text)] + entries).take(limit as int)
    }
}

/// The entries after the key was removed.
pub open spec fn dropped(entries: Seq<LineageEntry>, key: LineageKey) -> Seq<LineageEntry> {
    if holds_key(entries, key) {
        entries.remove(key_index(entries, key))
    } else {
        entries
    }
}

/// No key is filed twice.
pub open spec fn distinct_keys(entries: Seq<LineageEntry>) -> bool {
    forall|i: int, j: int|
        0 <= i < entries.len() && 0 <= j < entries.len() && i != j ==> (#[trigger] entries[i]).0
            != (#[trigger] entries[j]).0
}

/// Calls `cached::SizedCache::with_size`, which panics on a size of zero and
/// else lays out room for `size` entries and two more and gives an empty
/// cache with that limit.
#[verifier::external_body]
fn sized_cache_with_size(size: usize) -> (store: cached::SizedCache<(bool, [u8; 32]), String>)
    requires
        0 < size <= MAX_CACHE_CAPACITY,
    ensures
        cache_entries(store) == Seq::<LineageEntry>::empty(),
        cache_limit(store) == size,
{
    cached::SizedCache::with_size(size)
}

/// Calls `cache_get` of `cached::SizedCache`: a hit returns the value and
/// moves the entry to the front, a miss changes nothing.
#[verifier::external_body]
fn sized_cache_get(store: &mut cached::SizedCache<(bool, [u8; 32]), String>, key: &(
    bool,
    [u8; 32],
)) -> (found: Option<String>)
    ensures
        found is Some <==> holds_key(cache_entries(*old(store)), (key.0, key.1@)),
        found matches Some(text) ==> Some(text@) == lookup(
            cache_entries(*old(store)),
            (key.0, key.1@),
        ),
        cache_entries(*final(store)) == touched(cache_entries(*old(store)), (key.0, key.1@)),
        cache_limit(*final(store)) == cache_limit(*old(store)),
{
    store.cache_get(key).cloned()
}

/// Calls `cache_set` of `cached::SizedCache`: a key that is there gets the new
/// value in its place and the old one is returned; a new key goes to the front
/// and, where the limit is passed, the entry at the back leaves.
#[verifier::external_body]
fn sized_cache_set(
    store: &mut cached::SizedCache<(bool, [u8; 32]), String>,
    key: (bool, [u8; 32]),
    text: String,
) -> (previous: Option<String>)
    ensures
        previous is Some <==> holds_key(cache_entries(*old(store)), (key.0, key.1@)),
        previous matches Some(was) ==> Some(was@) == lookup(
            cache_entries(*old(store)),
            (key.0, key.1@),
        ),
        cache_entries(*final(store)) == stored(
            cache_entries(*old(store)),
            (key.0, key.1@),
            text@,
            cache_limit(*old(store)),
        ),
        cache_limit(*final(store)) == cache_limit(*old(store)),
{
    store.cache_set(key, text)
}

/// Calls `cache_remove` of `cached::SizedCache`: the entry under the key
/// leaves and its value is returned; the others keep their order.
#[verifier::external_body]
fn sized_cache_remove(store: &mut cached::SizedCache<(bool, [u8; 32]), String>, key: &(
    bool,
    [u8; 32],
)) -> (removed: Option<String>)
    ensures
        removed is Some <==> holds_key(cache_entries(*old(store)), (key.0, key.1@)),
        removed matches Some(text) ==> Some(text@) == lookup(
            cache_entries(*old(store)),
            (key.0, key.1@),
        ),
        cache_entries(*final(store)) == dropped(cache_entries(*old(store)), (key.0, key.1@)),
        cache_limit(*final(store)) == cache_limit(*old(store)),
{
    store.cache_remove(key)
}

/// Calls `cache_size` of `cached::SizedCache`, which counts the entries.
#[verifier::external_body]
fn sized_cache_size(store: &cached::SizedCache<(bool, [u8; 32]), String>) -> (size: usize)
    ensures
        size == cache_entries(*store).len(),
{
    store.cache_size()
}

/// With distinct keys the place of a key is the only one that holds it.
pub proof fn lemma_key_index_unique(entries: Seq<LineageEntry>, i: int)
    requires
        distinct_keys(entries),
        0 <= i < entries.len(),
    ensures
        holds_key(entries, entries[i].0),
        key_index(entries, entries[i].0) == i,
        lookup(entries, entries[i].0) == Some(entries[i].1),
{
    let key = entries[i].0;
    assert(holds_key(entries, key));
    let k = key_index(entries, key);
    assert(0 <= k < entries.len() && entries[k].0 == key);
    if k != i {
        assert(entries[k].0 != entries[i].0);
    }
}

/// A read keeps the keys distinct, the length, and what every key is filed under.
pub proof fn lemma_touched(entries: Seq<LineageEntry>, key: LineageKey)
    requires
        distinct_keys(entries),
    ensures
        distinct_keys(touched(entries, key)),
        touched(entries, key).len() == entries.len(),
        forall|other: LineageKey| #[trigger]
            lookup(touched(entries, key), other) == lookup(entries, other),
        forall|other: LineageKey| #[trigger]
            holds_key(touched(entries, key), other) == holds_key(entries, other),
{
    let after = touched(entries, key);
    if holds_key(entries, key) {
        let i = key_index(entries, key);
        assert forall|a: int| 0 <= a < after.len() implies exists|b: int|
            0 <= b < entries.len() && entries[b] == #[trigger] after[a] && (b == i <==> a == 0) && (
            a > 0 && a <= i ==> b == a - 1) && (a > i ==> b == a) by {
            if a == 0 {
                assert(entries[i] == after[a]);
            } else if a <= i {
                assert(entries[a - 1] == after[a]);
            } else {
                assert(entries[a] == after[a]);
            }
        }
        assert(distinct_keys(after)) by {
            assert forall|a: int, b: int|
                0 <= a < after.len() && 0 <= b < after.len() && a != b implies (
            #[trigger] after[a]).0 != (#[trigger] after[b]).0 by {
                let sa = if a == 0 {
                    i
                } else if a <= i {
                    a - 1
                } else {
                    a
                };
                let sb = if b == 0 {
                    i
                } else if b <= i {
                    b - 1
                } else {
                    b
                };
                assert(after[a] == entries[sa]);
                assert(after[b] == entries[sb]);
                assert(sa != sb);
            }
        }
        assert forall|other: LineageKey| #[trigger]
            holds_key(after, other) == holds_key(entries, other) && lookup(after, other) == lookup(
                entries,
                other,
            ) by {
            if holds_key(entries, other) {
                let b = key_index(entries, other);
                let a = if b == i {
                    0
                } else if b < i {
                    b + 1
                } else {
                    b
                };
                assert(after[a] == entries[b]);
                lemma_key_index_unique(after, a);
                lemma_key_index_unique(entries, b);
            } else if holds_key(after, other) {
                let a = key_index(after, other);
                let b = if a == 0 {
                    i
                } else if a <= i {
                    a - 1
                } else {
                    a
                };
                assert(after[a] == entries[b]);
                assert(entries[b].0 == other);
            }
        }
    }
}

/// A write keeps the keys distinct and the length under the limit, files the
/// text under the key, and changes no other key but the one at the back
/// that left for a new key.
pub proof fn lemma_stored(entries: Seq<LineageEntry>, key: LineageKey, text: Seq<char>, limit: nat)
    requires
        distinct_keys(entries),
        entries.len() <= limit,
        limit > 0,
    ensures
        distinct_keys(stored(entries, key, text, limit)),
        stored(entries, key, text, limit).len() <= limit,
        lookup(stored(entries, key, text, limit), key) == Some(text),
        forall|other: LineageKey|
            other != key && (holds_key(entries, key) || entries.len() < limit || other
                != entries.last().0) ==> #[trigger] lookup(
                stored(entries, key, text, limit),
                other,
            ) == lookup(entries, other),
        !holds_key(entries, key) && entries.len() == limit ==> !holds_key(
            stored(entries, key, text, limit),
            entries.last().0,
        ),
{
    let after = stored(entries, key, text, limit);
    if holds_key(entries, key) {
        let i = key_index(entries, key);
        assert(distinct_keys(after)) by {
            assert forall|a: int, b: int|
                0 <= a < after.len() && 0 <= b < after.len() && a != b implies (
            #[trigger] after[a]).0 != (#[trigger] after[b]).0 by {
                assert(after[a].0 == entries[a].0);
                assert(after[b].0 == entries[b].0);
            }
        }
        assert(after[i] == (key, text));
        lemma_key_index_unique(after, i);
        assert forall|other: LineageKey| other != key implies #[trigger] lookup(after, other)
            == lookup(entries, other) by {
            if holds_key(entries, other) {
                let b = key_index(entries, other);
                assert(after[b] == entries[b]);
                lemma_key_index_unique(after, b);
            } else if holds_key(after, other) {
                let a = key_index(after, other);
                assert(after[a].0 == entries[a].0);
            }
        }
    } else {
        let grown = seq![(key, text)] + entries;
        assert(distinct_keys(grown)) by {
            assert forall|a: int, b: int|
                0 <= a < grown.len() && 0 <= b < grown.len() && a != b implies (
            #[trigger] grown[a]).0 != (#[trigger] grown[b]).0 by {
                if a > 0 {
                    assert(grown[a] == entries[a - 1]);
                }
                if b > 0 {
                    assert(grown[b] == entries[b - 1]);
                }
            }
        }
        assert(forall|a: int| 0 <= a < after.len() ==> #[trigger] after[a] == grown[a]);
        assert(after[0] == (key, text));
        lemma_key_index_unique(after, 0);
        assert forall|other: LineageKey|
            other != key && (entries.len() < limit || other
                != entries.last().0) implies #[trigger] lookup(after, other) == lookup(
            entries,
            other,
        ) by {
            if holds_key(entries, other) {
                let b = key_index(entries, other);
                assert(b + 1 < after.len()) by {
                    if entries.len() >= limit {
                        assert(entries[b].0 != entries.last().0);
                    }
                }
                assert(after[b + 1] == entries[b]);
                lemma_key_index_unique(after, b + 1);
                lemma_key_index_unique(entries, b);
            } else if holds_key(after, other) {
                let a = key_index(after, other);
                assert(a > 0);
                assert(after[a] == entries[a - 1]);
            }
        }
        if entries.len() == limit {
            let gone = entries.last().0;
            if holds_key(after, gone) {
                let a = key_index(after, gone);
                if a > 0 {
                    assert(after[a] == entries[a - 1]);
                    assert(entries[a - 1].0 != entries[entries.len() - 1].0);
                } else {
                    assert(entries[entries.len() - 1].0 == key);
                }
            }
        }
    }
}

/// A removal keeps the keys distinct, takes the key out and changes no other.
pub proof fn lemma_dropped(entries: Seq<LineageEntry>, key: LineageKey)
    requires
        distinct_keys(entries),
    ensures
        distinct_keys(dropped(entries, key)),
        dropped(entries, key).len() <= entries.len(),
        !holds_key(dropped(entries, key), key),
        forall|other: LineageKey|
            other != key ==> #[trigger] lookup(dropped(entries, key), other) == lookup(
                entries,
                other,
            ),
{
    let after = dropped(entries, key);
    if holds_key(entries, key) {
        let i = key_index(entries, key);
        assert forall|a: int| 0 <= a < after.len() implies #[trigger] after[a] == entries[if a
            < i {
            a
        } else {
            a + 1
        }] by {}
        assert(distinct_keys(after)) by {
            assert forall|a: int, b: int|
                0 <= a < after.len() && 0 <= b < after.len() && a != b implies (
            #[trigger] after[a]).0 != (#[trigger] after[b]).0 by {
                let sa = if a < i {
                    a
                } else {
                    a + 1
                };
                let sb = if b < i {
                    b
                } else {
                    b + 1
                };
                assert(after[a] == entries[sa]);
                assert(after[b] == entries[sb]);
            }
        }
        if holds_key(after, key) {
            let a = key_index(after, key);
            let sa = if a < i {
                a
            } else {
                a + 1
            };
            assert(after[a] == entries[sa]);
            assert(entries[sa].0 != entries[i].0);
        }
        assert forall|other: LineageKey| other != key implies #[trigger] lookup(after, other)
            == lookup(entries, other) by {
            if holds_key(entries, other) {
                let b = key_index(entries, other);
                let a = if b < i {
                    b
                } else {
                    b - 1
                };
                assert(after[a] == entries[b]);
                lemma_key_index_unique(after, a);
                lemma_key_index_unique(entries, b);
            } else if holds_key(after, other) {
                let a = key_index(after, other);
                let sa = if a < i {
                    a
                } else {
                    a + 1
                };
                assert(after[a] == entries[sa]);
            }
        }
    }
}

/// The lineage cache. Its entries stand in the order of their last use, the
/// most recent first.
pub struct ReceiptsCache {
    store: cached::SizedCache<(bool, [u8; 32]), String>,
}

impl View for ReceiptsCache {
    type V = Seq<LineageEntry>;

    closed spec fn view(&self) -> Seq<LineageEntry> {
        cache_entries(self.store)
    }
}

impl ReceiptsCache {
    /// The number of entries that the cache holds at most.
    pub closed spec fn capacity(&self) -> nat {
        cache_limit(self.store)
    }

    /// No key is filed twice, and the entries fit the capacity.
    pub open spec fn wf(&self) -> bool {
        &&& distinct_keys(self@)
        &&& self@.len() <= self.capacity()
        &&& self.capacity() > 0
    }

    /// The text filed under the id, if any.
    pub open spec fn parent_of(&self, key: LineageKey) -> Option<Seq<char>> {
        lookup(self@, key)
    }

    /// An empty cache for at most `capacity` entries. A capacity of zero
    /// and one above the largest are refused as bad input.
    pub fn with_size(capacity: usize) -> (made: Result<ReceiptsCache, IndexerError>)
        ensures
            made is Err <==> capacity == 0 || capacity > MAX_CACHE_CAPACITY,
            made matches Err(e) ==> e == IndexerError::BadInput,
            made matches Ok(cache) ==> cache.wf() && cache@.len() == 0 && cache.capacity()
                == capacity,
    {
        if capacity == 0 || capacity > MAX_CACHE_CAPACITY {
            return Err(IndexerError::BadInput);
        }
        Ok(ReceiptsCache { store: sized_cache_with_size(capacity) })
    }

    /// The number of entries. It never passes the capacity.
    pub fn cache_size(&self) -> (size: usize)
        requires
            self.wf(),
        ensures
            size == self@.len(),
            size <= self.capacity(),
    {
        sized_cache_size(&self.store)
    }

    /// Reads the transaction hash filed under the id. A hit becomes the most
    /// recently used entry.
    pub fn cache_get(&mut self, id: &ReceiptOrDataId) -> (found: Option<String>)
        requires
            old(self).wf(),
        ensures
            final(self).wf(),
            final(self).capacity() == old(self).capacity(),
            final(self)@ == touched(old(self)@, id@),
            found is Some <==> old(self).parent_of(id@) is Some,
            found matches Some(text) ==> old(self).parent_of(id@) == Some(text@),
            forall|other: LineageKey| #[trigger]
                final(self).parent_of(other) == old(self).parent_of(other),
    {
        let key = id.cache_key();
        proof {
            lemma_touched(self@, id@);
        }
        sized_cache_get(&mut self.store, &key)
    }

    /// Files the transaction hash under the id and returns what was filed
    /// there before. A new id becomes the most recently used entry and, in a
    /// full cache, pushes out the one used longest ago.
    pub fn cache_set(&mut self, id: ReceiptOrDataId, text: String) -> (previous: Option<String>)
        requires
            old(self).wf(),
        ensures
            final(self).wf(),
            final(self).capacity() == old(self).capacity(),
            final(self)@ == stored(old(self)@, id@, text@, old(self).capacity()),
            previous is Some <==> old(self).parent_of(id@) is Some,
            previous matches Some(was) ==> old(self).parent_of(id@) == Some(was@),
            final(self).parent_of(id@) == Some(text@),
    {
        let key = id.cache_key();
        proof {
            lemma_stored(self@, id@, text@, self.capacity());
        }
        sized_cache_set(&mut self.store, key, text)
    }

    /// Takes the entry under the id out of the cache and returns its text.
    pub fn cache_remove(&mut self, id: &ReceiptOrDataId) -> (removed: Option<String>)
        requires
            old(self).wf(),
        ensures
            final(self).wf(),
            final(self).capacity() == old(self).capacity(),
            final(self)@ == dropped(old(self)@, id@),
            removed is Some <==> old(self).parent_of(id@) is Some,
            removed matches Some(text) ==> old(self).parent_of(id@) == Some(text@),
            final(self).parent_of(id@) is None,
            forall|other: LineageKey|
                other != id@ ==> #[trigger] final(self).parent_of(other) == old(self).parent_of(
                    other,
                ),
    {
        let key = id.cache_key();
        proof {
            lemma_dropped(self@, id@);
        }
        sized_cache_remove(&mut self.store, &key)
    }
}

} // verus!
