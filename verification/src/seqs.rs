//! Small notions on sequences that the contracts of the adapters share.

use vstd::prelude::*;

verus! {

/// The views of the items of a sequence, in their order.
pub open spec fn views_of<T: View>(items: Seq<T>) -> Seq<T::V> {
    Seq::new(items.len(), |i: int| items[i]@)
}

/// The view of a text that may be missing.
pub open spec fn text_view(text: Option<String>) -> Option<Seq<char>> {
    match text {
        Some(t) => Some(t@),
        None => None,
    }
}

/// Those of the first `n` items that meet the test, in their order.
pub open spec fn kept<T>(items: Seq<T>, test: spec_fn(T) -> bool, n: nat) -> Seq<T>
    recommends
        n <= items.len(),
    decreases n,
{
    if n == 0 {
        Seq::<T>::empty()
    } else if test(items[n - 1]) {
        kept(items, test, (n - 1) as nat).push(items[n - 1])
    } else {
        kept(items, test, (n - 1) as nat)
    }
}

/// An item among the first `n` that meets the test was kept.
pub proof fn lemma_kept_holds<T>(items: Seq<T>, test: spec_fn(T) -> bool, n: nat, i: int)
    requires
        n <= items.len(),
        0 <= i < n,
        test(items[i]),
    ensures
        exists|k: int| 0 <= k < kept(items, test, n).len() && kept(items, test, n)[k] == items[i],
    decreases n,
{
    let now = kept(items, test, n);
    if i == n - 1 {
        assert(now[now.len() - 1] == items[i]);
    } else {
        lemma_kept_holds(items, test, (n - 1) as nat, i);
        let before = kept(items, test, (n - 1) as nat);
        let k = choose|k: int| 0 <= k < before.len() && before[k] == items[i];
        assert(now[k] == items[i]);
    }
}

} // verus!
