//! Searches over slices driven by caller-supplied predicates.
//!
//! A predicate is any closure; its answers are described by what it may return
//! (`call_ensures`), so the contracts hold for predicates that are not deterministic.

use vstd::prelude::*;

verus! {

/// `keep` selects which items of `items` stay, in order.
pub open spec fn select_by<T>(items: Seq<T>, keep: Seq<bool>) -> Seq<T>
    decreases items.len(),
{
    if items.len() == 0 || keep.len() == 0 {
        Seq::empty()
    } else {
        let rest = select_by(items.drop_last(), keep.drop_last());
        if keep.last() { rest.push(items.last()) } else { rest }
    }
}

/// `f` may be called on every item.
pub open spec fn callable_on_all<T, F: Fn(&T) -> bool>(items: Seq<T>, f: F) -> bool {
    forall|i: int| 0 <= i < items.len() ==> #[trigger] f.requires((&items[i],))
}

/// `f` may answer `false` on every item of `items` before index `n`.
pub open spec fn rejects_before<T, F: Fn(&T) -> bool>(items: Seq<T>, f: F, n: int) -> bool {
    forall|j: int| 0 <= j < n ==> #[trigger] f.ensures((&items[j],), false)
}

/// Index of the first item that `f` accepts: every item before it may be rejected by `f`.
pub open spec fn is_first_accepted<T, F: Fn(&T) -> bool>(items: Seq<T>, f: F, i: int) -> bool {
    &&& 0 <= i < items.len()
    &&& f.ensures((&items[i],), true)
    &&& rejects_before(items, f, i)
}

/// Return the index of the first item that `f` accepts, or `None` when it accepts none.
pub fn find_index<T, F: Fn(&T) -> bool>(items: &[T], f: &F) -> (r: Option<usize>)
    requires
        callable_on_all(items@, *f),
    ensures
        match r {
            Some(i) => is_first_accepted(items@, *f, i as int),
            None => rejects_before(items@, *f, items@.len() as int),
        },
{
    let n = items.len();
    let mut i: usize = 0;
    while i < n
        invariant
            n == items@.len(),
            0 <= i <= n,
            callable_on_all(items@, *f),
            rejects_before(items@, *f, i as int),
        decreases n - i,
    {
        assert(f.requires((&items@[i as int],)));
        if f(&items[i]) {
            return Some(i);
        }
        i = i + 1;
    }
    None
}

/// Copy every item that `f` accepts, keeping their order.
pub fn filter_copy<T: Copy, F: Fn(&T) -> bool>(items: &[T], f: &F) -> (r: Vec<T>)
    requires
        callable_on_all(items@, *f),
    ensures
        exists|keep: Seq<bool>| {
            &&& keep.len() == items@.len()
            &&& forall|i: int| 0 <= i < items@.len() ==> #[trigger] f.ensures((&items@[i],), keep[i])
            &&& r@ == select_by(items@, keep)
        },
{
    let n = items.len();
    let mut result: Vec<T> = Vec::new();
    let mut i: usize = 0;
    let ghost mut keep: Seq<bool> = Seq::empty();
    while i < n
        invariant
            n == items@.len(),
            0 <= i <= n,
            callable_on_all(items@, *f),
            keep.len() == i,
            forall|j: int| 0 <= j < i ==> #[trigger] f.ensures((&items@[j],), keep[j]),
            result@ == select_by(items@.subrange(0, i as int), keep),
        decreases n - i,
    {
        assert(f.requires((&items@[i as int],)));
        let item = items[i];
        let accepted = f(&items[i]);
        proof {
            let next_items = items@.subrange(0, i + 1);
            assert(next_items.drop_last() == items@.subrange(0, i as int));
            assert(keep.push(accepted).drop_last() == keep);
            keep = keep.push(accepted);
        }
        if accepted {
            result.push(item);
        }
        i = i + 1;
    }
    proof {
        assert(items@.subrange(0, n as int) == items@);
    }
    result
}

} // verus!
