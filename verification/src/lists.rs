//! Facts about sequences that several modules use.

use vstd::prelude::*;

verus! {

/// What a filter keeps was there before, and satisfies it; and what was there and satisfies it is kept.
pub proof fn lemma_filter_keeps<A>(items: Seq<A>, keep: spec_fn(A) -> bool, item: A)
    ensures
        items.filter(keep).contains(item) <==> items.contains(item) && keep(item),
    decreases items.len(),
{
    reveal(Seq::filter);
    if items.len() > 0 {
        let front = items.drop_last();
        lemma_filter_keeps(front, keep, item);
        assert(items =~= front.push(items.last()));
        lemma_push_contains(front, items.last(), item);
        lemma_push_contains(front.filter(keep), items.last(), item);
    }
}

/// A filter repeats nothing that was not repeated before.
pub proof fn lemma_filter_once<A>(items: Seq<A>, keep: spec_fn(A) -> bool)
    requires
        items.no_duplicates(),
    ensures
        items.filter(keep).no_duplicates(),
    decreases items.len(),
{
    reveal(Seq::filter);
    if items.len() > 0 {
        let front = items.drop_last();
        lemma_filter_once(front, keep);
        lemma_filter_keeps(front, keep, items.last());
        assert(!front.contains(items.last()));
    }
}

/// A list with one more item contains what it contained and that item.
pub proof fn lemma_push_contains<A>(items: Seq<A>, last: A, item: A)
    ensures
        items.push(last).contains(item) <==> items.contains(item) || item == last,
{
    let longer = items.push(last);
    if items.contains(item) {
        let i = choose|i: int| 0 <= i < items.len() && items[i] == item;
        assert(longer[i] == item);
    }
    if item == last {
        assert(longer[items.len() as int] == item);
    }
    if longer.contains(item) {
        let i = choose|i: int| 0 <= i < longer.len() && longer[i] == item;
        if i < items.len() {
            assert(items[i] == item);
        }
    }
}

/// Two lists joined contain what either contains.
pub proof fn lemma_join_contains<A>(a: Seq<A>, b: Seq<A>, item: A)
    ensures
        (a + b).contains(item) <==> a.contains(item) || b.contains(item),
{
    let both = a + b;
    if a.contains(item) {
        let i = choose|i: int| 0 <= i < a.len() && a[i] == item;
        assert(both[i] == item);
    }
    if b.contains(item) {
        let i = choose|i: int| 0 <= i < b.len() && b[i] == item;
        assert(both[a.len() + i] == item);
    }
    if both.contains(item) {
        let i = choose|i: int| 0 <= i < both.len() && both[i] == item;
        if i < a.len() {
            assert(a[i] == item);
        } else {
            assert(b[i - a.len()] == item);
        }
    }
}

/// Filtering one item further.
pub proof fn lemma_filter_step<A>(items: Seq<A>, keep: spec_fn(A) -> bool, i: int)
    requires
        0 <= i < items.len(),
    ensures
        items.take(i + 1).filter(keep) == if keep(items[i]) {
            items.take(i).filter(keep).push(items[i])
        } else {
            items.take(i).filter(keep)
        },
{
    reveal(Seq::filter);
    assert(items.take(i + 1).drop_last() =~= items.take(i));
    assert(items.take(i + 1).last() == items[i]);
}

/// Filtering nothing, and filtering everything there is.
pub proof fn lemma_filter_ends<A>(items: Seq<A>, keep: spec_fn(A) -> bool)
    ensures
        items.take(0).filter(keep) == Seq::<A>::empty(),
        items.take(items.len() as int) == items,
{
    reveal(Seq::filter);
    assert(items.take(0) =~= Seq::<A>::empty());
    assert(items.take(0).filter(keep) =~= Seq::<A>::empty());
    assert(items.take(items.len() as int) =~= items);
}

} // verus!
