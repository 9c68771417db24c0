//! Taking the first few of a set in an order.
//!
//! What is ordered has a key, and keys compare as tuples of integers do. An item is among the first `n` when fewer
//! than `n` items come before it.

use vstd::prelude::*;
use vstd::relations::injective_on;

verus! {

/// What an item is ordered by.
pub type Turn = (u128, i16, i64, u128);

/// Whether one key comes before another: at the first place where they differ, it has the smaller number.
pub open spec fn before(a: Turn, b: Turn) -> bool {
    ||| a.0 < b.0
    ||| a.0 == b.0 && a.1 < b.1
    ||| a.0 == b.0 && a.1 == b.1 && a.2 < b.2
    ||| a.0 == b.0 && a.1 == b.1 && a.2 == b.2 && a.3 < b.3
}

/// The items that come before an item.
pub open spec fn ahead<A>(items: Set<A>, key: spec_fn(A) -> Turn, item: A) -> Set<A> {
    items.filter(|other: A| before(key(other), key(item)))
}

/// The first `n` items.
pub open spec fn first<A>(items: Set<A>, key: spec_fn(A) -> Turn, n: int) -> Set<A> {
    items.filter(|item: A| ahead(items, key, item).len() < n)
}

/// `<[T]>::sort` of tuples, which compare as std documents for tuples: place by place. The same tuples come back,
/// each as often as before, and none after one that it comes before.
#[verifier::external_body]
pub(crate) fn sort(turns: &mut Vec<Turn>)
    ensures
        final(turns)@.to_multiset() == old(turns)@.to_multiset(),
        forall|i: int, j: int|
            0 <= i < j < final(turns)@.len() ==> !before(
                #[trigger] final(turns)@[j],
                #[trigger] final(turns)@[i],
            ),
{
    turns.sort()
}

/// Whether a list holds the keys of a set in order, each once.
pub open spec fn in_order<A>(items: Set<A>, key: spec_fn(A) -> Turn, turns: Seq<Turn>) -> bool {
    &&& forall|i: int, j: int|
        0 <= i < j < turns.len() ==> before(#[trigger] turns[i], #[trigger] turns[j])
    &&& forall|item: A| items.contains(item) ==> turns.contains(#[trigger] key(item))
    &&& forall|i: int| 0 <= i < turns.len() ==> held(items, key, #[trigger] turns[i])
}

/// Whether some item of a set has a key.
pub open spec fn held<A>(items: Set<A>, key: spec_fn(A) -> Turn, turn: Turn) -> bool {
    exists|item: A| holds(items, key, item, turn)
}

/// Whether an item of a set has a key.
pub open spec fn holds<A>(items: Set<A>, key: spec_fn(A) -> Turn, item: A, turn: Turn) -> bool {
    items.contains(item) && key(item) == turn
}

/// As many items satisfy a condition as there are keys in the stretch of a list that holds theirs.
pub proof fn lemma_stretch<A>(
    items: Set<A>,
    key: spec_fn(A) -> Turn,
    turns: Seq<Turn>,
    from: int,
    to: int,
    keep: spec_fn(A) -> bool,
)
    requires
        items.finite(),
        injective_on(key, items),
        in_order(items, key, turns),
        0 <= from <= to <= turns.len(),
        forall|item: A|
            items.contains(item) ==> (#[trigger] keep(item) <==> turns.subrange(from, to).contains(
                key(item),
            )),
    ensures
        items.filter(keep).finite(),
        items.filter(keep).len() == to - from,
{
    broadcast use vstd::set::group_set_axioms;

    let kept = items.filter(keep);
    let stretch = turns.subrange(from, to);
    items.lemma_len_filter(keep);
    assert(stretch.no_duplicates()) by {
        assert forall|i: int, j: int| 0 <= i < j < stretch.len() implies stretch[i] != stretch[j] by {
            assert(before(turns[from + i], turns[from + j]));
        }
    }
    stretch.unique_seq_to_set();
    assert(kept.map(key) =~= stretch.to_set()) by {
        assert forall|turn: Turn| stretch.contains(turn) implies kept.map(key).contains(turn) by {
            let i = choose|i: int| 0 <= i < stretch.len() && stretch[i] == turn;
            assert(turns[from + i] == turn);
            let item = choose|item: A| holds(items, key, item, turn);
            assert(keep(item));
            assert(kept.contains(item));
        }
        assert forall|turn: Turn| kept.map(key).contains(turn) implies stretch.contains(turn) by {
            let item = choose|item: A| kept.contains(item) && turn == key(item);
            assert(keep(item));
        }
    }
    assert(injective_on(key, kept));
    vstd::set_lib::lemma_map_size(kept, stretch.to_set(), key);
}

/// How many of `len` items are taken, where `n` are wanted.
pub open spec fn taken(n: int, len: nat) -> int {
    crate::clamped(n, 0, len as int)
}

/// The first `n` items are those whose keys are the first `n` of the list, and there are `n` of them where there are
/// enough.
pub proof fn lemma_first<A>(items: Set<A>, key: spec_fn(A) -> Turn, turns: Seq<Turn>, n: int)
    requires
        items.finite(),
        injective_on(key, items),
        in_order(items, key, turns),
    ensures
        items.len() == turns.len(),
        forall|item: A| #[trigger]
            first(items, key, n).contains(item) <==> items.contains(item) && turns.take(
                taken(n, turns.len()),
            ).contains(key(item)),
        first(items, key, n).finite(),
        first(items, key, n).len() == taken(n, turns.len()),
{
    broadcast use vstd::set::group_set_axioms;

    let m = taken(n, turns.len());
    assert forall|item: A| items.contains(item) implies (ahead(items, key, item).len() < n
        <==> turns.take(m).contains(#[trigger] key(item))) by {
        let place = choose|i: int| 0 <= i < turns.len() && turns[i] == key(item);
        lemma_ahead(items, key, turns, item, place);
        if place < m {
            assert(turns.take(m)[place] == key(item));
        }
        if turns.take(m).contains(key(item)) {
            let i = choose|i: int| 0 <= i < m && turns.take(m)[i] == key(item);
            assert(turns[i] == turns[place]);
            if i < place {
                assert(before(turns[i], turns[place]));
            } else if place < i {
                assert(before(turns[place], turns[i]));
            }
        }
    }
    let early = |item: A| ahead(items, key, item).len() < n;
    assert(turns.subrange(0, m) =~= turns.take(m));
    lemma_stretch(items, key, turns, 0, m, early);
    assert(first(items, key, n) =~= items.filter(early));
    let all = |item: A| true;
    assert(turns.subrange(0, turns.len() as int) =~= turns);
    lemma_stretch(items, key, turns, 0, turns.len() as int, all);
    assert(items.filter(all) =~= items);
}

/// As many items come before an item as keys stand before its own.
pub proof fn lemma_ahead<A>(items: Set<A>, key: spec_fn(A) -> Turn, turns: Seq<Turn>, item: A, place: int)
    requires
        items.finite(),
        injective_on(key, items),
        in_order(items, key, turns),
        0 <= place < turns.len(),
        turns[place] == key(item),
    ensures
        ahead(items, key, item).len() == place,
{
    let sooner = |other: A| before(key(other), key(item));
    assert forall|other: A| items.contains(other) implies (#[trigger] sooner(other) <==> turns.subrange(
        0,
        place,
    ).contains(key(other))) by {
        let i = choose|i: int| 0 <= i < turns.len() && turns[i] == key(other);
        if i < place {
            assert(before(turns[i], turns[place]));
            assert(turns.subrange(0, place)[i] == key(other));
        } else {
            if place < i {
                assert(before(turns[place], turns[i]));
            }
            if turns.subrange(0, place).contains(key(other)) {
                let k = choose|k: int| 0 <= k < place && turns.subrange(0, place)[k] == key(other);
                assert(turns[k] == turns[i]);
                assert(before(turns[k], turns[i]));
            }
        }
    }
    lemma_stretch(items, key, turns, 0, place, sooner);
}

/// Whoever comes before one of the first `n` items is one of them too.
pub proof fn lemma_first_leaves_nobody_ahead<A>(
    items: Set<A>,
    key: spec_fn(A) -> Turn,
    n: int,
    item: A,
    other: A,
)
    requires
        items.finite(),
        first(items, key, n).contains(item),
        items.contains(other),
        before(key(other), key(item)),
    ensures
        first(items, key, n).contains(other),
{
    broadcast use vstd::set::group_set_axioms;

    let sooner = ahead(items, key, other);
    let before_item = ahead(items, key, item);
    assert(sooner.subset_of(before_item));
    items.lemma_len_filter(|one: A| before(key(one), key(item)));
    vstd::set_lib::lemma_len_subset(sooner, before_item);
}

/// Sorting the keys of items that are all different puts them in order.
pub proof fn lemma_sorted<A>(items: Seq<A>, key: spec_fn(A) -> Turn, given: Seq<Turn>, turns: Seq<Turn>)
    requires
        items.no_duplicates(),
        injective_on(key, items.to_set()),
        given == items.map_values(key),
        turns.to_multiset() == given.to_multiset(),
        forall|i: int, j: int|
            0 <= i < j < turns.len() ==> !before(#[trigger] turns[j], #[trigger] turns[i]),
    ensures
        items.to_set().finite(),
        in_order(items.to_set(), key, turns),
        turns.len() == items.len(),
{
    broadcast use vstd::set::group_set_axioms;
    broadcast use vstd::seq_lib::group_to_multiset_ensures;
    broadcast use vstd::seq_lib::seq_to_set_is_finite;

    let all = items.to_set();
    assert(given.no_duplicates()) by {
        assert forall|i: int, j: int| 0 <= i < j < given.len() implies given[i] != given[j] by {
            assert(all.contains(items[i]) && all.contains(items[j]));
            assert(given[i] == key(items[i]) && given[j] == key(items[j]));
        }
    }
    given.lemma_multiset_has_no_duplicates();
    turns.lemma_multiset_has_no_duplicates_conv();
    assert(turns.len() == given.len()) by {
        assert(turns.len() == turns.to_multiset().len());
    }
    assert forall|i: int, j: int| 0 <= i < j < turns.len() implies before(
        #[trigger] turns[i],
        #[trigger] turns[j],
    ) by {
        assert(!before(turns[j], turns[i]));
        assert(turns[i] != turns[j]);
    }
    assert forall|item: A| all.contains(item) implies turns.contains(#[trigger] key(item)) by {
        let i = choose|i: int| 0 <= i < items.len() && items[i] == item;
        assert(given[i] == key(item));
        assert(given.to_multiset().count(key(item)) > 0);
    }
    assert forall|i: int| 0 <= i < turns.len() implies held(all, key, #[trigger] turns[i]) by {
        assert(turns.contains(turns[i]));
        assert(turns.to_multiset().count(turns[i]) > 0);
        assert(given.contains(turns[i]));
        let k = choose|k: int| 0 <= k < given.len() && given[k] == turns[i];
        assert(holds(all, key, items[k], turns[i]));
    }
}

/// The keys of every finite set can be put in order.
pub proof fn lemma_an_order_exists<A>(items: Set<A>, key: spec_fn(A) -> Turn) -> (turns: Seq<Turn>)
    requires
        items.finite(),
        injective_on(key, items),
    ensures
        in_order(items, key, turns),
{
    broadcast use vstd::seq_lib::group_to_multiset_ensures;

    let listed = items.to_seq();
    items.lemma_to_seq_to_set_id();
    lemma_listed_once(items);
    let given = listed.map_values(key);
    let leq = |a: Turn, b: Turn| !before(b, a);
    given.lemma_sort_by_ensures(leq);
    let turns = given.sort_by(leq);
    assert forall|i: int, j: int| 0 <= i < j < turns.len() implies !before(
        #[trigger] turns[j],
        #[trigger] turns[i],
    ) by {
        assert(leq(turns[i], turns[j]));
    }
    lemma_sorted(listed, key, given, turns);
    turns
}

proof fn lemma_listed_once<A>(items: Set<A>)
    requires
        items.finite(),
    ensures
        items.to_seq().no_duplicates(),
{
    broadcast use vstd::set::group_set_axioms;

    items.lemma_to_seq_to_set_id();
    lemma_listed_len(items);
    items.to_seq().lemma_no_dup_set_cardinality();
}

proof fn lemma_listed_len<A>(items: Set<A>)
    requires
        items.finite(),
    ensures
        items.to_seq().len() == items.len(),
    decreases items.len(),
{
    broadcast use vstd::set::group_set_axioms;

    if items.len() > 0 {
        let item = items.choose();
        assert(items.contains(item)) by {
            if items =~= Set::<A>::empty() {
                assert(items.len() == 0);
            }
        }
        lemma_listed_len(items.remove(item));
    }
}

} // verus!
