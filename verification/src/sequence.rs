//! Which items of a sequence are kept when it is filtered.
use vstd::prelude::*;

verus! {

/// Whether an item is another one than `x`.
pub open spec fn other_than<A>(x: A) -> spec_fn(A) -> bool {
    |y: A| y != x
}

/// The items other than `x`, in their order.
pub open spec fn all_but<A>(items: Seq<A>, x: A) -> Seq<A> {
    items.filter(other_than(x))
}

/// Exactly the items that pass are kept.
pub proof fn filter_keeps<A>(items: Seq<A>, keep: spec_fn(A) -> bool, x: A)
    ensures
        items.filter(keep).contains(x) <==> (items.contains(x) && keep(x)),
    decreases items.len(),
{
    reveal(Seq::filter);
    if items.len() > 0 {
        let short = items.drop_last();
        let kept = short.filter(keep);
        filter_keeps(short, keep, x);
        assert(items =~= short.push(items.last()));
        push_holds(short, items.last(), x);
        push_holds(kept, items.last(), x);
    }
}

proof fn push_holds<A>(items: Seq<A>, last: A, x: A)
    ensures
        items.push(last).contains(x) <==> (items.contains(x) || x == last),
{
    let all = items.push(last);
    if items.contains(x) {
        let k = choose|k: int| 0 <= k < items.len() && items[k] == x;
        assert(all[k] == x);
    }
    if all.contains(x) {
        let k = choose|k: int| 0 <= k < all.len() && all[k] == x;
        assert(k < items.len() ==> items[k] == x);
    }
    assert(all[items.len() as int] == last);
}

/// Items that occur once are kept once.
pub proof fn filter_keeps_distinct<A>(items: Seq<A>, keep: spec_fn(A) -> bool)
    requires
        items.no_duplicates(),
    ensures
        items.filter(keep).no_duplicates(),
    decreases items.len(),
{
    reveal(Seq::filter);
    if items.len() > 0 {
        let short = items.drop_last();
        filter_keeps_distinct(short, keep);
        filter_keeps(short, keep, items.last());
        assert(!short.contains(items.last())) by {
            if short.contains(items.last()) {
                let k = choose|k: int| 0 <= k < short.len() && short[k] == items.last();
                assert(items[k] == items[items.len() - 1]);
            }
        }
        pushing_keeps_distinct(short.filter(keep), items.last());
    }
}

/// An item that was not there before can be pushed without anything occurring twice.
pub proof fn pushing_keeps_distinct<A>(items: Seq<A>, last: A)
    requires
        items.no_duplicates(),
        !items.contains(last),
    ensures
        items.push(last).no_duplicates(),
{
    let all = items.push(last);
    assert forall|i: int, j: int|
        0 <= i < all.len() && 0 <= j < all.len() && i != j implies all[i] != all[j] by {
        if i == items.len() {
            assert(items.contains(items[j]));
        } else if j == items.len() {
            assert(items.contains(items[i]));
        }
    }
}

/// Where every item passes, all are kept as they are.
pub proof fn filter_keeps_all<A>(items: Seq<A>, keep: spec_fn(A) -> bool)
    requires
        forall|i: int| 0 <= i < items.len() ==> keep(#[trigger] items[i]),
    ensures
        items.filter(keep) == items,
    decreases items.len(),
{
    reveal(Seq::filter);
    if items.len() > 0 {
        let short = items.drop_last();
        assert forall|i: int| 0 <= i < short.len() implies keep(#[trigger] short[i]) by {
            assert(short[i] == items[i]);
        }
        filter_keeps_all(short, keep);
        assert(keep(items[items.len() - 1]));
        assert(items =~= short.push(items.last()));
    }
}

} // verus!
