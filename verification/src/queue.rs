//! Queues of queries that wait for an answer.
use crate::sequence::{all_but, filter_keeps, filter_keeps_all, other_than};
use std::collections::VecDeque;
use vstd::prelude::*;

verus! {

/// `queue` without the query `id`.
pub open spec fn without(queue: Seq<u64>, id: u64) -> Seq<u64> {
    all_but(queue, id)
}

/// Puts a query at the end of a queue.
pub fn enqueue(queue: &mut VecDeque<u64>, id: u64)
    ensures
        final(queue).deep_view() == old(queue).deep_view().push(id),
{
    queue.push_back(id);
    assert(queue.deep_view() =~= old(queue).deep_view().push(id));
}

/// Takes the query that has waited longest.
pub fn dequeue(queue: &mut VecDeque<u64>) -> (id: Option<u64>)
    ensures
        match id {
            Some(q) => {
                &&& old(queue).deep_view().len() > 0
                &&& q == old(queue).deep_view()[0]
                &&& final(queue).deep_view() == old(queue).deep_view().drop_first()
            },
            None => {
                &&& old(queue).deep_view().len() == 0
                &&& final(queue).deep_view() == old(queue).deep_view()
            },
        },
{
    let ghost before = queue.deep_view();
    let id = queue.pop_front();
    assert(before.len() > 0 ==> queue.deep_view() =~= before.drop_first());
    assert(before.len() == 0 ==> queue.deep_view() =~= before);
    id
}

/// The queue without the query `id`.
pub fn queue_without(queue: &VecDeque<u64>, id: u64) -> (rest: VecDeque<u64>)
    ensures
        rest.deep_view() == without(queue.deep_view(), id),
{
    let ghost all = queue.deep_view();
    let mut rest: VecDeque<u64> = VecDeque::new();
    let mut i: usize = 0;
    proof {
        reveal(Seq::filter);
        assert(rest.deep_view() =~= without(all.take(0), id));
    }
    while i < queue.len()
        invariant
            i <= queue.len(),
            all == queue.deep_view(),
            rest.deep_view() == without(all.take(i as int), id),
        decreases queue.len() - i,
    {
        let q = queue[i];
        proof {
            reveal(Seq::filter);
            assert(all.take(i + 1).drop_last() =~= all.take(i as int));
            assert(all.take(i + 1).last() == q);
        }
        if q != id {
            enqueue(&mut rest, q);
        }
        i += 1;
    }
    assert(all.take(all.len() as int) =~= all);
    rest
}

/// A query stays in a queue without `id` exactly where it was in the queue and is not `id`.
pub proof fn without_keeps_others(queue: Seq<u64>, id: u64, q: u64)
    ensures
        without(queue, id).contains(q) <==> (queue.contains(q) && q != id),
{
    filter_keeps(queue, other_than(id), q);
}

/// A queue that does not hold `id` is not changed when `id` is taken out.
pub proof fn without_absent(queue: Seq<u64>, id: u64)
    requires
        !queue.contains(id),
    ensures
        without(queue, id) == queue,
{
    assert forall|i: int| 0 <= i < queue.len() implies other_than(id)(#[trigger] queue[i]) by {
        assert(queue.contains(queue[i]));
    }
    filter_keeps_all(queue, other_than(id));
}

} // verus!
