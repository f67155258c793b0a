//! Lists whose items keep an order.

use vstd::prelude::*;

verus! {

/// Every item of the list that has a rank has one from `from` up to below `to`, and
/// none of them comes before one of a lesser or equal rank. An item without a rank,
/// which a negative one stands for, may stand anywhere.
pub open spec fn ascends<T>(list: Seq<T>, rank: spec_fn(T) -> int, from: int, to: int) -> bool {
    &&& forall|i: int|
        0 <= i < list.len() ==> rank(#[trigger] list[i]) < 0 || from <= rank(list[i]) < to
    &&& forall|i: int, j: int|
        0 <= i < j < list.len() && rank(#[trigger] list[i]) >= 0 && rank(#[trigger] list[j]) >= 0
            ==> rank(list[i]) < rank(list[j])
}

/// Two lists in order, the second from where the first ends, are in order together.
pub proof fn lemma_joined_ascend<T>(
    first: Seq<T>,
    second: Seq<T>,
    rank: spec_fn(T) -> int,
    from: int,
    mid: int,
    to: int,
)
    requires
        ascends(first, rank, from, mid),
        ascends(second, rank, mid, to),
        from <= mid <= to,
    ensures
        ascends(first + second, rank, from, to),
{
    let both = first + second;
    let n = first.len() as int;
    assert forall|i: int| 0 <= i < both.len() implies rank(#[trigger] both[i]) < 0 || from <= rank(
        both[i],
    ) < to by {
        if i < n {
            assert(both[i] == first[i]);
        } else {
            assert(both[i] == second[i - n]);
        }
    }
    assert forall|i: int, j: int|
        0 <= i < j < both.len() && rank(#[trigger] both[i]) >= 0 && rank(#[trigger] both[j])
            >= 0 implies rank(both[i]) < rank(both[j]) by {
        if j < n {
            assert(both[i] == first[i] && both[j] == first[j]);
        } else if i >= n {
            assert(both[i] == second[i - n] && both[j] == second[j - n]);
        } else {
            assert(both[i] == first[i] && both[j] == second[j - n]);
        }
    }
}

/// Something is in two lists together just where it is in one of them.
pub proof fn lemma_joined_contain<T>(first: Seq<T>, second: Seq<T>, item: T)
    ensures
        (first + second).contains(item) <==> first.contains(item) || second.contains(item),
{
    let both = first + second;
    if first.contains(item) {
        let i = choose|i: int| 0 <= i < first.len() && first[i] == item;
        assert(both[i] == item);
    }
    if second.contains(item) {
        let i = choose|i: int| 0 <= i < second.len() && second[i] == item;
        assert(both[first.len() + i] == item);
    }
    if both.contains(item) {
        let i = choose|i: int| 0 <= i < both.len() && both[i] == item;
        if i < first.len() {
            assert(first[i] == item);
        } else {
            assert(second[i - first.len()] == item);
        }
    }
}

} // verus!
