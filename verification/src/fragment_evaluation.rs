//! A fragment with its score, and the order in which scored fragments are
//! shown.

use crate::fragment::Fragment;
use crate::score::Score;
use vstd::prelude::*;

verus! {

/// A fragment and the score it was given.
#[derive(Debug, Clone)]
pub struct FragmentEvaluation {
    pub fragment: Fragment,
    pub value: Score,
}

/// The keys by which `evaluations` are ordered.
pub open spec fn keys_of(evaluations: Seq<FragmentEvaluation>) -> Seq<int> {
    evaluations.map_values(|e: FragmentEvaluation| e.value.spec_key())
}

/// Whether the item at position `a` comes before the one at position `b`:
/// it has the higher key, or the same key and the earlier position.
pub open spec fn precedes(keys: Seq<int>, a: int, b: int) -> bool {
    keys[a] > keys[b] || (keys[a] == keys[b] && a < b)
}

/// Whether `order` lists the positions of `keys`, each once, so that every
/// position comes before all that follow it in the list.
pub open spec fn is_ranking(keys: Seq<int>, order: Seq<int>) -> bool {
    &&& order.len() == keys.len()
    &&& forall|k: int| 0 <= k < order.len() ==> 0 <= #[trigger] order[k] < keys.len()
    &&& forall|i: int| 0 <= i < keys.len() ==> #[trigger] occurs_in(order, order.len() as int, i)
    &&& forall|k: int, l: int|
        0 <= k < l < order.len() ==> precedes(keys, #[trigger] order[k], #[trigger] order[l])
}

/// Whether `order` holds `position` at index `k`.
pub open spec fn is_at(order: Seq<int>, k: int, position: int) -> bool {
    0 <= k < order.len() && order[k] == position
}

/// Whether `order` holds `position` at an index below `limit`.
pub open spec fn occurs_in(order: Seq<int>, limit: int, position: int) -> bool {
    exists|k: int| k < limit && is_at(order, k, position)
}

/// The items taken in the given order.
pub open spec fn ranked<T>(items: Seq<T>, order: Seq<int>) -> Seq<T> {
    Seq::new(order.len(), |k: int| items[order[k]])
}

/// The one ranking of `keys`: from the highest key to the lowest, equal keys
/// in the order in which they stand.
pub open spec fn ranking(keys: Seq<int>) -> Seq<int> {
    choose|order: Seq<int>| is_ranking(keys, order)
}

/// Two rankings of the same keys agree in their first `count` places.
proof fn rankings_agree_up_to(keys: Seq<int>, a: Seq<int>, b: Seq<int>, count: int)
    requires
        is_ranking(keys, a),
        is_ranking(keys, b),
        0 <= count <= keys.len(),
    ensures
        forall|k: int| 0 <= k < count ==> a[k] == b[k],
    decreases count,
{
    if count > 0 {
        rankings_agree_up_to(keys, a, b, count - 1);
        let k = count - 1;
        if a[k] != b[k] {
            // Each of the two is somewhere in the other list, and it cannot
            // be before `k`, where the lists agree, nor at `k`.
            assert(occurs_in(b, b.len() as int, a[k]));
            assert(occurs_in(a, a.len() as int, b[k]));
            // Where they are, they come after the other one, so that each
            // of the two would come before the other.
            let in_b = choose|m: int| m < b.len() && is_at(b, m, a[k]);
            let in_a = choose|m: int| m < a.len() && is_at(a, m, b[k]);
        }
    }
}

/// The keys have one ranking and no other.
pub proof fn ranking_is_unique(keys: Seq<int>, a: Seq<int>, b: Seq<int>)
    requires
        is_ranking(keys, a),
        is_ranking(keys, b),
    ensures
        a == b,
{
    rankings_agree_up_to(keys, a, b, keys.len() as int);
}

/// In a ranking the keys never rise, and of two positions with the same key
/// the earlier comes first.
pub proof fn ranking_is_stable_and_descending(keys: Seq<int>, order: Seq<int>, k: int, l: int)
    requires
        is_ranking(keys, order),
        0 <= k < l < order.len(),
    ensures
        keys[order[k]] >= keys[order[l]],
        keys[order[k]] == keys[order[l]] ==> order[k] < order[l],
{
}

/// Orders the evaluations from the highest score to the lowest. Evaluations
/// with the same score stay in the order in which they came.
pub fn sort_by_value(evaluations: Vec<FragmentEvaluation>) -> (sorted: Vec<FragmentEvaluation>)
    ensures
        is_ranking(keys_of(evaluations@), ranking(keys_of(evaluations@))),
        sorted@ == ranked(evaluations@, ranking(keys_of(evaluations@))),
        forall|k: int, l: int|
            0 <= k < l < sorted@.len() ==> (#[trigger] sorted@[k]).value.spec_key() >= (
            #[trigger] sorted@[l]).value.spec_key(),
{
    let ghost given = evaluations@;
    let ghost keys = keys_of(given);
    let mut sorted = evaluations;
    let count = sorted.len();
    let ghost mut order: Seq<int> = Seq::new(count as nat, |k: int| k);
    let mut next: usize = 0;
    while next < count
        invariant
            0 <= next <= count,
            count == given.len(),
            keys == keys_of(given),
            sorted@.len() == count,
            order.len() == count,
            forall|k: int| 0 <= k < count ==> 0 <= #[trigger] order[k] < count,
            forall|k: int| 0 <= k < count ==> (#[trigger] sorted@[k]) == given[order[k]],
            forall|k: int| 0 <= k < next ==> #[trigger] order[k] < next,
            forall|k: int| next <= k < count ==> #[trigger] order[k] == k,
            forall|i: int| 0 <= i < next ==> #[trigger] occurs_in(order, next as int, i),
            forall|k: int, l: int|
                0 <= k < l < next ==> precedes(keys, #[trigger] order[k], #[trigger] order[l]),
        decreases count - next,
    {
        let key = sorted[next].value.key();
        let mut place = next;
        while place > 0 && sorted[place - 1].value.key() < key
            invariant
                0 <= place <= next < count,
                sorted@.len() == count,
                order.len() == count,
                keys == keys_of(given),
                count == given.len(),
                key == keys[next as int],
                forall|k: int| 0 <= k < count ==> 0 <= #[trigger] order[k] < count,
                forall|k: int| 0 <= k < count ==> (#[trigger] sorted@[k]) == given[order[k]],
                forall|k: int| place <= k < next ==> keys[#[trigger] order[k]] < key,
            decreases place,
        {
            place = place - 1;
        }
        let ghost before = order;
        let evaluation = sorted.remove(next);
        sorted.insert(place, evaluation);
        proof {
            order = before.remove(next as int).insert(place as int, next as int);
            assert forall|i: int| 0 <= i < next + 1 implies #[trigger] occurs_in(
                order,
                next + 1,
                i,
            ) by {
                if i == next {
                    assert(is_at(order, place as int, i));
                } else {
                    assert(occurs_in(before, next as int, i));
                    let was = choose|k: int| k < next && is_at(before, k, i);
                    if was < place {
                        assert(is_at(order, was, i));
                    } else {
                        assert(is_at(order, was + 1, i));
                    }
                }
            }
        }
        next = next + 1;
    }
    proof {
        ranking_is_unique(keys, order, ranking(keys));
    }
    sorted
}

} // verus!
