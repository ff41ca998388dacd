//! Stable newest-first arrangement of items by instant, and sums over rearranged sequences.

use crate::time::{instant_on_or_before, UtcInstant};
use vstd::prelude::*;

verus! {

/// Whether `order` lists every index of `keys` once, newest key first, keeping the original
/// order among equal keys (what a stable sort by descending key gives).
pub open spec fn is_newest_first_order(keys: Seq<(int, int)>, order: Seq<int>) -> bool {
    &&& order.len() == keys.len()
    &&& forall|position: int| 0 <= position < order.len() ==> 0 <= #[trigger] order[position] < keys.len()
    &&& forall|first: int, second: int|
        0 <= first < second < order.len() ==> #[trigger] order[first] != #[trigger] order[second]
    &&& forall|first: int, second: int|
        0 <= first < second < order.len() ==> instant_on_or_before(
            keys[#[trigger] order[second]],
            keys[#[trigger] order[first]],
        )
    &&& forall|first: int, second: int|
        0 <= first < second < order.len() && keys[#[trigger] order[first]] == keys[#[trigger] order[second]]
            ==> order[first] < order[second]
}

/// The plain values of a sequence of instants.
pub open spec fn instant_values(instants: Seq<UtcInstant>) -> Seq<(int, int)> {
    instants.map_values(|instant: UtcInstant| instant@)
}

/// Whether an instant is strictly before another.
pub open spec fn strictly_before(left: (int, int), right: (int, int)) -> bool {
    !instant_on_or_before(right, left)
}

/// Lists the indices of `keys`, newest first, keeping the original order among equal keys.
pub fn newest_first_order(keys: &Vec<UtcInstant>) -> (result: Vec<usize>)
    ensures
        is_newest_first_order(instant_values(keys@), result@.map_values(|index: usize| index as int)),
{
    let ghost values = instant_values(keys@);
    let mut order: Vec<usize> = Vec::new();
    let mut next: usize = 0;
    while next < keys.len()
        invariant
            next <= keys.len(),
            values == instant_values(keys@),
            values.len() == keys.len(),
            forall|index: int| 0 <= index < order.len() ==> (#[trigger] order@[index] as int) < next,
            is_newest_first_order(
                values.take(next as int),
                order@.map_values(|index: usize| index as int),
            ),
        decreases keys.len() - next,
    {
        let ghost before = order@.map_values(|index: usize| index as int);
        let ghost prefix = values.take(next as int);
        let ghost extended = values.take(next + 1);
        assert forall|index: int| 0 <= index < next implies extended[index] == prefix[index] by {}
        let key = keys[next];
        let mut position: usize = 0;
        while position < order.len() && key.is_on_or_before(&keys[order[position]])
            invariant
                position <= order.len(),
                order@.map_values(|index: usize| index as int) == before,
                before.len() == next,
                next < keys.len(),
                forall|index: int| 0 <= index < order.len() ==> (#[trigger] order@[index] as int) < next,
                values == instant_values(keys@),
                is_newest_first_order(prefix, before),
                prefix == values.take(next as int),
                key@ == values[next as int],
                forall|earlier: int| 0 <= earlier < position ==> instant_on_or_before(
                    key@,
                    prefix[#[trigger] before[earlier]],
                ),
            decreases order.len() - position,
        {
            proof {
                assert(before[position as int] == order@[position as int] as int);
                assert(prefix[before[position as int]] == keys@[order@[position as int] as int]@);
            }
            position = position + 1;
        }
        proof {
            if position < order.len() {
                assert(before[position as int] == order@[position as int] as int);
                assert(strictly_before(prefix[before[position as int]], key@));
                assert forall|later: int| position <= later < before.len() implies strictly_before(
                    prefix[#[trigger] before[later]],
                    key@,
                ) by {
                    if later > position {
                        assert(instant_on_or_before(prefix[before[later]], prefix[before[position as int]]));
                    }
                }
            }
        }
        order.insert(position, next);
        proof {
            let after = order@.map_values(|index: usize| index as int);
            assert(after =~= before.insert(position as int, next as int));
            assert(extended.len() == next + 1);
            assert forall|index: int| 0 <= index < after.len() implies 0 <= #[trigger] after[index] < extended.len() by {
                if index < position {
                    assert(after[index] == before[index]);
                } else if index > position {
                    assert(after[index] == before[index - 1]);
                }
            }
            assert forall|first: int, second: int| 0 <= first < second < after.len() implies #[trigger] after[first] != #[trigger] after[second] by {
                if first < position && second < position {
                } else if first > position && second > position {
                    assert(after[first] == before[first - 1]);
                    assert(after[second] == before[second - 1]);
                } else if first < position && second > position {
                    assert(after[second] == before[second - 1]);
                } else if first == position {
                    if second > position {
                        assert(after[second] == before[second - 1]);
                    }
                } else {
                    assert(after[first] == before[first]);
                }
            }
            assert forall|first: int, second: int| 0 <= first < second < after.len() implies instant_on_or_before(
                extended[#[trigger] after[second]],
                extended[#[trigger] after[first]],
            ) by {
                if first < position && second < position {
                    assert(extended[after[first]] == prefix[before[first]]);
                    assert(extended[after[second]] == prefix[before[second]]);
                } else if first > position && second > position {
                    assert(after[first] == before[first - 1]);
                    assert(after[second] == before[second - 1]);
                    assert(extended[after[first]] == prefix[before[first - 1]]);
                    assert(extended[after[second]] == prefix[before[second - 1]]);
                } else if first < position && second > position {
                    assert(after[second] == before[second - 1]);
                    assert(extended[after[first]] == prefix[before[first]]);
                    assert(extended[after[second]] == prefix[before[second - 1]]);
                    assert(instant_on_or_before(key@, prefix[before[first]]));
                    assert(strictly_before(prefix[before[second - 1]], key@));
                } else if first == position {
                    assert(after[second] == before[second - 1]);
                    assert(extended[after[second]] == prefix[before[second - 1]]);
                    assert(strictly_before(prefix[before[second - 1]], key@));
                } else {
                    assert(extended[after[first]] == prefix[before[first]]);
                    assert(instant_on_or_before(key@, prefix[before[first]]));
                }
            }
            assert forall|first: int, second: int|
                0 <= first < second < after.len() && extended[#[trigger] after[first]] == extended[#[trigger] after[second]]
                implies after[first] < after[second] by {
                if first < position && second < position {
                    assert(extended[after[first]] == prefix[before[first]]);
                    assert(extended[after[second]] == prefix[before[second]]);
                } else if first > position && second > position {
                    assert(after[first] == before[first - 1]);
                    assert(after[second] == before[second - 1]);
                    assert(extended[after[first]] == prefix[before[first - 1]]);
                    assert(extended[after[second]] == prefix[before[second - 1]]);
                } else if first < position && second > position {
                    assert(after[second] == before[second - 1]);
                    assert(extended[after[second]] == prefix[before[second - 1]]);
                    assert(extended[after[first]] == prefix[before[first]]);
                    assert(instant_on_or_before(key@, prefix[before[first]]));
                    assert(strictly_before(prefix[before[second - 1]], key@));
                } else if first == position {
                    assert(after[second] == before[second - 1]);
                    assert(extended[after[second]] == prefix[before[second - 1]]);
                    assert(strictly_before(prefix[before[second - 1]], key@));
                } else {
                    assert(after[first] == before[first]);
                }
            }
        }
        next = next + 1;
    }
    proof {
        assert(values.take(keys.len() as int) =~= values);
    }
    order
}

/// Sum of a sequence of integers.
pub open spec fn sum_of(values: Seq<int>) -> int
    decreases values.len(),
{
    if values.len() == 0 {
        0
    } else {
        sum_of(values.drop_last()) + values.last()
    }
}

/// Sum of a sequence split at an index.
pub proof fn lemma_sum_split(values: Seq<int>, split: int)
    requires
        0 <= split <= values.len(),
    ensures
        sum_of(values) == sum_of(values.take(split)) + sum_of(values.skip(split)),
    decreases values.len(),
{
    if split == values.len() {
        assert(values.take(split) =~= values);
        assert(values.skip(split) =~= Seq::<int>::empty());
    } else {
        lemma_sum_split(values.drop_last(), split);
        assert(values.drop_last().take(split) =~= values.take(split));
        assert(values.drop_last().skip(split) =~= values.skip(split).drop_last());
        assert(values.skip(split).last() == values.last());
    }
}

/// Removing one element takes exactly that element off the sum.
pub proof fn lemma_sum_remove(values: Seq<int>, index: int)
    requires
        0 <= index < values.len(),
    ensures
        sum_of(values) == sum_of(values.remove(index)) + values[index],
{
    lemma_sum_split(values, index);
    lemma_sum_split(values.remove(index), index);
    assert(values.remove(index).take(index) =~= values.take(index));
    let tail = values.skip(index);
    assert(tail.len() > 0);
    lemma_sum_split(tail, 1);
    assert(tail.skip(1) =~= values.remove(index).skip(index));
    assert(tail.take(1) =~= seq![values[index]]);
    assert(sum_of(seq![values[index]]) == sum_of(Seq::<int>::empty()) + values[index]) by {
        assert(seq![values[index]].drop_last() =~= Seq::<int>::empty());
    }
}

/// A rearrangement of a sequence has the same sum.
pub proof fn lemma_sum_rearranged(source: Seq<int>, arranged: Seq<int>, order: Seq<int>)
    requires
        order.len() == source.len(),
        arranged.len() == source.len(),
        forall|position: int| 0 <= position < order.len() ==> 0 <= #[trigger] order[position] < source.len(),
        forall|first: int, second: int|
            0 <= first < second < order.len() ==> #[trigger] order[first] != #[trigger] order[second],
        forall|position: int| 0 <= position < order.len() ==> arranged[position] == source[#[trigger] order[position]],
    ensures
        sum_of(arranged) == sum_of(source),
    decreases source.len(),
{
    if source.len() > 0 {
        let last = order.len() - 1;
        let removed = order[last];
        let shorter_source = source.remove(removed);
        let shorter_order = Seq::new(
            last as nat,
            |position: int| if order[position] < removed { order[position] } else { order[position] - 1 },
        );
        let shorter_arranged = arranged.drop_last();
        assert forall|position: int| 0 <= position < shorter_order.len() implies 0 <= #[trigger] shorter_order[position] < shorter_source.len() by {
            assert(order[position] != order[last]);
        }
        assert forall|first: int, second: int| 0 <= first < second < shorter_order.len() implies #[trigger] shorter_order[first] != #[trigger] shorter_order[second] by {
            assert(order[first] != order[second]);
            assert(order[first] != order[last]);
            assert(order[second] != order[last]);
        }
        assert forall|position: int| 0 <= position < shorter_order.len() implies shorter_arranged[position] == shorter_source[#[trigger] shorter_order[position]] by {
            assert(order[position] != order[last]);
            assert(arranged[position] == source[order[position]]);
        }
        lemma_sum_rearranged(shorter_source, shorter_arranged, shorter_order);
        lemma_sum_remove(source, removed);
        assert(arranged.last() == source[removed]);
    }
}

} // verus!
