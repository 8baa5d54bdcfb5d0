//! What it means for one sequence of ids to keep the order of another.

use vstd::prelude::*;

verus! {

/// Whether `positions` places `part` inside `whole`: one position of `whole`
/// per element of `part`, strictly increasing, each holding that element.
pub open spec fn placed_at(part: Seq<u64>, whole: Seq<u64>, positions: Seq<int>) -> bool {
    &&& positions.len() == part.len()
    &&& forall|k: int| 0 <= k < positions.len() ==> 0 <= #[trigger] positions[k] < whole.len()
    &&& forall|k: int| 0 <= k < positions.len() ==> whole[#[trigger] positions[k]] == part[k]
    &&& forall|j: int, k: int|
        0 <= j < k < positions.len() ==> #[trigger] positions[j] < #[trigger] positions[k]
}

/// Whether `part` is `whole` with some elements left out and nothing moved.
pub open spec fn keeps_order(part: Seq<u64>, whole: Seq<u64>) -> bool {
    exists|positions: Seq<int>| placed_at(part, whole, positions)
}

/// Filtering a sequence leaves elements out and moves nothing.
pub proof fn lemma_filter_keeps_order(whole: Seq<u64>, pred: spec_fn(u64) -> bool)
    ensures
        keeps_order(whole.filter(pred), whole),
    decreases whole.len(),
{
    if whole.len() == 0 {
        assert(placed_at(whole.filter(pred), whole, Seq::<int>::empty()));
    } else {
        let rest = whole.drop_last();
        lemma_filter_keeps_order(rest, pred);
        let inner = choose|positions: Seq<int>| placed_at(rest.filter(pred), rest, positions);
        let part = rest.filter(pred);
        assert(placed_at(part, rest, inner));
        assert(whole =~= rest.push(whole.last()));
        rest.lemma_filter_push(whole.last(), pred);
        if pred(whole.last()) {
            let positions = inner.push(whole.len() - 1);
            assert(whole.filter(pred) == part.push(whole.last()));
            assert(positions.len() == whole.filter(pred).len());
            assert(placed_at(whole.filter(pred), whole, positions)) by {
                assert forall|k: int| 0 <= k < positions.len() implies whole[#[trigger] positions[k]]
                    == whole.filter(pred)[k] by {
                    if k < inner.len() {
                        assert(positions[k] == inner[k]);
                        assert(rest[inner[k]] == part[k]);
                        assert(rest[inner[k]] == whole[inner[k]]);
                        assert(whole.filter(pred)[k] == part[k]);
                    } else {
                        assert(positions[k] == whole.len() - 1);
                        assert(whole.filter(pred)[k] == whole.last());
                    }
                }
                assert forall|k: int| 0 <= k < positions.len() implies 0 <= #[trigger] positions[k]
                    < whole.len() by {
                    if k < inner.len() {
                        assert(positions[k] == inner[k]);
                    }
                }
                assert forall|j: int, k: int| 0 <= j < k < positions.len() implies
                    #[trigger] positions[j] < #[trigger] positions[k] by {
                    assert(positions[j] == inner[j]);
                    assert(inner[j] < rest.len());
                    if k < inner.len() {
                        assert(positions[k] == inner[k]);
                    }
                }
            }
        } else {
            assert(whole.filter(pred) == part);
            assert(placed_at(whole.filter(pred), whole, inner)) by {
                assert forall|k: int| 0 <= k < inner.len() implies whole[#[trigger] inner[k]]
                    == whole.filter(pred)[k] by {
                    assert(rest[inner[k]] == part[k]);
                    assert(rest[inner[k]] == whole[inner[k]]);
                }
            }
        }
    }
}

} // verus!
