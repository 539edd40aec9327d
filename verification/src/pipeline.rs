use vstd::prelude::*;
use crate::model::FaceIdentity;

verus! {

/// A profile takes part in matching when it is active and has samples to
/// build its centroid from.
pub open spec fn is_scoreable<E>(identity: FaceIdentity<E>) -> bool {
    identity.is_active && identity.samples@.len() > 0
}

/// Positions of the scoreable profiles of `identities`, in order.
pub open spec fn scoreable_positions<E>(identities: Seq<FaceIdentity<E>>) -> Seq<usize>
    decreases identities.len(),
{
    if identities.len() == 0 {
        Seq::empty()
    } else {
        let rest = scoreable_positions(identities.drop_last());
        if is_scoreable(identities.last()) {
            rest.push((identities.len() - 1) as usize)
        } else {
            rest
        }
    }
}

/// Position `x` occurs in `order`.
pub open spec fn lists(order: Seq<usize>, x: int) -> bool {
    exists|i: int| 0 <= i < order.len() && order[i] as int == x
}

/// `order` ranks the similarity keys `keys` from highest to lowest: it lists
/// every position of `keys` exactly once, in descending key order, and
/// equal keys keep their original order.
pub open spec fn is_ranking(keys: Seq<i64>, order: Seq<usize>) -> bool {
    &&& order.len() == keys.len()
    &&& forall|i: int| 0 <= i < order.len() ==> #[trigger] order[i] < keys.len()
    &&& forall|i: int, j: int| 0 <= i < j < order.len() ==> order[i] != order[j]
    &&& forall|x: int| 0 <= x < keys.len() ==> #[trigger] lists(order, x)
    &&& forall|i: int, j: int|
        0 <= i < j < order.len() ==> keys[#[trigger] order[i] as int] >= keys[#[trigger] order[j] as int]
    &&& forall|i: int, j: int|
        0 <= i < j < order.len() && keys[#[trigger] order[i] as int] == keys[#[trigger] order[j] as int]
            ==> order[i] < order[j]
}

/// Ranks of the first `k` positions of `keys` (the insertion sort's invariant).
spec fn ranks_prefix(keys: Seq<i64>, order: Seq<usize>, k: int) -> bool {
    &&& 0 <= k <= keys.len()
    &&& order.len() == k
    &&& forall|i: int| 0 <= i < order.len() ==> #[trigger] order[i] < k
    &&& forall|i: int, j: int| 0 <= i < j < order.len() ==> order[i] != order[j]
    &&& forall|x: int| 0 <= x < k ==> #[trigger] lists(order, x)
    &&& forall|i: int, j: int|
        0 <= i < j < order.len() ==> keys[#[trigger] order[i] as int] >= keys[#[trigger] order[j] as int]
    &&& forall|i: int, j: int|
        0 <= i < j < order.len() && keys[#[trigger] order[i] as int] == keys[#[trigger] order[j] as int]
            ==> order[i] < order[j]
}

/// Positions of the profiles that are scored against a candidate: the
/// active ones with at least one sample, in their stored order.
pub fn scoring_candidates<E>(identities: &[FaceIdentity<E>]) -> (positions: Vec<usize>)
    ensures
        positions@ == scoreable_positions(identities@),
        forall|k: int|
            0 <= k < identities@.len() ==> (#[trigger] lists(positions@, k) <==> (
            identities@[k].is_active && identities@[k].samples@.len() > 0)),
        forall|i: int| 0 <= i < positions@.len() ==> #[trigger] positions@[i] < identities@.len(),
        forall|i: int, j: int|
            0 <= i < j < positions@.len() ==> #[trigger] positions@[i] < #[trigger] positions@[j],
{
    let mut positions: Vec<usize> = Vec::new();
    let n: usize = identities.len();
    for k in 0..n
        invariant
            n == identities@.len(),
            positions@ == scoreable_positions(identities@.take(k as int)),
    {
        proof {
            assert(identities@.take(k + 1).drop_last() == identities@.take(k as int));
            assert(identities@.take(k + 1).last() == identities@[k as int]);
        }
        let identity = &identities[k];
        if identity.is_active && identity.samples.len() > 0 {
            positions.push(k);
        }
    }
    proof {
        assert(identities@.take(n as int) == identities@);
        lemma_scored_exactly_when_active_with_samples(identities@);
    }
    positions
}

/// A profile is scored exactly when it is active and has at least one
/// sample, whatever its number of samples; the scored positions are valid
/// and listed once each, in increasing order.
pub proof fn lemma_scored_exactly_when_active_with_samples<E>(identities: Seq<FaceIdentity<E>>)
    requires
        identities.len() <= usize::MAX,
    ensures
        forall|k: int|
            0 <= k < identities.len() ==> (#[trigger] lists(scoreable_positions(identities), k) <==> (
            identities[k].is_active && identities[k].samples@.len() > 0)),
        forall|i: int|
            0 <= i < scoreable_positions(identities).len() ==> #[trigger] scoreable_positions(
                identities,
            )[i] < identities.len(),
        forall|i: int, j: int|
            0 <= i < j < scoreable_positions(identities).len() ==> #[trigger] scoreable_positions(
                identities,
            )[i] < #[trigger] scoreable_positions(identities)[j],
    decreases identities.len(),
{
    if identities.len() > 0 {
        let rest_ids = identities.drop_last();
        let rest = scoreable_positions(rest_ids);
        let all = scoreable_positions(identities);
        let last = (identities.len() - 1) as int;
        lemma_scored_exactly_when_active_with_samples(rest_ids);
        assert forall|k: int|
            0 <= k < identities.len() implies (#[trigger] lists(all, k) <==> (
            identities[k].is_active && identities[k].samples@.len() > 0)) by {
            if k < last {
                assert(identities[k] == rest_ids[k]);
                if lists(rest, k) {
                    let i: int = choose|i: int| 0 <= i < rest.len() && rest[i] as int == k;
                    assert(all[i] == rest[i]);
                }
                if lists(all, k) {
                    let i: int = choose|i: int| 0 <= i < all.len() && all[i] as int == k;
                    if i < rest.len() {
                        assert(all[i] == rest[i]);
                    }
                }
            } else {
                if identities[k].is_active && identities[k].samples@.len() > 0 {
                    assert(all[rest.len() as int] as int == k);
                }
                if lists(all, k) {
                    let i: int = choose|i: int| 0 <= i < all.len() && all[i] as int == k;
                    if i < rest.len() {
                        assert(all[i] == rest[i]);
                    }
                }
            }
        }
    }
}

/// Sorts the positions of `keys` by descending key, keeping equal keys in
/// position order (a stable sort, as the similarity sort of the scores).
pub fn rank_descending(keys: &Vec<i64>) -> (order: Vec<usize>)
    ensures
        is_ranking(keys@, order@),
{
    let n: usize = keys.len();
    let mut order: Vec<usize> = Vec::new();
    for k in 0..n
        invariant
            n == keys@.len(),
            ranks_prefix(keys@, order@, k as int),
    {
        let key: i64 = keys[k];
        let mut p: usize = 0;
        while p < order.len() && keys[order[p]] >= key
            invariant
                n == keys@.len(),
                k < n,
                key == keys@[k as int],
                ranks_prefix(keys@, order@, k as int),
                p <= order@.len(),
                forall|q: int| 0 <= q < p ==> keys@[#[trigger] order@[q] as int] >= key,
            decreases order@.len() - p,
        {
            p = p + 1;
        }
        let ghost old_order = order@;
        proof {
            assert forall|q: int| p <= q < old_order.len() implies keys@[#[trigger] old_order[q] as int]
                < key by {
                assert(keys@[old_order[p as int] as int] < key);
                if q > p {
                    assert(keys@[old_order[p as int] as int] >= keys@[old_order[q] as int]);
                }
            }
        }
        order.insert(p, k);
        proof {
            let o = order@;
            assert(o == old_order.insert(p as int, k));
            assert forall|i: int| 0 <= i < o.len() implies #[trigger] o[i] < k + 1 by {
                if i < p {
                    assert(o[i] == old_order[i]);
                } else if i > p {
                    assert(o[i] == old_order[i - 1]);
                }
            }
            assert forall|i: int, j: int| 0 <= i < j < o.len() implies o[i] != o[j] by {
                if i < p {
                    assert(o[i] == old_order[i]);
                } else if i > p {
                    assert(o[i] == old_order[i - 1]);
                }
                if j < p {
                    assert(o[j] == old_order[j]);
                } else if j > p {
                    assert(o[j] == old_order[j - 1]);
                }
            }
            assert forall|x: int| 0 <= x < k + 1 implies #[trigger] lists(o, x) by {
                if x == k {
                    assert(o[p as int] == k);
                } else {
                    assert(lists(old_order, x));
                    let i: int = choose|i: int| 0 <= i < old_order.len() && old_order[i] as int == x;
                    if i < p {
                        assert(o[i] == x);
                    } else {
                        assert(o[i + 1] == x);
                    }
                }
            }
            assert forall|i: int, j: int| 0 <= i < j < o.len() implies keys@[#[trigger] o[i] as int]
                >= keys@[#[trigger] o[j] as int] by {
                if i < p {
                    assert(o[i] == old_order[i]);
                } else if i > p {
                    assert(o[i] == old_order[i - 1]);
                }
                if j < p {
                    assert(o[j] == old_order[j]);
                } else if j > p {
                    assert(o[j] == old_order[j - 1]);
                }
            }
            assert forall|i: int, j: int|
                0 <= i < j < o.len() && keys@[#[trigger] o[i] as int] == keys@[#[trigger] o[j] as int]
                    implies o[i] < o[j] by {
                if i < p {
                    assert(o[i] == old_order[i]);
                } else if i > p {
                    assert(o[i] == old_order[i - 1]);
                }
                if j < p {
                    assert(o[j] == old_order[j]);
                } else if j > p {
                    assert(o[j] == old_order[j - 1]);
                }
            }
        }
    }
    order
}

/// The head of a ranking carries the highest key, and no earlier position
/// carries the same key.
pub proof fn lemma_ranking_head_is_best(keys: Seq<i64>, order: Seq<usize>)
    requires
        is_ranking(keys, order),
        keys.len() > 0,
    ensures
        order[0] < keys.len(),
        forall|j: int| 0 <= j < keys.len() ==> #[trigger] keys[j] <= keys[order[0] as int],
        forall|j: int| 0 <= j < order[0] ==> #[trigger] keys[j] < keys[order[0] as int],
{
    assert(order[0] < keys.len());
    assert forall|j: int| 0 <= j < keys.len() implies #[trigger] keys[j] <= keys[order[0] as int] by {
        assert(lists(order, j));
        let q: int = choose|q: int| 0 <= q < order.len() && order[q] as int == j;
        if q > 0 {
            assert(keys[order[0] as int] >= keys[order[q] as int]);
        }
    }
    assert forall|j: int| 0 <= j < order[0] implies #[trigger] keys[j] < keys[order[0] as int] by {
        assert(lists(order, j));
        let q: int = choose|q: int| 0 <= q < order.len() && order[q] as int == j;
        if q > 0 {
            assert(keys[order[0] as int] >= keys[order[q] as int]);
        }
    }
}

/// The best match under `threshold`: the head of the ranking when its key
/// reaches the threshold, else none.
pub fn top_at_least(keys: &Vec<i64>, order: &Vec<usize>, threshold: i64) -> (best: Option<usize>)
    requires
        is_ranking(keys@, order@),
    ensures
        best == (if order@.len() > 0 && keys@[order@[0] as int] >= threshold {
            Some(order@[0])
        } else {
            None::<usize>
        }),
        best matches Some(i) ==> {
            &&& i < keys@.len()
            &&& keys@[i as int] >= threshold
            &&& forall|j: int| 0 <= j < keys@.len() ==> #[trigger] keys@[j] <= keys@[i as int]
            &&& forall|j: int| 0 <= j < i ==> #[trigger] keys@[j] < keys@[i as int]
        },
        best is None ==> forall|j: int| 0 <= j < keys@.len() ==> #[trigger] keys@[j] < threshold,
{
    if order.len() == 0 {
        return None;
    }
    proof {
        lemma_ranking_head_is_best(keys@, order@);
    }
    let head: usize = order[0];
    if keys[head] >= threshold {
        Some(head)
    } else {
        None
    }
}

} // verus!
