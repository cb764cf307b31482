//! Stable ranking, highest first.
use vstd::prelude::*;

verus! {

broadcast use vstd::seq_lib::group_seq_properties;

/// The views of a sequence of values.
pub open spec fn views<T: View>(items: Seq<T>) -> Seq<T::V> {
    Seq::new(items.len(), |i: int| items[i]@)
}

/// Items that are listed by descending rank.
pub trait Ranked: View + Sized {
    /// Where an item ranks.
    spec fn rank(item: Self::V) -> int;

    /// Whether `self` ranks below `other`.
    fn ranks_below(&self, other: &Self) -> (below: bool)
        ensures
            below == (Self::rank(self@) < Self::rank(other@)),
    ;
}

/// The rank of the items of type `T`.
pub open spec fn rank_of<T: Ranked>() -> spec_fn(T::V) -> int {
    |item: T::V| T::rank(item)
}

/// The test for one rank.
pub open spec fn has_rank<V>(key: spec_fn(V) -> int, rank: int) -> spec_fn(V) -> bool {
    |item: V| key(item) == rank
}

/// The items of one rank, in the order in which they stand.
pub open spec fn of_rank<V>(items: Seq<V>, key: spec_fn(V) -> int, rank: int) -> Seq<V> {
    items.filter(has_rank(key, rank))
}

/// No item stands ahead of one that ranks higher.
pub open spec fn descending<V>(items: Seq<V>, key: spec_fn(V) -> int) -> bool {
    forall|i: int, j: int|
        0 <= i <= j < items.len() ==> key(#[trigger] items[i]) >= key(#[trigger] items[j])
}

/// `after` holds the items of `before` by descending rank, those of equal rank in their old
/// order.
pub open spec fn stably_ranked<V>(before: Seq<V>, after: Seq<V>, key: spec_fn(V) -> int) -> bool {
    &&& descending(after, key)
    &&& after.to_multiset() == before.to_multiset()
    &&& forall|rank: int| #[trigger] of_rank(after, key, rank) == of_rank(before, key, rank)
}

/// Dropping the first item drops it from the items of its rank, and from no others.
proof fn of_rank_drop_first<V>(items: Seq<V>, rank: int, key: spec_fn(V) -> int)
    requires
        items.len() > 0,
    ensures
        of_rank(items, key, rank) == (if key(items.first()) == rank {
            seq![items.first()] + of_rank(items.drop_first(), key, rank)
        } else {
            of_rank(items.drop_first(), key, rank)
        }),
{
    let pred = has_rank(key, rank);
    assert(items =~= seq![items.first()] + items.drop_first());
    items.drop_first().lemma_filter_prepend(items.first(), pred);
    assert(Seq::<V>::empty() + of_rank(items.drop_first(), key, rank) =~= of_rank(items.drop_first(), key, rank));
}

/// An item of a rank is among the items of that rank.
proof fn of_rank_inhabited<V>(items: Seq<V>, i: int, key: spec_fn(V) -> int)
    requires
        0 <= i < items.len(),
    ensures
        of_rank(items, key, key(items[i])).len() > 0,
{
    let rank = key(items[i]);
    items.lemma_filter_contains(has_rank(key, rank), i);
    assert(of_rank(items, key, rank).contains(items[i]));
}

/// Where a rank has items, the first item ranks at least as high.
proof fn first_ranks_highest<V>(items: Seq<V>, rank: int, key: spec_fn(V) -> int)
    requires
        descending(items, key),
        of_rank(items, key, rank).len() > 0,
    ensures
        items.len() > 0,
        key(items.first()) >= rank,
{
    let pred = has_rank(key, rank);
    let found = of_rank(items, key, rank);
    items.lemma_filter_pred(pred, 0);
    assert(found.contains(found[0]));
    items.lemma_filter_contains_rev(pred, found[0]);
    let k = choose|k: int| 0 <= k < items.len() && items[k] == found[0];
    assert(key(items[0]) >= key(items[k]));
}

/// Two lists by descending rank that agree on the items of every rank are the same list.
proof fn descending_lists_agree<V>(left: Seq<V>, right: Seq<V>, key: spec_fn(V) -> int)
    requires
        descending(left, key),
        descending(right, key),
        forall|rank: int| #[trigger] of_rank(left, key, rank) == of_rank(right, key, rank),
    ensures
        left == right,
    decreases left.len(),
{
    if left.len() == 0 {
        if right.len() > 0 {
            of_rank_inhabited(right, 0, key);
            assert(of_rank(left, key, key(right[0])).len() > 0);
        }
        assert(left =~= right);
    } else {
        of_rank_inhabited(left, 0, key);
        assert(of_rank(right, key, key(left[0])).len() > 0);
        first_ranks_highest(right, key(left[0]), key);
        of_rank_inhabited(right, 0, key);
        assert(of_rank(left, key, key(right[0])).len() > 0);
        first_ranks_highest(left, key(right[0]), key);
        let top = key(left[0]);
        assert(of_rank(left, key, top) == of_rank(right, key, top));
        of_rank_drop_first(left, top, key);
        of_rank_drop_first(right, top, key);
        assert(of_rank(left, key, top)[0] == left[0]);
        assert(of_rank(right, key, top)[0] == right[0]);
        assert forall|rank: int| #[trigger]
            of_rank(left.drop_first(), key, rank) == of_rank(right.drop_first(), key, rank) by {
            of_rank_drop_first(left, rank, key);
            of_rank_drop_first(right, rank, key);
            assert(of_rank(left, key, rank) == of_rank(right, key, rank));
            if rank == top {
                assert(of_rank(left, key, rank).drop_first() =~= of_rank(left.drop_first(), key, rank));
                assert(of_rank(right, key, rank).drop_first() =~= of_rank(right.drop_first(), key, rank));
            }
        }
        assert(descending(left.drop_first(), key));
        assert(descending(right.drop_first(), key));
        descending_lists_agree(left.drop_first(), right.drop_first(), key);
        assert(left =~= seq![left[0]] + left.drop_first());
        assert(right =~= seq![right[0]] + right.drop_first());
    }
}

/// A list has one stable ranking.
pub proof fn stable_ranking_is_unique<V>(before: Seq<V>, left: Seq<V>, right: Seq<V>, key: spec_fn(V) -> int)
    requires
        stably_ranked(before, left, key),
        stably_ranked(before, right, key),
    ensures
        left == right,
{
    assert forall|rank: int| #[trigger] of_rank(left, key, rank) == of_rank(right, key, rank) by {
        assert(of_rank(left, key, rank) == of_rank(before, key, rank));
        assert(of_rank(right, key, rank) == of_rank(before, key, rank));
    }
    descending_lists_agree(left, right, key);
}

/// A list that is ranked already is left as it is.
pub proof fn ranking_a_ranked_list_changes_nothing<V>(before: Seq<V>, after: Seq<V>, key: spec_fn(V) -> int)
    requires
        descending(before, key),
        stably_ranked(before, after, key),
    ensures
        after == before,
{
    stable_ranking_is_unique(before, after, before, key);
}

/// Putting an item behind the last one that ranks at least as high keeps a ranking stable.
proof fn insertion_ranks<V>(before: Seq<V>, ranked: Seq<V>, item: V, at: int, key: spec_fn(V) -> int)
    requires
        stably_ranked(before, ranked, key),
        0 <= at <= ranked.len(),
        forall|i: int| 0 <= i < at ==> key(#[trigger] ranked[i]) >= key(item),
        forall|i: int| at <= i < ranked.len() ==> key(#[trigger] ranked[i]) < key(item),
    ensures
        stably_ranked(before.push(item), ranked.insert(at, item), key),
{
    let after = ranked.insert(at, item);
    let head = ranked.take(at);
    let tail = ranked.skip(at);
    assert(after =~= head.push(item) + tail);
    assert(ranked =~= head + tail);
    assert(head.push(item) =~= head + seq![item]);
    assert forall|rank: int| #[trigger]
        of_rank(after, key, rank) == of_rank(before.push(item), key, rank) by {
        let pred = has_rank(key, rank);
        Seq::filter_distributes_over_add(head + seq![item], tail, pred);
        Seq::filter_distributes_over_add(head, seq![item], pred);
        Seq::filter_distributes_over_add(head, tail, pred);
        Seq::filter_distributes_over_add(before, seq![item], pred);
        assert(before.push(item) =~= before + seq![item]);
        assert(of_rank(ranked, key, rank) == of_rank(before, key, rank));
        if rank == key(item) {
            assert(tail.all(|t: V| !pred(t)));
            tail.lemma_all_neg_filter_empty(pred);
            assert(tail.filter(pred) =~= Seq::empty());
            assert(of_rank(after, key, rank) =~= of_rank(before.push(item), key, rank));
        } else {
            assert(seq![item].all(|t: V| !pred(t)));
            seq![item].lemma_all_neg_filter_empty(pred);
            assert(of_rank(after, key, rank) =~= of_rank(before.push(item), key, rank));
        }
    }
    assert(after.to_multiset() == before.push(item).to_multiset()) by {
        after.to_multiset_ensures();
        before.to_multiset_ensures();
        assert(after.remove(at) =~= ranked);
        assert(after[at] == item);
        assert(after.to_multiset().remove(item) =~= ranked.to_multiset());
        assert(after.contains(item));
        assert(after.to_multiset().count(item) > 0);
        assert(after.to_multiset() =~= ranked.to_multiset().insert(item));
    }
}

/// How many items at the front of a ranked list rank at least as high as `rank`.
proof fn place_in<V>(ranked: Seq<V>, rank: int, key: spec_fn(V) -> int) -> (at: int)
    requires
        descending(ranked, key),
    ensures
        0 <= at <= ranked.len(),
        forall|i: int| 0 <= i < at ==> key(#[trigger] ranked[i]) >= rank,
        forall|i: int| at <= i < ranked.len() ==> key(#[trigger] ranked[i]) < rank,
    decreases ranked.len(),
{
    if ranked.len() == 0 {
        0
    } else if key(ranked.last()) >= rank {
        assert forall|i: int| 0 <= i < ranked.len() implies key(#[trigger] ranked[i]) >= rank by {
            assert(key(ranked[i]) >= key(ranked[ranked.len() - 1]));
        }
        ranked.len() as int
    } else {
        let rest = ranked.drop_last();
        assert(descending(rest, key));
        let at = place_in(rest, rank, key);
        assert forall|i: int| 0 <= i < at implies key(#[trigger] ranked[i]) >= rank by {
            assert(rest[i] == ranked[i]);
        }
        assert forall|i: int| at <= i < ranked.len() implies key(#[trigger] ranked[i]) < rank by {
            if i < rest.len() {
                assert(rest[i] == ranked[i]);
            }
        }
        at
    }
}

/// `order` says where each item of a ranked list stood before: every item is there once, a higher
/// rank stands ahead of a lower one, and of two equal ranks the one that stood ahead stays ahead.
pub open spec fn orders<V>(before: Seq<V>, order: Seq<int>, key: spec_fn(V) -> int) -> bool {
    &&& order.len() == before.len()
    &&& forall|p: int| 0 <= p < order.len() ==> 0 <= #[trigger] order[p] < before.len()
    &&& forall|p: int, q: int|
        0 <= p < q < order.len() ==> {
            ||| key(before[#[trigger] order[p]]) > key(before[#[trigger] order[q]])
            ||| key(before[order[p]]) == key(before[order[q]]) && order[p] < order[q]
        }
    &&& forall|k: int| 0 <= k < before.len() ==> #[trigger] order.contains(k)
}

/// A list can be ranked by saying where each item stood before.
proof fn ranking_order<V>(before: Seq<V>, key: spec_fn(V) -> int) -> (r: (Seq<V>, Seq<int>))
    ensures
        stably_ranked(before, r.0, key),
        orders(before, r.1, key),
        r.0.len() == r.1.len(),
        forall|p: int| 0 <= p < r.1.len() ==> r.0[p] == before[#[trigger] r.1[p]],
    decreases before.len(),
{
    if before.len() == 0 {
        (before, seq![])
    } else {
        let fewer = before.drop_last();
        let item = before.last();
        let n = before.len() - 1;
        let (ranked, order) = ranking_order(fewer, key);
        let at = place_in(ranked, key(item), key);
        insertion_ranks(fewer, ranked, item, at, key);
        assert(fewer.push(item) =~= before);
        let all = order.insert(at, n);
        let after = ranked.insert(at, item);
        assert forall|p: int| 0 <= p < all.len() implies 0 <= #[trigger] all[p] < before.len()
            && after[p] == before[all[p]] && (p < at ==> all[p] == order[p]) && (p > at ==> all[p]
            == order[p - 1]) by {
            if p < at {
                assert(fewer[order[p]] == before[order[p]]);
            } else if p > at {
                assert(fewer[order[p - 1]] == before[order[p - 1]]);
            }
        }
        assert forall|p: int, q: int| 0 <= p < q < all.len() implies {
            ||| key(before[#[trigger] all[p]]) > key(before[#[trigger] all[q]])
            ||| key(before[all[p]]) == key(before[all[q]]) && all[p] < all[q]
        } by {
            let p0 = if p < at {
                p
            } else {
                p - 1
            };
            let q0 = if q < at {
                q
            } else {
                q - 1
            };
            if p == at {
                assert(key(ranked[q0]) < key(item));
                assert(0 <= order[q0] < fewer.len());
            } else if q == at {
                assert(key(ranked[p0]) >= key(item));
                assert(0 <= order[p0] < fewer.len());
            } else {
                assert(0 <= order[p0] < fewer.len());
                assert(0 <= order[q0] < fewer.len());
            }
        }
        assert forall|k: int| 0 <= k < before.len() implies #[trigger] all.contains(k) by {
            if k == n {
                assert(all[at] == n);
            } else {
                assert(order.contains(k));
                let p = choose|p: int| 0 <= p < order.len() && order[p] == k;
                if p < at {
                    assert(all[p] == k);
                } else {
                    assert(all[p + 1] == k);
                }
            }
        }
        (after, all)
    }
}

/// A ranked list holds the items from before, each of them once: a higher rank stands ahead of a
/// lower one, and equal ranks keep their order.
pub proof fn rankings_order_the_items<V>(
    before: Seq<V>,
    after: Seq<V>,
    key: spec_fn(V) -> int,
) -> (order: Seq<int>)
    requires
        stably_ranked(before, after, key),
    ensures
        after.len() == before.len(),
        order.len() == before.len(),
        forall|p: int|
            0 <= p < order.len() ==> 0 <= #[trigger] order[p] < before.len() && after[p]
                == before[order[p]],
        forall|p: int, q: int|
            0 <= p < q < order.len() ==> {
                ||| key(before[#[trigger] order[p]]) > key(before[#[trigger] order[q]])
                ||| key(before[order[p]]) == key(before[order[q]]) && order[p] < order[q]
            },
        forall|k: int| 0 <= k < before.len() ==> #[trigger] order.contains(k),
{
    let (ranked, order) = ranking_order(before, key);
    stable_ranking_is_unique(before, after, ranked, key);
    order
}

/// Where the values that a filter keeps stood before.
pub(crate) proof fn kept_positions<A, B>(items: Seq<A>, pick: spec_fn(A) -> Option<B>) -> (at: Seq<
    int,
>)
    ensures
        at.len() == items.filter_map(pick).len(),
        forall|i: int|
            0 <= i < at.len() ==> 0 <= #[trigger] at[i] < items.len() && pick(items[at[i]]) == Some(
                items.filter_map(pick)[i],
            ),
        forall|i: int, j: int| 0 <= i < j < at.len() ==> #[trigger] at[i] < #[trigger] at[j],
        forall|k: int|
            0 <= k < items.len() && pick(items[k]) is Some ==> #[trigger] at.contains(k),
    decreases items.len(),
{
    if items.len() == 0 {
        reveal_with_fuel(Seq::filter_map, 1);
        seq![]
    } else {
        let n = items.len() - 1;
        let fewer = items.drop_last();
        let at = kept_positions(fewer, pick);
        items.lemma_filter_map_take_succ(pick, n);
        assert(items.take(n) =~= fewer);
        assert(items.take(n + 1) =~= items);
        let kept = items.filter_map(pick);
        let before = fewer.filter_map(pick);
        if pick(items[n]) is Some {
            let all = at.push(n);
            assert(kept =~= before.push(pick(items[n])->0));
            assert forall|i: int| 0 <= i < all.len() implies 0 <= #[trigger] all[i] < items.len()
                && pick(items[all[i]]) == Some(kept[i]) by {
                if i < at.len() {
                    assert(all[i] == at[i]);
                    assert(fewer[at[i]] == items[at[i]]);
                }
            }
            assert forall|i: int, j: int| 0 <= i < j < all.len() implies #[trigger] all[i]
                < #[trigger] all[j] by {
                assert(all[i] == at[i]);
                if j < at.len() {
                    assert(all[j] == at[j]);
                }
            }
            assert forall|k: int|
                0 <= k < items.len() && pick(items[k]) is Some implies #[trigger] all.contains(
                k,
            ) by {
                if k == n {
                    assert(all[at.len() as int] == n);
                } else {
                    assert(fewer[k] == items[k]);
                    assert(at.contains(k));
                    let i = choose|i: int| 0 <= i < at.len() && at[i] == k;
                    assert(all[i] == k);
                }
            }
            all
        } else {
            assert(kept =~= before);
            assert forall|i: int| 0 <= i < at.len() implies 0 <= #[trigger] at[i] < items.len()
                && pick(items[at[i]]) == Some(kept[i]) by {
                assert(fewer[at[i]] == items[at[i]]);
            }
            assert forall|k: int|
                0 <= k < items.len() && pick(items[k]) is Some implies #[trigger] at.contains(
                k,
            ) by {
                assert(k != n);
                assert(fewer[k] == items[k]);
            }
            at
        }
    }
}

/// The views of a sequence are those of its values, in their order.
pub proof fn views_follow_the_items<T: View>(items: Seq<T>)
    ensures
        views(items).len() == items.len(),
        forall|i: int| 0 <= i < items.len() ==> #[trigger] views(items)[i] == items[i]@,
{
}

/// How many items at the front of `ranked` rank at least as high as `item`.
fn place_of<T: Ranked>(ranked: &Vec<T>, item: &T) -> (at: usize)
    requires
        descending(views(ranked@), rank_of::<T>()),
    ensures
        at <= ranked.len(),
        forall|i: int| 0 <= i < at ==> T::rank(#[trigger] views(ranked@)[i]) >= T::rank(item@),
        forall|i: int|
            at <= i < ranked.len() ==> T::rank(#[trigger] views(ranked@)[i]) < T::rank(item@),
{
    let mut low: usize = 0;
    let mut high: usize = ranked.len();
    let ghost seen = views(ranked@);
    let ghost key = rank_of::<T>();
    while low < high
        invariant
            low <= high <= ranked.len(),
            seen == views(ranked@),
            key == rank_of::<T>(),
            descending(seen, key),
            forall|i: int| 0 <= i < low ==> T::rank(#[trigger] seen[i]) >= T::rank(item@),
            forall|i: int|
                high <= i < ranked.len() ==> T::rank(#[trigger] seen[i]) < T::rank(item@),
        decreases high - low,
    {
        let middle: usize = low + (high - low) / 2;
        assert(seen[middle as int] == ranked@[middle as int]@);
        assert forall|i: int| 0 <= i <= middle implies T::rank(#[trigger] seen[i]) >= T::rank(
            seen[middle as int],
        ) by {
            assert(key(seen[i]) >= key(seen[middle as int]));
        }
        assert forall|i: int| middle <= i < ranked.len() implies T::rank(#[trigger] seen[i])
            <= T::rank(seen[middle as int]) by {
            assert(key(seen[middle as int]) >= key(seen[i]));
        }
        if ranked[middle].ranks_below(item) {
            high = middle;
        } else {
            low = middle + 1;
        }
    }
    low
}

/// The items by descending rank, those of equal rank in the order in which they came.
pub fn rank_items<T: Ranked>(items: Vec<T>) -> (ranked: Vec<T>)
    ensures
        stably_ranked(views(items@), views(ranked@), rank_of::<T>()),
{
    let ghost all = items@;
    let ghost key = rank_of::<T>();
    let mut ranked: Vec<T> = Vec::new();
    assert(views(all.take(0)) =~= views(ranked@));
    for item in iter: items
        invariant
            iter.seq() == all,
            key == rank_of::<T>(),
            stably_ranked(views(all.take(iter.index() as int)), views(ranked@), key),
    {
        let at: usize = place_of(&ranked, &item);
        let ghost before = ranked@;
        ranked.insert(at, item);
        proof {
            let done = all.take(iter.index() as int);
            insertion_ranks(views(done), views(before), item@, at as int, key);
            assert(views(all.take(iter.index() + 1)) =~= views(done).push(item@));
            assert(views(ranked@) =~= views(before).insert(at as int, item@));
        }
    }
    assert(all.take(all.len() as int) =~= all);
    ranked
}

} // verus!
