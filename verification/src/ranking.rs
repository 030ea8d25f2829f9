//! Ordering of opportunities: by profit after fees, the most profitable
//! first, and among equally profitable ones the one met first.

use vstd::prelude::*;
use crate::arbitrage::{ArbitrageOpportunity, OpportunityView, opportunity_views};

verus! {

/// Where `x` goes in a ranked list when it was met before every member of the
/// list: in front of the first member that is not more profitable than `x`.
pub open spec fn rank_position(ranked_list: Seq<OpportunityView>, x: OpportunityView) -> int
    decreases ranked_list.len(),
{
    if ranked_list.len() == 0 {
        0
    } else if ranked_list[0].profit_percent_after_fees.value() <= x.profit_percent_after_fees.value() {
        0
    } else {
        1 + rank_position(ranked_list.drop_first(), x)
    }
}

/// The list ordered by profit after fees, descending; members of equal profit
/// keep the order they had.
pub open spec fn ranked(list: Seq<OpportunityView>) -> Seq<OpportunityView>
    decreases list.len(),
{
    if list.len() == 0 {
        Seq::empty()
    } else {
        let rest = ranked(list.drop_first());
        rest.insert(rank_position(rest, list[0]), list[0])
    }
}

/// Whether each member is at least as profitable as every later one.
pub open spec fn descending(list: Seq<OpportunityView>) -> bool {
    forall|i: int, j: int|
        0 <= i <= j < list.len() ==> (#[trigger] list[i]).profit_percent_after_fees.value() >= (
        #[trigger] list[j]).profit_percent_after_fees.value()
}

/// The position of a new member lies within the list; everything in front of
/// it is more profitable, and what stands at it is not.
pub proof fn lemma_rank_position_bounds(ranked_list: Seq<OpportunityView>, x: OpportunityView)
    ensures
        0 <= rank_position(ranked_list, x) <= ranked_list.len(),
        forall|k: int|
            0 <= k < rank_position(ranked_list, x) ==> (
            #[trigger] ranked_list[k]).profit_percent_after_fees.value()
                > x.profit_percent_after_fees.value(),
        rank_position(ranked_list, x) < ranked_list.len() ==> ranked_list[rank_position(
            ranked_list,
            x,
        )].profit_percent_after_fees.value() <= x.profit_percent_after_fees.value(),
    decreases ranked_list.len(),
{
    if ranked_list.len() == 0 {
    } else if ranked_list[0].profit_percent_after_fees.value() <= x.profit_percent_after_fees.value() {
    } else {
        let tail = ranked_list.drop_first();
        lemma_rank_position_bounds(tail, x);
        let p = rank_position(tail, x);
        assert forall|k: int| 0 <= k < p + 1 implies (
        #[trigger] ranked_list[k]).profit_percent_after_fees.value()
            > x.profit_percent_after_fees.value() by {
            if k > 0 {
                assert(ranked_list[k] == tail[k - 1]);
            }
        }
        if p < tail.len() {
            assert(ranked_list[p + 1] == tail[p]);
        }
    }
}

/// The position is fixed by what stands in front of it and at it.
pub proof fn lemma_rank_position_is(ranked_list: Seq<OpportunityView>, x: OpportunityView, p: int)
    requires
        0 <= p <= ranked_list.len(),
        forall|k: int|
            0 <= k < p ==> (#[trigger] ranked_list[k]).profit_percent_after_fees.value()
                > x.profit_percent_after_fees.value(),
        p < ranked_list.len() ==> ranked_list[p].profit_percent_after_fees.value()
            <= x.profit_percent_after_fees.value(),
    ensures
        rank_position(ranked_list, x) == p,
    decreases ranked_list.len(),
{
    if ranked_list.len() == 0 {
    } else if p == 0 {
    } else {
        let tail = ranked_list.drop_first();
        assert(ranked_list[0].profit_percent_after_fees.value() > x.profit_percent_after_fees.value());
        assert forall|k: int| 0 <= k < p - 1 implies (#[trigger] tail[k]).profit_percent_after_fees.value()
            > x.profit_percent_after_fees.value() by {
            assert(tail[k] == ranked_list[k + 1]);
        }
        if p - 1 < tail.len() {
            assert(tail[p - 1] == ranked_list[p]);
        }
        lemma_rank_position_is(tail, x, p - 1);
    }
}

/// Ranking keeps every opportunity, each as often as it was met.
pub proof fn lemma_ranked_is_permutation(list: Seq<OpportunityView>)
    ensures
        ranked(list).len() == list.len(),
        ranked(list).to_multiset() == list.to_multiset(),
    decreases list.len(),
{
    broadcast use vstd::seq_lib::group_to_multiset_ensures;

    if list.len() == 0 {
    } else {
        let tail = list.drop_first();
        let rest = ranked(tail);
        lemma_ranked_is_permutation(tail);
        lemma_rank_position_bounds(rest, list[0]);
        let p = rank_position(rest, list[0]);
        assert(list == seq![list[0]] + tail);
        vstd::seq_lib::lemma_multiset_commutative(seq![list[0]], tail);
        assert(rest.insert(p, list[0]).to_multiset() == rest.to_multiset().insert(list[0]));
        assert(seq![list[0]].to_multiset() == vstd::multiset::Multiset::<OpportunityView>::empty().insert(
            list[0],
        )) by {
            assert(seq![list[0]] == Seq::<OpportunityView>::empty().push(list[0]));
        }
        assert(ranked(list).to_multiset() =~= list.to_multiset());
    }
}

/// In a ranked list no opportunity stands behind a less profitable one.
pub proof fn lemma_ranked_is_descending(list: Seq<OpportunityView>)
    ensures
        descending(ranked(list)),
    decreases list.len(),
{
    if list.len() == 0 {
    } else {
        let tail = list.drop_first();
        let rest = ranked(tail);
        lemma_ranked_is_descending(tail);
        lemma_rank_position_bounds(rest, list[0]);
        let p = rank_position(rest, list[0]);
        let x = list[0];
        let out = rest.insert(p, x);
        assert forall|i: int, j: int| 0 <= i <= j < out.len() implies (
        #[trigger] out[i]).profit_percent_after_fees.value() >= (
        #[trigger] out[j]).profit_percent_after_fees.value() by {
            if i < p && j < p {
                assert(out[i] == rest[i] && out[j] == rest[j]);
            } else if i < p && j == p {
                assert(out[i] == rest[i]);
            } else if i < p && j > p {
                assert(out[i] == rest[i] && out[j] == rest[j - 1]);
            } else if i == p && j == p {
            } else if i == p && j > p {
                assert(out[j] == rest[j - 1]);
                assert(rest[p].profit_percent_after_fees.value() >= rest[j - 1].profit_percent_after_fees.value());
            } else {
                assert(out[i] == rest[i - 1] && out[j] == rest[j - 1]);
            }
        }
    }
}

/// For each place of the ranked list, the place that its member had in the
/// list that was ranked.
pub open spec fn ranked_order(list: Seq<OpportunityView>) -> Seq<int>
    decreases list.len(),
{
    if list.len() == 0 {
        Seq::empty()
    } else {
        let rest = ranked(list.drop_first());
        let order = ranked_order(list.drop_first()).map_values(|k: int| k + 1);
        order.insert(rank_position(rest, list[0]), 0)
    }
}

/// Ranking is a stable ordering: it moves members around without losing or
/// doubling any, and two members of equal profit stay in the order in which
/// they were met.
pub proof fn lemma_ranked_is_stable(list: Seq<OpportunityView>)
    ensures
        ranked_order(list).len() == list.len(),
        ranked(list).len() == list.len(),
        forall|k: int|
            0 <= k < list.len() ==> 0 <= #[trigger] ranked_order(list)[k] < list.len() && ranked(list)[k]
                == list[ranked_order(list)[k]],
        forall|a: int, b: int|
            0 <= a < b < list.len() ==> #[trigger] ranked_order(list)[a] != #[trigger] ranked_order(
                list,
            )[b],
        forall|a: int, b: int|
            0 <= a < b < list.len() && ranked(list)[a].profit_percent_after_fees.value() == ranked(
                list,
            )[b].profit_percent_after_fees.value() ==> #[trigger] ranked_order(list)[a]
                < #[trigger] ranked_order(list)[b],
    decreases list.len(),
{
    if list.len() == 0 {
    } else {
        let tail = list.drop_first();
        let x = list[0];
        let rest = ranked(tail);
        let inner = ranked_order(tail);
        let shifted = inner.map_values(|k: int| k + 1);
        lemma_ranked_is_stable(tail);
        lemma_rank_position_bounds(rest, x);
        let pos = rank_position(rest, x);
        let out = ranked(list);
        let order = ranked_order(list);
        assert(out == rest.insert(pos, x));
        assert(order == shifted.insert(pos, 0));
        assert forall|k: int| 0 <= k < list.len() implies 0 <= #[trigger] order[k] < list.len() && out[k]
            == list[order[k]] by {
            if k < pos {
                assert(order[k] == inner[k] + 1 && out[k] == rest[k]);
                assert(tail[inner[k]] == list[inner[k] + 1]);
            } else if k == pos {
            } else {
                assert(order[k] == inner[k - 1] + 1 && out[k] == rest[k - 1]);
                assert(tail[inner[k - 1]] == list[inner[k - 1] + 1]);
            }
        }
        assert forall|a: int, b: int| 0 <= a < b < list.len() implies #[trigger] order[a]
            != #[trigger] order[b] by {
            let a1 = if a < pos { a } else { a - 1 };
            let b1 = if b < pos { b } else { b - 1 };
            if a != pos && b != pos {
                assert(order[a] == inner[a1] + 1 && order[b] == inner[b1] + 1);
                assert(inner[a1] != inner[b1]);
            } else if a == pos {
                assert(order[b] == inner[b1] + 1);
            } else {
                assert(order[a] == inner[a1] + 1);
            }
        }
        assert forall|a: int, b: int|
            0 <= a < b < list.len() && out[a].profit_percent_after_fees.value()
                == out[b].profit_percent_after_fees.value() implies #[trigger] order[a]
            < #[trigger] order[b] by {
            let a1 = if a < pos { a } else { a - 1 };
            let b1 = if b < pos { b } else { b - 1 };
            if a != pos && b != pos {
                assert(order[a] == inner[a1] + 1 && order[b] == inner[b1] + 1);
                assert(out[a] == rest[a1] && out[b] == rest[b1]);
                assert(inner[a1] < inner[b1]);
            } else if a == pos {
                assert(order[b] == inner[b1] + 1);
            } else {
                assert(out[a] == rest[a]);
                assert(rest[a].profit_percent_after_fees.value() > x.profit_percent_after_fees.value());
            }
        }
    }
}

/// Orders the opportunities by profit after fees, the most profitable first;
/// opportunities of equal profit keep the order in which they were met.
pub fn rank_opportunities(opportunities: Vec<ArbitrageOpportunity>) -> (r: Vec<ArbitrageOpportunity>)
    requires
        forall|i: int| 0 <= i < opportunities.len() ==> (#[trigger] opportunities[i]).wf(),
    ensures
        opportunity_views(r@) == ranked(opportunity_views(opportunities@)),
        r.len() == opportunities.len(),
        descending(opportunity_views(r@)),
        opportunity_views(r@).to_multiset() == opportunity_views(opportunities@).to_multiset(),
        forall|i: int| 0 <= i < r.len() ==> (#[trigger] r[i]).wf(),
{
    let ghost given = opportunities@;
    let mut pending = opportunities;
    let mut out: Vec<ArbitrageOpportunity> = Vec::new();
    proof {
        assert(given.skip(given.len() as int) == Seq::<ArbitrageOpportunity>::empty());
        assert(opportunity_views(out@) == Seq::<OpportunityView>::empty());
        assert(opportunity_views(Seq::<ArbitrageOpportunity>::empty()) == Seq::<OpportunityView>::empty());
    }
    while pending.len() > 0
        invariant
            pending@ == given.take(pending.len() as int),
            pending.len() <= given.len(),
            opportunity_views(out@) == ranked(opportunity_views(given.skip(pending.len() as int))),
            out.len() == given.len() - pending.len(),
            forall|i: int| 0 <= i < given.len() ==> (#[trigger] given[i]).wf(),
            forall|i: int| 0 <= i < out.len() ==> (#[trigger] out[i]).wf(),
        decreases pending.len(),
    {
        let ghost n = pending.len() as int;
        let x = pending.pop().unwrap();
        assert(x == given[n - 1]);
        assert(x.wf());
        let mut pos: usize = 0;
        while pos < out.len() && out[pos].profit_percent_after_fees.gt(x.profit_percent_after_fees)
            invariant
                pos <= out.len(),
                x.wf(),
                forall|i: int| 0 <= i < out.len() ==> (#[trigger] out[i]).wf(),
                forall|k: int|
                    0 <= k < pos ==> (#[trigger] opportunity_views(out@)[k]).profit_percent_after_fees.value()
                        > x@.profit_percent_after_fees.value(),
            decreases out.len() - pos,
        {
            pos += 1;
        }
        proof {
            let rest = opportunity_views(out@);
            let tail = given.skip(n - 1);
            assert(tail.drop_first() == given.skip(n));
            assert(opportunity_views(tail).drop_first() == opportunity_views(given.skip(n)));
            assert(opportunity_views(tail)[0] == x@);
            if (pos as int) < rest.len() {
                assert(rest[pos as int] == out@[pos as int]@);
            }
            lemma_rank_position_is(rest, x@, pos as int);
            assert(opportunity_views(out@.insert(pos as int, x)) == rest.insert(pos as int, x@));
            assert(pending@ == given.take(n - 1));
        }
        out.insert(pos, x);
    }
    proof {
        assert(given.skip(0) == given);
        lemma_ranked_is_permutation(opportunity_views(given));
        lemma_ranked_is_descending(opportunity_views(given));
    }
    out
}

} // verus!
