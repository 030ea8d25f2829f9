//! Which prices a scan asks for: every registered venue, for every trading
//! pair of the configuration that is written `BASE/QUOTE`.

use vstd::prelude::*;
use crate::dex::DexVenue;
use crate::text::copy_text;

verus! {

/// A trading pair: the asset traded and the asset it is priced in.
#[derive(Debug)]
pub struct TradingPair {
    pub base_token: String,
    pub quote_token: String,
}

/// The prices to ask for one trading pair.
#[derive(Debug)]
pub struct PairPlan {
    pub base_token: String,
    pub quote_token: String,
    /// The venues to ask, in the order of the registry.
    pub dex_names: Vec<String>,
}

/// The prices a scan asks for, and the configured pairs it passes over.
#[derive(Debug)]
pub struct ScanPlan {
    /// One entry for each pair to scan, in the order of the configuration.
    pub pairs: Vec<PairPlan>,
    /// The configured pairs that are not written `BASE/QUOTE`, in the order
    /// of the configuration.
    pub skipped_pairs: Vec<String>,
}

/// The prices to ask for one trading pair, as a mathematical value.
pub struct PairPlanView {
    pub base_token: Seq<char>,
    pub quote_token: Seq<char>,
    pub dex_names: Seq<Seq<char>>,
}

/// The characters of each string of a list.
pub open spec fn texts(list: Seq<String>) -> Seq<Seq<char>> {
    list.map_values(|s: String| s@)
}

impl View for PairPlan {
    type V = PairPlanView;

    open spec fn view(&self) -> PairPlanView {
        PairPlanView {
            base_token: self.base_token@,
            quote_token: self.quote_token@,
            dex_names: texts(self.dex_names@),
        }
    }
}

/// The entries of a plan, each as a mathematical value.
pub open spec fn pair_plan_views(list: Seq<PairPlan>) -> Seq<PairPlanView> {
    list.map_values(|p: PairPlan| p@)
}

/// The text has exactly one slash, at `k`, with something on either side.
pub open spec fn splits_at(text: Seq<char>, k: int) -> bool {
    &&& 0 < k < text.len() - 1
    &&& text[k] == '/'
    &&& forall|i: int| 0 <= i < text.len() && i != k ==> text[i] != '/'
}

/// The two tokens of a text written `BASE/QUOTE`; `None` where the text does
/// not split into exactly two tokens at a slash, or where a token is empty.
pub open spec fn split_pair(text: Seq<char>) -> Option<(Seq<char>, Seq<char>)> {
    if exists|k: int| splits_at(text, k) {
        let k = choose|k: int| splits_at(text, k);
        Some((text.take(k), text.skip(k + 1)))
    } else {
        None
    }
}

/// A text splits at one place at most.
pub proof fn lemma_split_is_unique(text: Seq<char>, k: int, m: int)
    requires
        splits_at(text, k),
        splits_at(text, m),
    ensures
        k == m,
{
}

/// Reads a trading pair written `BASE/QUOTE`.
pub fn parse_trading_pair(pair: &str) -> (r: Option<TradingPair>)
    ensures
        match r {
            Some(t) => split_pair(pair@) == Some((t.base_token@, t.quote_token@)),
            None => split_pair(pair@) is None,
        },
        r matches Some(t) ==> t.base_token@.len() > 0 && t.quote_token@.len() > 0 && pair@
            == t.base_token@ + seq!['/'] + t.quote_token@,
{
    let n = pair.unicode_len();
    let mut slash: Option<usize> = None;
    let mut i: usize = 0;
    while i < n
        invariant
            i <= n,
            n == pair@.len(),
            match slash {
                Some(k) => k < i && pair@[k as int] == '/' && forall|m: int|
                    0 <= m < i && m != k ==> pair@[m] != '/',
                None => forall|m: int| 0 <= m < i ==> pair@[m] != '/',
            },
        decreases n - i,
    {
        if pair.get_char(i) == '/' {
            match slash {
                Some(k) => {
                    proof {
                        assert forall|m: int| !splits_at(pair@, m) by {
                            if splits_at(pair@, m) {
                                assert(pair@[k as int] == '/' && pair@[i as int] == '/');
                            }
                        }
                    }
                    return None;
                },
                None => {
                    slash = Some(i);
                },
            }
        }
        i += 1;
    }
    match slash {
        Some(k) => {
            if k > 0 && k + 1 < n {
                let base = pair.substring_char(0, k);
                let quote = pair.substring_char(k + 1, n);
                proof {
                    assert(splits_at(pair@, k as int));
                    let c = choose|c: int| splits_at(pair@, c);
                    lemma_split_is_unique(pair@, k as int, c);
                    assert(pair@.subrange(0, k as int) == pair@.take(k as int));
                    assert(pair@.subrange(k + 1, n as int) == pair@.skip(k + 1));
                    assert(pair@ =~= pair@.take(k as int) + seq!['/'] + pair@.skip(k + 1));
                }
                Some(TradingPair { base_token: copy_text(base), quote_token: copy_text(quote) })
            } else {
                proof {
                    assert forall|m: int| !splits_at(pair@, m) by {
                        if splits_at(pair@, m) {
                            assert(pair@[k as int] == '/');
                        }
                    }
                }
                None
            }
        },
        None => {
            proof {
                assert forall|m: int| !splits_at(pair@, m) by {
                    if splits_at(pair@, m) {
                        assert(pair@[m] == '/');
                    }
                }
            }
            None
        },
    }
}

/// The names of the venues, in order.
pub open spec fn venue_names(venues: Seq<DexVenue>) -> Seq<Seq<char>> {
    venues.map_values(|v: DexVenue| v.kind.name_spec())
}

/// The entries of the plan for the pairs before `upto`: one for each pair that
/// is written `BASE/QUOTE`, asking every venue.
pub open spec fn planned_pairs(venues: Seq<DexVenue>, pairs: Seq<String>, upto: int) -> Seq<PairPlanView>
    decreases upto,
{
    if upto <= 0 {
        Seq::empty()
    } else {
        let before = planned_pairs(venues, pairs, upto - 1);
        match split_pair(pairs[upto - 1]@) {
            Some((base_token, quote_token)) => before.push(
                PairPlanView { base_token, quote_token, dex_names: venue_names(venues) },
            ),
            None => before,
        }
    }
}

/// The pairs before `upto` that are not written `BASE/QUOTE`.
pub open spec fn unreadable_pairs(pairs: Seq<String>, upto: int) -> Seq<Seq<char>>
    decreases upto,
{
    if upto <= 0 {
        Seq::empty()
    } else {
        let before = unreadable_pairs(pairs, upto - 1);
        match split_pair(pairs[upto - 1]@) {
            Some(_) => before,
            None => before.push(pairs[upto - 1]@),
        }
    }
}

/// How many prices a plan asks for.
pub open spec fn query_count(plan: Seq<PairPlanView>) -> nat
    decreases plan.len(),
{
    if plan.len() == 0 {
        0
    } else {
        query_count(plan.drop_last()) + plan.last().dex_names.len()
    }
}

/// The names of the venues, in order.
pub fn names_of(venues: &Vec<DexVenue>) -> (r: Vec<String>)
    ensures
        texts(r@) == venue_names(venues@),
{
    let mut names: Vec<String> = Vec::new();
    let mut i: usize = 0;
    while i < venues.len()
        invariant
            i <= venues.len(),
            texts(names@) == venue_names(venues@.take(i as int)),
        decreases venues.len() - i,
    {
        let name = copy_text(venues[i].name());
        proof {
            assert(texts(names@.push(name)) =~= texts(names@).push(name@));
            assert(venue_names(venues@.take(i + 1)) =~= venue_names(venues@.take(i as int)).push(
                venues@[i as int].kind.name_spec(),
            ));
        }
        names.push(name);
        i += 1;
    }
    proof {
        assert(venues@.take(i as int) == venues@);
    }
    names
}

/// Plans a scan. With fewer than two venues there is nothing to compare, and
/// the plan asks for no price and passes over no pair. Otherwise it asks every
/// venue for every configured pair that is written `BASE/QUOTE`, and lists the
/// pairs that are not.
pub fn plan_scan(venues: &Vec<DexVenue>, pairs: &Vec<String>) -> (r: ScanPlan)
    ensures
        venues.len() < 2 ==> r.pairs@.len() == 0 && r.skipped_pairs@.len() == 0 && query_count(
            pair_plan_views(r.pairs@),
        ) == 0,
        venues.len() >= 2 ==> pair_plan_views(r.pairs@) == planned_pairs(
            venues@,
            pairs@,
            pairs.len() as int,
        ) && texts(r.skipped_pairs@) == unreadable_pairs(pairs@, pairs.len() as int),
{
    let mut planned: Vec<PairPlan> = Vec::new();
    let mut skipped: Vec<String> = Vec::new();
    if venues.len() < 2 {
        proof {
            assert(pair_plan_views(planned@) =~= Seq::<PairPlanView>::empty());
        }
        return ScanPlan { pairs: planned, skipped_pairs: skipped };
    }
    let mut i: usize = 0;
    proof {
        assert(pair_plan_views(planned@) =~= Seq::<PairPlanView>::empty());
        assert(texts(skipped@) =~= Seq::<Seq<char>>::empty());
    }
    while i < pairs.len()
        invariant
            i <= pairs.len(),
            pair_plan_views(planned@) == planned_pairs(venues@, pairs@, i as int),
            texts(skipped@) == unreadable_pairs(pairs@, i as int),
        decreases pairs.len() - i,
    {
        match parse_trading_pair(pairs[i].as_str()) {
            Some(pair) => {
                let entry = PairPlan {
                    base_token: pair.base_token,
                    quote_token: pair.quote_token,
                    dex_names: names_of(venues),
                };
                proof {
                    assert(pair_plan_views(planned@.push(entry)) =~= pair_plan_views(planned@).push(
                        entry@,
                    ));
                }
                planned.push(entry);
            },
            None => {
                let text = pairs[i].clone();
                proof {
                    assert(texts(skipped@.push(text)) =~= texts(skipped@).push(text@));
                }
                skipped.push(text);
            },
        }
        i += 1;
    }
    ScanPlan { pairs: planned, skipped_pairs: skipped }
}

} // verus!
