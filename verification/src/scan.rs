//! From the venues' quotes on a trading pair to the opportunities they hold.

use vstd::prelude::*;
use crate::arbitrage::{ArbitrageOpportunity, OpportunityView, opportunity_views};
use crate::config::ArbitrageConfig;
use crate::decimal::{Decimal, decimal_sum};
use crate::pricing::{
    calculate_optimal_trade_amount, compute_estimated_fees, compute_gross_profit,
    dex_fee, estimated_fee_cost, get_dex_fee, gross_profit_percent, meets_threshold,
    net_profit_percent, optimal_trade_amount,
};
use crate::text::copy_text;

verus! {

/// What one venue answered about one trading pair.
#[derive(Debug)]
pub struct VenueQuote {
    /// Name of the venue.
    pub dex_name: String,
    /// The price in the quote asset per unit of the base asset, `None` where
    /// the venue gave none.
    pub price: Option<Decimal>,
    /// The liquidity the venue holds for the pair, `None` where it cannot be
    /// determined.
    pub liquidity: Option<Decimal>,
}

/// The answers of all venues about one trading pair, in the order of the
/// registry.
#[derive(Debug)]
pub struct PairQuotes {
    pub base_token: String,
    pub quote_token: String,
    pub venues: Vec<VenueQuote>,
}

impl VenueQuote {
    /// The decimals of the quote are well formed.
    pub open spec fn wf(&self) -> bool {
        &&& self.price matches Some(p) ==> p.wf()
        &&& self.liquidity matches Some(l) ==> l.wf()
    }

    /// The quote carries a price above zero.
    pub open spec fn usable(&self) -> bool {
        self.price matches Some(p) && p.value() > 0
    }

    /// Whether the quote carries a price above zero.
    pub fn is_usable(&self) -> (r: bool)
        requires
            self.wf(),
        ensures
            r == self.usable(),
    {
        match self.price {
            Some(p) => p.gt(Decimal::zero()),
            None => false,
        }
    }
}

impl PairQuotes {
    /// The decimals of every quote are well formed.
    pub open spec fn wf(&self) -> bool {
        forall|i: int| 0 <= i < self.venues@.len() ==> (#[trigger] self.venues@[i]).wf()
    }
}

/// Buying on the one venue and selling on the other is a candidate: both
/// quote a price above zero and the second quotes the higher one.
pub open spec fn is_candidate(buy: VenueQuote, sell: VenueQuote) -> bool {
    &&& buy.usable()
    &&& sell.usable()
    &&& sell.price.unwrap().value() > buy.price.unwrap().value()
}

/// The opportunity that buying on `buy` and selling on `sell` makes, or `None`
/// where a figure cannot be computed, no trade size can be fixed, or the
/// profit after fees stays below the threshold.
pub open spec fn assessed(
    cfg: ArbitrageConfig,
    base_token: Seq<char>,
    quote_token: Seq<char>,
    buy: VenueQuote,
    sell: VenueQuote,
) -> Option<OpportunityView> {
    let buy_price = buy.price.unwrap();
    let sell_price = sell.price.unwrap();
    let buy_fee = dex_fee(buy.dex_name@);
    let sell_fee = dex_fee(sell.dex_name@);
    match (
        gross_profit_percent(buy_price, sell_price),
        optimal_trade_amount(cfg.max_trade_amount_sol, buy.liquidity, sell.liquidity),
        decimal_sum(buy_fee, sell_fee),
    ) {
        (Some(gross), Ok(trade_amount), Some(total_fee)) => match (
            net_profit_percent(gross, buy_fee, sell_fee),
            estimated_fee_cost(trade_amount, total_fee),
        ) {
            (Some(net), Some(fees)) => if net.value() >= cfg.min_profit_percent.value() {
                Some(
                    OpportunityView {
                        from_dex: buy.dex_name@,
                        to_dex: sell.dex_name@,
                        base_token,
                        quote_token,
                        buy_price,
                        sell_price,
                        profit_percent: gross,
                        profit_percent_after_fees: net,
                        trade_amount,
                        estimated_fees: fees,
                    },
                )
            } else {
                None
            },
            _ => None,
        },
        _ => None,
    }
}

/// What holds of every opportunity that a scan hands out: the selling price is
/// the higher one, the profit figures follow from the prices and the venues'
/// fees, the profit after fees meets the threshold, and the trade size is
/// above zero and within the largest trade.
pub open spec fn sound(cfg: ArbitrageConfig, o: OpportunityView) -> bool {
    &&& o.buy_price.value() > 0
    &&& o.sell_price.value() > o.buy_price.value()
    &&& gross_profit_percent(o.buy_price, o.sell_price) == Some(o.profit_percent)
    &&& net_profit_percent(o.profit_percent, dex_fee(o.from_dex), dex_fee(o.to_dex)) == Some(
        o.profit_percent_after_fees,
    )
    &&& o.profit_percent_after_fees.value() >= cfg.min_profit_percent.value()
    &&& o.trade_amount.value() > 0
    &&& o.trade_amount.value() <= cfg.max_trade_amount_sol.value()
    &&& exists|total_fee: Decimal|
        decimal_sum(dex_fee(o.from_dex), dex_fee(o.to_dex)) == Some(total_fee) && estimated_fee_cost(
            o.trade_amount,
            total_fee,
        ) == Some(o.estimated_fees)
}

/// The opportunities of one buying venue against the selling venues before
/// `upto`, in the order of the selling venues.
pub open spec fn row_opportunities(
    cfg: ArbitrageConfig,
    pair: PairQuotes,
    i: int,
    upto: int,
) -> Seq<OpportunityView>
    decreases upto,
{
    if upto <= 0 {
        Seq::empty()
    } else {
        let before = row_opportunities(cfg, pair, i, upto - 1);
        let j = upto - 1;
        if i != j && is_candidate(pair.venues@[i], pair.venues@[j]) {
            match assessed(cfg, pair.base_token@, pair.quote_token@, pair.venues@[i], pair.venues@[j]) {
                Some(o) => before.push(o),
                None => before,
            }
        } else {
            before
        }
    }
}

/// The opportunities of one pair whose buying venue comes before `upto`, in
/// the order of the buying venues and, for each, of the selling venues.
pub open spec fn pair_opportunities(cfg: ArbitrageConfig, pair: PairQuotes, upto: int) -> Seq<
    OpportunityView,
>
    decreases upto,
{
    if upto <= 0 {
        Seq::empty()
    } else {
        pair_opportunities(cfg, pair, upto - 1) + row_opportunities(
            cfg,
            pair,
            upto - 1,
            pair.venues@.len() as int,
        )
    }
}

/// The opportunities of the pairs before `upto`, in the order of the pairs.
pub open spec fn collected_opportunities(cfg: ArbitrageConfig, replies: Seq<PairQuotes>, upto: int) -> Seq<
    OpportunityView,
>
    decreases upto,
{
    if upto <= 0 {
        Seq::empty()
    } else {
        collected_opportunities(cfg, replies, upto - 1) + pair_opportunities(
            cfg,
            replies[upto - 1],
            replies[upto - 1].venues@.len() as int,
        )
    }
}

/// The opportunity `o` is the one that the pair's quotes of venues `i` and
/// `j` make, bought on `i` and sold on `j`.
pub open spec fn stems_from(cfg: ArbitrageConfig, pair: PairQuotes, i: int, j: int, o: OpportunityView) -> bool {
    &&& 0 <= i < pair.venues@.len()
    &&& 0 <= j < pair.venues@.len()
    &&& i != j
    &&& is_candidate(pair.venues@[i], pair.venues@[j])
    &&& assessed(cfg, pair.base_token@, pair.quote_token@, pair.venues@[i], pair.venues@[j]) == Some(o)
}

/// An opportunity made from two quotes carries the venues' names and prices,
/// is sound, and trades no more than either venue is known to hold.
pub proof fn lemma_assessed_is_sound(
    cfg: ArbitrageConfig,
    base_token: Seq<char>,
    quote_token: Seq<char>,
    buy: VenueQuote,
    sell: VenueQuote,
)
    requires
        is_candidate(buy, sell),
    ensures
        assessed(cfg, base_token, quote_token, buy, sell) matches Some(o) ==> {
            &&& sound(cfg, o)
            &&& o.from_dex == buy.dex_name@
            &&& o.to_dex == sell.dex_name@
            &&& o.base_token == base_token
            &&& o.quote_token == quote_token
            &&& o.buy_price == buy.price.unwrap()
            &&& o.sell_price == sell.price.unwrap()
            &&& buy.liquidity matches Some(l) ==> o.trade_amount.value() <= l.value()
            &&& sell.liquidity matches Some(l) ==> o.trade_amount.value() <= l.value()
        },
{
    match assessed(cfg, base_token, quote_token, buy, sell) {
        Some(o) => {
            let total_fee = decimal_sum(dex_fee(buy.dex_name@), dex_fee(sell.dex_name@)).unwrap();
            assert(decimal_sum(dex_fee(o.from_dex), dex_fee(o.to_dex)) == Some(total_fee)
                && estimated_fee_cost(o.trade_amount, total_fee) == Some(o.estimated_fees));
        },
        None => {},
    }
}

/// Every member of a row stems from the row's buying venue and some selling
/// venue before `upto`.
pub proof fn lemma_row_members(cfg: ArbitrageConfig, pair: PairQuotes, i: int, upto: int, k: int)
    requires
        0 <= i < pair.venues@.len(),
        0 <= upto <= pair.venues@.len(),
        0 <= k < row_opportunities(cfg, pair, i, upto).len(),
    ensures
        exists|j: int| 0 <= j < upto && #[trigger] stems_from(cfg, pair, i, j, row_opportunities(cfg, pair, i, upto)[k]),
    decreases upto,
{
    let before = row_opportunities(cfg, pair, i, upto - 1);
    if k < before.len() {
        lemma_row_members(cfg, pair, i, upto - 1, k);
        let j = choose|j: int| 0 <= j < upto - 1 && #[trigger] stems_from(cfg, pair, i, j, before[k]);
        assert(stems_from(cfg, pair, i, j, row_opportunities(cfg, pair, i, upto)[k]));
    } else {
        assert(stems_from(cfg, pair, i, upto - 1, row_opportunities(cfg, pair, i, upto)[k]));
    }
}

/// Every member of a pair's opportunities stems from two of the pair's quotes.
pub proof fn lemma_pair_members(cfg: ArbitrageConfig, pair: PairQuotes, upto: int, k: int)
    requires
        0 <= upto <= pair.venues@.len(),
        0 <= k < pair_opportunities(cfg, pair, upto).len(),
    ensures
        exists|i: int, j: int| #[trigger] stems_from(cfg, pair, i, j, pair_opportunities(cfg, pair, upto)[k]),
    decreases upto,
{
    let before = pair_opportunities(cfg, pair, upto - 1);
    let n = pair.venues@.len() as int;
    if k < before.len() {
        lemma_pair_members(cfg, pair, upto - 1, k);
        let (i, j) = choose|i: int, j: int| #[trigger] stems_from(cfg, pair, i, j, before[k]);
        assert(stems_from(cfg, pair, i, j, pair_opportunities(cfg, pair, upto)[k]));
    } else {
        lemma_row_members(cfg, pair, upto - 1, n, k - before.len());
        let row = row_opportunities(cfg, pair, upto - 1, n);
        let j = choose|j: int| 0 <= j < n && #[trigger] stems_from(cfg, pair, upto - 1, j, row[k - before.len()]);
        assert(stems_from(cfg, pair, upto - 1, j, pair_opportunities(cfg, pair, upto)[k]));
    }
}

/// Every opportunity that the quotes hold stems from two quotes of one of the
/// pairs.
pub proof fn lemma_collected_members(cfg: ArbitrageConfig, replies: Seq<PairQuotes>, upto: int, k: int)
    requires
        0 <= upto <= replies.len(),
        0 <= k < collected_opportunities(cfg, replies, upto).len(),
    ensures
        exists|p: int, i: int, j: int|
            0 <= p < upto && #[trigger] stems_from(
                cfg,
                replies[p],
                i,
                j,
                collected_opportunities(cfg, replies, upto)[k],
            ),
    decreases upto,
{
    let before = collected_opportunities(cfg, replies, upto - 1);
    let pair = replies[upto - 1];
    let n = pair.venues@.len() as int;
    if k < before.len() {
        lemma_collected_members(cfg, replies, upto - 1, k);
        let (p, i, j) = choose|p: int, i: int, j: int|
            0 <= p < upto - 1 && #[trigger] stems_from(cfg, replies[p], i, j, before[k]);
        assert(stems_from(cfg, replies[p], i, j, collected_opportunities(cfg, replies, upto)[k]));
    } else {
        lemma_pair_members(cfg, pair, n, k - before.len());
        let here = pair_opportunities(cfg, pair, n);
        let (i, j) = choose|i: int, j: int| #[trigger] stems_from(cfg, pair, i, j, here[k - before.len()]);
        assert(stems_from(cfg, replies[upto - 1], i, j, collected_opportunities(cfg, replies, upto)[k]));
    }
}

/// Every opportunity that the quotes hold is sound.
pub proof fn lemma_collected_are_sound(cfg: ArbitrageConfig, replies: Seq<PairQuotes>)
    ensures
        forall|k: int|
            0 <= k < collected_opportunities(cfg, replies, replies.len() as int).len() ==> sound(
                cfg,
                #[trigger] collected_opportunities(cfg, replies, replies.len() as int)[k],
            ),
{
    let all = collected_opportunities(cfg, replies, replies.len() as int);
    assert forall|k: int| 0 <= k < all.len() implies sound(cfg, #[trigger] all[k]) by {
        lemma_collected_members(cfg, replies, replies.len() as int, k);
        let (p, i, j) = choose|p: int, i: int, j: int|
            0 <= p < replies.len() && #[trigger] stems_from(cfg, replies[p], i, j, all[k]);
        let pair = replies[p];
        lemma_assessed_is_sound(cfg, pair.base_token@, pair.quote_token@, pair.venues@[i], pair.venues@[j]);
    }
}

/// A row holds the opportunity of each of its candidates.
pub proof fn lemma_row_is_complete(cfg: ArbitrageConfig, pair: PairQuotes, i: int, j: int, upto: int, o: OpportunityView)
    requires
        stems_from(cfg, pair, i, j, o),
        j < upto <= pair.venues@.len(),
    ensures
        row_opportunities(cfg, pair, i, upto).contains(o),
    decreases upto,
{
    let before = row_opportunities(cfg, pair, i, upto - 1);
    let row = row_opportunities(cfg, pair, i, upto);
    if j == upto - 1 {
        assert(row == before.push(o));
        assert(row[before.len() as int] == o);
    } else {
        lemma_row_is_complete(cfg, pair, i, j, upto - 1, o);
        let k = choose|k: int| 0 <= k < before.len() && before[k] == o;
        assert(row[k] == o);
    }
}

/// A pair's opportunities hold the opportunity of each of its candidates.
pub proof fn lemma_pair_is_complete(cfg: ArbitrageConfig, pair: PairQuotes, i: int, j: int, upto: int, o: OpportunityView)
    requires
        stems_from(cfg, pair, i, j, o),
        i < upto <= pair.venues@.len(),
    ensures
        pair_opportunities(cfg, pair, upto).contains(o),
    decreases upto,
{
    let before = pair_opportunities(cfg, pair, upto - 1);
    let n = pair.venues@.len() as int;
    let row = row_opportunities(cfg, pair, upto - 1, n);
    let all = pair_opportunities(cfg, pair, upto);
    if i == upto - 1 {
        lemma_row_is_complete(cfg, pair, i, j, n, o);
        let k = choose|k: int| 0 <= k < row.len() && row[k] == o;
        assert(all[before.len() + k] == o);
    } else {
        lemma_pair_is_complete(cfg, pair, i, j, upto - 1, o);
        let k = choose|k: int| 0 <= k < before.len() && before[k] == o;
        assert(all[k] == o);
    }
}

/// Whatever two quotes of a pair make is among the opportunities that the
/// quotes hold: for every pair of distinct venues of which the second quotes
/// the higher price, the opportunity is there unless it was dropped for its
/// figures, its size or its profit.
pub proof fn lemma_collected_is_complete(
    cfg: ArbitrageConfig,
    replies: Seq<PairQuotes>,
    upto: int,
    p: int,
    i: int,
    j: int,
    o: OpportunityView,
)
    requires
        0 <= p < upto <= replies.len(),
        stems_from(cfg, replies[p], i, j, o),
    ensures
        collected_opportunities(cfg, replies, upto).contains(o),
    decreases upto,
{
    let before = collected_opportunities(cfg, replies, upto - 1);
    let pair = replies[upto - 1];
    let n = pair.venues@.len() as int;
    let here = pair_opportunities(cfg, pair, n);
    let all = collected_opportunities(cfg, replies, upto);
    if p == upto - 1 {
        lemma_pair_is_complete(cfg, pair, i, j, n, o);
        let k = choose|k: int| 0 <= k < here.len() && here[k] == o;
        assert(all[before.len() + k] == o);
    } else {
        lemma_collected_is_complete(cfg, replies, upto - 1, p, i, j, o);
        let k = choose|k: int| 0 <= k < before.len() && before[k] == o;
        assert(all[k] == o);
    }
}

impl ArbitrageOpportunity {
    /// Keeps the opportunity where its profit after fees meets the threshold.
    pub fn if_profitable(self, min_profit: Decimal) -> (r: Option<ArbitrageOpportunity>)
        requires
            self.wf(),
            min_profit.wf(),
        ensures
            r == if self.profit_percent_after_fees.value() >= min_profit.value() {
                Some(self)
            } else {
                None
            },
    {
        if meets_threshold(self.profit_percent_after_fees, min_profit) {
            Some(self)
        } else {
            None
        }
    }
}

/// Whether buying on the one venue and selling on the other is a candidate.
pub fn check_candidate(buy: &VenueQuote, sell: &VenueQuote) -> (r: bool)
    requires
        buy.wf(),
        sell.wf(),
    ensures
        r == is_candidate(*buy, *sell),
{
    if buy.is_usable() && sell.is_usable() {
        match (buy.price, sell.price) {
            (Some(b), Some(s)) => s.gt(b),
            _ => false,
        }
    } else {
        false
    }
}

/// Works out the opportunity of buying on `buy` and selling on `sell`. A
/// candidate is dropped where one of its figures does not fit a decimal, where
/// sizing leaves nothing to trade, or where its profit after fees stays below
/// the threshold.
pub fn assess_candidate(
    cfg: &ArbitrageConfig,
    base_token: &str,
    quote_token: &str,
    buy: &VenueQuote,
    sell: &VenueQuote,
) -> (r: Option<ArbitrageOpportunity>)
    requires
        cfg.wf(),
        buy.wf(),
        sell.wf(),
        buy.price is Some,
        sell.price is Some,
    ensures
        match r {
            Some(o) => assessed(*cfg, base_token@, quote_token@, *buy, *sell) == Some(o@) && o.wf(),
            None => assessed(*cfg, base_token@, quote_token@, *buy, *sell) is None,
        },
{
    let buy_price = match buy.price {
        Some(p) => p,
        None => {
            return None;
        },
    };
    let sell_price = match sell.price {
        Some(p) => p,
        None => {
            return None;
        },
    };
    let gross = match compute_gross_profit(buy_price, sell_price) {
        Some(g) => g,
        None => {
            return None;
        },
    };
    let trade_amount = match calculate_optimal_trade_amount(
        cfg.max_trade_amount_sol,
        buy.liquidity,
        sell.liquidity,
    ) {
        Ok(a) => a,
        Err(_) => {
            return None;
        },
    };
    let buy_fee = get_dex_fee(buy.dex_name.as_str());
    let sell_fee = get_dex_fee(sell.dex_name.as_str());
    let total_fee = match buy_fee.checked_add(sell_fee) {
        Some(t) => t,
        None => {
            return None;
        },
    };
    let net = match gross.checked_sub(total_fee) {
        Some(n) => n,
        None => {
            return None;
        },
    };
    let fees = match compute_estimated_fees(trade_amount, total_fee) {
        Some(f) => f,
        None => {
            return None;
        },
    };
    let candidate = ArbitrageOpportunity {
        from_dex: buy.dex_name.clone(),
        to_dex: sell.dex_name.clone(),
        base_token: copy_text(base_token),
        quote_token: copy_text(quote_token),
        buy_price,
        sell_price,
        profit_percent: gross,
        profit_percent_after_fees: net,
        trade_amount,
        estimated_fees: fees,
    };
    candidate.if_profitable(cfg.min_profit_percent)
}

/// The opportunities that the quotes hold, in the order in which they are
/// met: pair by pair, buying venue by buying venue, selling venue by selling
/// venue.
pub fn collect_opportunities(cfg: &ArbitrageConfig, replies: &Vec<PairQuotes>) -> (r: Vec<
    ArbitrageOpportunity,
>)
    requires
        cfg.wf(),
        forall|p: int| 0 <= p < replies.len() ==> (#[trigger] replies[p]).wf(),
    ensures
        opportunity_views(r@) == collected_opportunities(*cfg, replies@, replies.len() as int),
        forall|k: int| 0 <= k < r.len() ==> (#[trigger] r[k]).wf(),
{
    let mut out: Vec<ArbitrageOpportunity> = Vec::new();
    let mut p: usize = 0;
    proof {
        assert(opportunity_views(out@) =~= Seq::<OpportunityView>::empty());
    }
    while p < replies.len()
        invariant
            p <= replies.len(),
            cfg.wf(),
            forall|q: int| 0 <= q < replies.len() ==> (#[trigger] replies[q]).wf(),
            opportunity_views(out@) == collected_opportunities(*cfg, replies@, p as int),
            forall|k: int| 0 <= k < out.len() ==> (#[trigger] out[k]).wf(),
        decreases replies.len() - p,
    {
        let pair = &replies[p];
        let n = pair.venues.len();
        let ghost before_pair = opportunity_views(out@);
        assert(pair.wf());
        let mut i: usize = 0;
        while i < n
            invariant
                i <= n,
                n == pair.venues.len(),
                cfg.wf(),
                pair.wf(),
                opportunity_views(out@) == before_pair + pair_opportunities(*cfg, *pair, i as int),
                forall|k: int| 0 <= k < out.len() ==> (#[trigger] out[k]).wf(),
            decreases n - i,
        {
            let ghost before_row = opportunity_views(out@);
            let mut j: usize = 0;
            while j < n
                invariant
                    i < n,
                    j <= n,
                    n == pair.venues.len(),
                    cfg.wf(),
                    pair.wf(),
                    opportunity_views(out@) == before_row + row_opportunities(
                        *cfg,
                        *pair,
                        i as int,
                        j as int,
                    ),
                    forall|k: int| 0 <= k < out.len() ==> (#[trigger] out[k]).wf(),
                decreases n - j,
            {
                let ghost row_before = row_opportunities(*cfg, *pair, i as int, j as int);
                assert(pair.venues@[i as int].wf() && pair.venues@[j as int].wf());
                if i != j && check_candidate(&pair.venues[i], &pair.venues[j]) {
                    match assess_candidate(
                        cfg,
                        pair.base_token.as_str(),
                        pair.quote_token.as_str(),
                        &pair.venues[i],
                        &pair.venues[j],
                    ) {
                        Some(o) => {
                            proof {
                                assert(opportunity_views(out@.push(o)) =~= opportunity_views(out@).push(o@));
                                assert(before_row + row_before.push(o@) =~= (before_row + row_before).push(
                                    o@,
                                ));
                            }
                            out.push(o);
                        },
                        None => {},
                    }
                }
                j += 1;
            }
            proof {
                assert(before_pair + (pair_opportunities(*cfg, *pair, i as int) + row_opportunities(
                    *cfg,
                    *pair,
                    i as int,
                    n as int,
                )) =~= (before_pair + pair_opportunities(*cfg, *pair, i as int)) + row_opportunities(
                    *cfg,
                    *pair,
                    i as int,
                    n as int,
                ));
            }
            i += 1;
        }
        p += 1;
    }
    out
}

} // verus!
