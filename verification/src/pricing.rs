//! Profit, fee and trade-size figures of an arbitrage candidate.
//!
//! The arithmetic itself is `rust_decimal`'s; this module fixes which
//! operations are applied to which operands, and decides on the results.

use vstd::prelude::*;
use crate::decimal::{Decimal, decimal_sum, decimal_difference, decimal_product, decimal_quotient};
use crate::text::same_text;

verus! {

/// Why no trade size could be fixed.
#[derive(Clone, Copy, Debug, PartialEq, Eq, Structural)]
pub enum SizingError {
    /// The bounds leave nothing above zero to trade.
    InsufficientLiquidity,
    /// A figure on the way does not fit a decimal.
    Unrepresentable,
}

/// The decimal 100.
pub open spec fn hundred() -> Decimal {
    Decimal { mantissa: 100, scale: 0 }
}

/// The decimal 10.
pub open spec fn ten() -> Decimal {
    Decimal { mantissa: 10, scale: 0 }
}

/// The decimal 1.
pub open spec fn one() -> Decimal {
    Decimal { mantissa: 1, scale: 0 }
}

/// The decimal 0.1.
pub open spec fn one_tenth() -> Decimal {
    Decimal { mantissa: 1, scale: 1 }
}

/// The trading fee of a venue, in percent: 0.25 on Raydium, 0.3 on Orca, 0.04
/// on Serum, and 0.25 where the venue is not known.
pub open spec fn dex_fee(dex_name: Seq<char>) -> Decimal {
    if dex_name == "raydium"@ {
        Decimal { mantissa: 25, scale: 2 }
    } else if dex_name == "orca"@ {
        Decimal { mantissa: 3, scale: 1 }
    } else if dex_name == "serum"@ {
        Decimal { mantissa: 4, scale: 2 }
    } else {
        Decimal { mantissa: 25, scale: 2 }
    }
}

/// The trading fee of a venue, in percent.
pub fn get_dex_fee(dex_name: &str) -> (r: Decimal)
    ensures
        r == dex_fee(dex_name@),
        r.wf(),
{
    if same_text(dex_name, "raydium") {
        Decimal::new(25, 2)
    } else if same_text(dex_name, "orca") {
        Decimal::new(3, 1)
    } else if same_text(dex_name, "serum") {
        Decimal::new(4, 2)
    } else {
        Decimal::new(25, 2)
    }
}

/// Gross profit in percent: `(sell - buy) / buy * 100`, each step as
/// `rust_decimal` computes it; `None` where a step has no result.
pub open spec fn gross_profit_percent(buy_price: Decimal, sell_price: Decimal) -> Option<Decimal> {
    match decimal_difference(sell_price, buy_price) {
        Some(spread) => match decimal_quotient(spread, buy_price) {
            Some(ratio) => decimal_product(ratio, hundred()),
            None => None,
        },
        None => None,
    }
}

/// Gross profit in percent of buying at one price and selling at the other.
pub fn compute_gross_profit(buy_price: Decimal, sell_price: Decimal) -> (r: Option<Decimal>)
    requires
        buy_price.wf(),
        sell_price.wf(),
    ensures
        r == gross_profit_percent(buy_price, sell_price),
        r matches Some(g) ==> g.wf(),
{
    match sell_price.checked_sub(buy_price) {
        Some(spread) => match spread.checked_div(buy_price) {
            Some(ratio) => ratio.checked_mul(Decimal::new(100, 0)),
            None => None,
        },
        None => None,
    }
}

/// Net profit in percent: the gross profit less the sum of both venues' fees.
pub open spec fn net_profit_percent(gross: Decimal, buy_fee: Decimal, sell_fee: Decimal) -> Option<
    Decimal,
> {
    match decimal_sum(buy_fee, sell_fee) {
        Some(total) => decimal_difference(gross, total),
        None => None,
    }
}

/// Net profit in percent of a candidate with the given gross profit and fees.
pub fn compute_net_profit(gross: Decimal, buy_fee: Decimal, sell_fee: Decimal) -> (r: Option<Decimal>)
    requires
        gross.wf(),
        buy_fee.wf(),
        sell_fee.wf(),
    ensures
        r == net_profit_percent(gross, buy_fee, sell_fee),
        r matches Some(n) ==> n.wf(),
{
    match buy_fee.checked_add(sell_fee) {
        Some(total) => gross.checked_sub(total),
        None => None,
    }
}

/// Fees expected on a trade: `trade_amount * (total_fee_percent / 100)`.
pub open spec fn estimated_fee_cost(trade_amount: Decimal, total_fee_percent: Decimal) -> Option<
    Decimal,
> {
    match decimal_quotient(total_fee_percent, hundred()) {
        Some(rate) => decimal_product(trade_amount, rate),
        None => None,
    }
}

/// Fees expected on a trade of the given size.
pub fn compute_estimated_fees(trade_amount: Decimal, total_fee_percent: Decimal) -> (r: Option<
    Decimal,
>)
    requires
        trade_amount.wf(),
        total_fee_percent.wf(),
    ensures
        r == estimated_fee_cost(trade_amount, total_fee_percent),
        r matches Some(f) ==> f.wf(),
{
    match total_fee_percent.checked_div(Decimal::new(100, 0)) {
        Some(rate) => trade_amount.checked_mul(rate),
        None => None,
    }
}

/// The least output the sell leg may yield:
/// `trade_amount * sell_price * (1 - slippage_percent / 100)`.
pub open spec fn minimum_output(trade_amount: Decimal, sell_price: Decimal, slippage_percent: Decimal) -> Option<
    Decimal,
> {
    match decimal_quotient(slippage_percent, hundred()) {
        Some(fraction) => match decimal_difference(one(), fraction) {
            Some(multiplier) => match decimal_product(trade_amount, sell_price) {
                Some(proceeds) => decimal_product(proceeds, multiplier),
                None => None,
            },
            None => None,
        },
        None => None,
    }
}

/// The least output the sell leg may yield under the given slippage.
pub fn compute_minimum_output(trade_amount: Decimal, sell_price: Decimal, slippage_percent: Decimal) -> (r:
    Option<Decimal>)
    requires
        trade_amount.wf(),
        sell_price.wf(),
        slippage_percent.wf(),
    ensures
        r == minimum_output(trade_amount, sell_price, slippage_percent),
        r matches Some(m) ==> m.wf(),
{
    match slippage_percent.checked_div(Decimal::new(100, 0)) {
        Some(fraction) => match Decimal::new(1, 0).checked_sub(fraction) {
            Some(multiplier) => match trade_amount.checked_mul(sell_price) {
                Some(proceeds) => proceeds.checked_mul(multiplier),
                None => None,
            },
            None => None,
        },
        None => None,
    }
}

/// Whether a candidate with the given net profit meets the threshold.
pub fn meets_threshold(net_profit: Decimal, min_profit: Decimal) -> (r: bool)
    requires
        net_profit.wf(),
        min_profit.wf(),
    ensures
        r == (net_profit.value() >= min_profit.value()),
{
    net_profit.ge(min_profit)
}

/// The least of the three bounds on a trade: the configured maximum, a tenth
/// of the available liquidity, and the available liquidity itself.
pub open spec fn least_bound(max_amount: Decimal, tenth: Decimal, available: Decimal) -> Decimal {
    max_amount.min_spec(tenth).min_spec(available)
}

/// The trade size the three bounds allow: their least, unless that is zero or
/// less.
pub open spec fn bounded_trade_amount(max_amount: Decimal, tenth: Decimal, available: Decimal) -> Result<
    Decimal,
    SizingError,
> {
    let least = least_bound(max_amount, tenth, available);
    if least.value() <= 0 {
        Err(SizingError::InsufficientLiquidity)
    } else {
        Ok(least)
    }
}

/// Fixes the trade size from the three bounds.
pub fn select_trade_amount(max_amount: Decimal, tenth: Decimal, available: Decimal) -> (r: Result<
    Decimal,
    SizingError,
>)
    requires
        max_amount.wf(),
        tenth.wf(),
        available.wf(),
    ensures
        r == bounded_trade_amount(max_amount, tenth, available),
        r matches Ok(amount) ==> {
            &&& amount.wf()
            &&& amount.value() > 0
            &&& amount.value() <= max_amount.value()
            &&& amount.value() <= tenth.value()
            &&& amount.value() <= available.value()
        },
{
    let least = max_amount.min(tenth).min(available);
    if least.le(Decimal::zero()) {
        Err(SizingError::InsufficientLiquidity)
    } else {
        Ok(least)
    }
}

/// The liquidity taken for a venue: what it reports, or ten times the largest
/// trade where it reports nothing.
pub open spec fn assumed_liquidity(reported: Option<Decimal>, max_amount: Decimal) -> Option<Decimal> {
    match reported {
        Some(liquidity) => Some(liquidity),
        None => decimal_product(max_amount, ten()),
    }
}

/// The liquidity taken for a venue.
pub fn liquidity_or_ample(reported: Option<Decimal>, max_amount: Decimal) -> (r: Option<Decimal>)
    requires
        max_amount.wf(),
        reported matches Some(l) ==> l.wf(),
    ensures
        r == assumed_liquidity(reported, max_amount),
        r matches Some(l) ==> l.wf(),
{
    match reported {
        Some(liquidity) => Some(liquidity),
        None => max_amount.checked_mul(Decimal::new(10, 0)),
    }
}

/// The trade size for two venues: the least of the largest trade, a tenth of
/// the lesser of the two liquidities, and that lesser liquidity.
pub open spec fn optimal_trade_amount(
    max_amount: Decimal,
    buy_liquidity: Option<Decimal>,
    sell_liquidity: Option<Decimal>,
) -> Result<Decimal, SizingError> {
    match assumed_liquidity(buy_liquidity, max_amount) {
        Some(buy) => match assumed_liquidity(sell_liquidity, max_amount) {
            Some(sell) => {
                let available = buy.min_spec(sell);
                match decimal_product(available, one_tenth()) {
                    Some(tenth) => bounded_trade_amount(max_amount, tenth, available),
                    None => Err(SizingError::Unrepresentable),
                }
            },
            None => Err(SizingError::Unrepresentable),
        },
        None => Err(SizingError::Unrepresentable),
    }
}

/// Fixes the trade size for two venues from the largest trade and what is
/// known of the venues' liquidity.
pub fn calculate_optimal_trade_amount(
    max_amount: Decimal,
    buy_liquidity: Option<Decimal>,
    sell_liquidity: Option<Decimal>,
) -> (r: Result<Decimal, SizingError>)
    requires
        max_amount.wf(),
        buy_liquidity matches Some(l) ==> l.wf(),
        sell_liquidity matches Some(l) ==> l.wf(),
    ensures
        r == optimal_trade_amount(max_amount, buy_liquidity, sell_liquidity),
        r matches Ok(amount) ==> {
            &&& amount.wf()
            &&& amount.value() > 0
            &&& amount.value() <= max_amount.value()
            &&& buy_liquidity matches Some(l) ==> amount.value() <= l.value()
            &&& sell_liquidity matches Some(l) ==> amount.value() <= l.value()
        },
{
    let buy = match liquidity_or_ample(buy_liquidity, max_amount) {
        Some(l) => l,
        None => {
            return Err(SizingError::Unrepresentable);
        },
    };
    let sell = match liquidity_or_ample(sell_liquidity, max_amount) {
        Some(l) => l,
        None => {
            return Err(SizingError::Unrepresentable);
        },
    };
    let available = buy.min(sell);
    match available.checked_mul(Decimal::new(1, 1)) {
        Some(tenth) => select_trade_amount(max_amount, tenth, available),
        None => Err(SizingError::Unrepresentable),
    }
}

/// A trade size that sizing hands out is above zero, within the largest
/// trade, and within the liquidity of either venue where that is known.
pub proof fn lemma_trade_amount_bounds(
    max_amount: Decimal,
    buy_liquidity: Option<Decimal>,
    sell_liquidity: Option<Decimal>,
)
    ensures
        optimal_trade_amount(max_amount, buy_liquidity, sell_liquidity) matches Ok(amount) ==> {
            &&& amount.value() > 0
            &&& amount.value() <= max_amount.value()
            &&& buy_liquidity matches Some(l) ==> amount.value() <= l.value()
            &&& sell_liquidity matches Some(l) ==> amount.value() <= l.value()
        },
{
}

} // verus!
