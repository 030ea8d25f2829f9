//! Carrying out an opportunity, as a state machine.
//!
//! The engine never talks to a venue itself. It hands out one action at a
//! time; the caller performs it and hands back what happened, and the engine
//! decides what comes next. An execution runs
//!
//! `LiveCheck -> BuyPending -> (Settling ->) SellPending -> Finished`
//!
//! or, where both venues can take part in an indivisible swap,
//!
//! `LiveCheck -> AtomicPending -> Finished`.

use vstd::prelude::*;
use crate::arbitrage::ArbitrageOpportunity;
use crate::decimal::Decimal;
use crate::dex::{DexManager, DexVenue, lookup};
use crate::pricing::{
    SizingError, calculate_optimal_trade_amount, compute_minimum_output, minimum_output,
    optimal_trade_amount,
};

verus! {

/// How long the engine lets the buying venue settle before it sells, in
/// milliseconds.
pub const SETTLEMENT_PAUSE_MS: u64 = 500;

/// The legs of a trade.
#[derive(Clone, Copy, Debug, PartialEq, Eq, Structural)]
pub enum Leg {
    /// Buying the base asset on the cheaper venue.
    Buy,
    /// Selling the base asset on the dearer venue.
    Sell,
    /// Both at once, as one indivisible operation.
    Atomic,
}

/// How a leg came to nothing.
#[derive(Debug)]
pub enum LegFailure {
    /// The venue did not answer within the time allowed.
    TimedOut,
    /// The venue refused or failed, with its reason.
    Rejected(String),
}

/// Why an execution ended without a trade.
#[derive(Debug)]
pub enum ArbitrageError {
    /// No venue of this name is registered.
    DexNotFound(String),
    /// Sizing against the live liquidity leaves nothing to trade.
    InsufficientLiquidity,
    /// A figure needed for the trade does not fit a decimal.
    Unrepresentable,
    /// A leg did not complete within the time allowed.
    Timeout(Leg),
    /// A leg was refused or failed, with the venue's reason.
    LegFailed(Leg, String),
    /// What the caller handed back does not answer the action it was given.
    OutOfTurn,
    /// The execution failed, and with it as many executions have failed in a
    /// row as the configuration allows: the caller is to stop.
    FailureLimitReached(u32),
}

/// One swap for the caller to submit.
#[derive(Debug)]
pub struct SwapOrder {
    /// The venue to submit it to.
    pub dex_name: String,
    /// In simulation mode nothing may be submitted for real.
    pub simulation_mode: bool,
    /// Asset given.
    pub from_token: String,
    /// Asset received.
    pub to_token: String,
    /// Quantity of the base asset traded.
    pub amount: Decimal,
    /// The least output the venue may settle for.
    pub min_output: Decimal,
    /// Time allowed, in seconds.
    pub timeout_sec: u64,
}

/// What the caller is to do next.
#[derive(Debug)]
pub enum ExecutionAction {
    /// Ask both venues for a live slippage estimate and their liquidity.
    CheckLiveState {
        buy_dex: String,
        sell_dex: String,
        base_token: String,
        quote_token: String,
        amount: Decimal,
    },
    /// Submit one swap and wait for it, no longer than its time allows.
    SubmitSwap(SwapOrder),
    /// Submit both swaps as one indivisible operation.
    SubmitAtomic { buy: SwapOrder, sell: SwapOrder },
    /// Wait.
    Pause { millis: u64 },
    /// Nothing more: the execution has ended this way.
    Finish(Result<(), ArbitrageError>),
}

/// What the caller hands back.
#[derive(Debug)]
pub enum ExecutionEvent {
    /// The answer to `CheckLiveState`; `None` for whatever could not be had.
    LiveState {
        slippage: Option<Decimal>,
        buy_liquidity: Option<Decimal>,
        sell_liquidity: Option<Decimal>,
    },
    /// The answer to `SubmitSwap`: the transaction reference, or the failure.
    LegDone(Result<String, LegFailure>),
    /// The answer to `SubmitAtomic`.
    AtomicDone(Result<String, LegFailure>),
    /// The answer to `Pause`.
    PauseOver,
}

/// Where an execution stands.
#[derive(Debug)]
pub enum ExecutionState {
    /// Both venues are known; their live state has been asked for.
    LiveCheck { opportunity: ArbitrageOpportunity, atomic: bool },
    /// The buy leg has been handed out.
    BuyPending { opportunity: ArbitrageOpportunity, min_output: Decimal },
    /// The buy leg is done; the engine lets it settle.
    Settling { opportunity: ArbitrageOpportunity, min_output: Decimal },
    /// The sell leg has been handed out.
    SellPending { opportunity: ArbitrageOpportunity },
    /// Both legs have been handed out as one.
    AtomicPending { opportunity: ArbitrageOpportunity },
    /// The execution has ended.
    Finished,
}

/// The settings an execution goes by.
#[derive(Clone, Copy, Debug)]
pub struct ExecutionSettings {
    pub simulation_mode: bool,
    pub slippage_tolerance: Decimal,
    pub max_trade_amount: Decimal,
    pub transaction_timeout_sec: u64,
    pub max_consecutive_failures: u32,
}

/// A trade to report to the journal.
#[derive(Debug)]
pub struct TradeNotice {
    pub from_dex: String,
    pub to_dex: String,
    pub profit_percent: Decimal,
    pub simulation_mode: bool,
}

/// One step of an execution: the state reached, the action handed out, the
/// count of failed executions in a row after the step, and the trade to
/// report, if the step completed one.
#[derive(Debug)]
pub struct Transition {
    pub state: ExecutionState,
    pub action: ExecutionAction,
    pub failures: u32,
    pub notice: Option<TradeNotice>,
}

impl ExecutionSettings {
    /// The decimals of the settings are well formed.
    pub open spec fn wf(self) -> bool {
        self.slippage_tolerance.wf() && self.max_trade_amount.wf()
    }
}

impl ExecutionEvent {
    /// The decimals of the event are well formed.
    pub open spec fn wf(self) -> bool {
        match self {
            ExecutionEvent::LiveState { slippage, buy_liquidity, sell_liquidity } => {
                &&& slippage matches Some(s) ==> s.wf()
                &&& buy_liquidity matches Some(l) ==> l.wf()
                &&& sell_liquidity matches Some(l) ==> l.wf()
            },
            _ => true,
        }
    }
}

impl ExecutionState {
    /// The decimals of the state are well formed.
    pub open spec fn wf(self) -> bool {
        match self {
            ExecutionState::LiveCheck { opportunity, .. } => opportunity.wf(),
            ExecutionState::BuyPending { opportunity, min_output } => opportunity.wf() && min_output.wf(),
            ExecutionState::Settling { opportunity, min_output } => opportunity.wf() && min_output.wf(),
            ExecutionState::SellPending { opportunity } => opportunity.wf(),
            ExecutionState::AtomicPending { opportunity } => opportunity.wf(),
            ExecutionState::Finished => true,
        }
    }

    /// A leg may have reached a venue.
    pub open spec fn committed(self) -> bool {
        match self {
            ExecutionState::BuyPending { .. } => true,
            ExecutionState::Settling { .. } => true,
            ExecutionState::SellPending { .. } => true,
            ExecutionState::AtomicPending { .. } => true,
            _ => false,
        }
    }
}

/// The buy leg of an opportunity: the quote asset for the base asset on the
/// buying venue, with no least output, since the buying price is what made
/// the opportunity.
pub open spec fn buy_order(settings: ExecutionSettings, o: ArbitrageOpportunity) -> SwapOrder {
    SwapOrder {
        dex_name: o.from_dex,
        simulation_mode: settings.simulation_mode,
        from_token: o.quote_token,
        to_token: o.base_token,
        amount: o.trade_amount,
        min_output: Decimal { mantissa: 0, scale: 0 },
        timeout_sec: settings.transaction_timeout_sec,
    }
}

/// The sell leg of an opportunity: the base asset for the quote asset on the
/// selling venue, for no less than the least output.
pub open spec fn sell_order(settings: ExecutionSettings, o: ArbitrageOpportunity, min_output: Decimal) -> SwapOrder {
    SwapOrder {
        dex_name: o.to_dex,
        simulation_mode: settings.simulation_mode,
        from_token: o.base_token,
        to_token: o.quote_token,
        amount: o.trade_amount,
        min_output,
        timeout_sec: settings.transaction_timeout_sec,
    }
}

/// The count of failures in a row after one more; it stays at the largest
/// number it can hold.
pub open spec fn count_failure(failures: u32) -> u32 {
    if failures < u32::MAX {
        (failures + 1) as u32
    } else {
        failures
    }
}

/// The count after `n` more failures in a row.
pub open spec fn count_failures(failures: u32, n: nat) -> u32
    decreases n,
{
    if n == 0 {
        failures
    } else {
        count_failure(count_failures(failures, (n - 1) as nat))
    }
}

/// Whether one more failure reaches the ceiling.
pub open spec fn reaches_limit(settings: ExecutionSettings, failures: u32) -> bool {
    count_failure(failures) >= settings.max_consecutive_failures
}

/// An execution that ends without having touched a venue: the count of
/// failures stays as it is.
pub open spec fn abandoned(failures: u32, error: ArbitrageError) -> Transition {
    Transition {
        state: ExecutionState::Finished,
        action: ExecutionAction::Finish(Err(error)),
        failures,
        notice: None,
    }
}

/// An execution that fails after a leg may have reached a venue: the failure
/// is counted, and reported as fatal where the count reaches the ceiling.
pub open spec fn failed(settings: ExecutionSettings, failures: u32, error: ArbitrageError) -> Transition {
    Transition {
        state: ExecutionState::Finished,
        action: ExecutionAction::Finish(
            Err(
                if reaches_limit(settings, failures) {
                    ArbitrageError::FailureLimitReached(settings.max_consecutive_failures)
                } else {
                    error
                },
            ),
        ),
        failures: count_failure(failures),
        notice: None,
    }
}

/// An execution that traded: the count of failures starts anew and the trade
/// is reported.
pub open spec fn succeeded(settings: ExecutionSettings, o: ArbitrageOpportunity) -> Transition {
    Transition {
        state: ExecutionState::Finished,
        action: ExecutionAction::Finish(Ok(())),
        failures: 0,
        notice: Some(
            TradeNotice {
                from_dex: o.from_dex,
                to_dex: o.to_dex,
                profit_percent: o.profit_percent_after_fees,
                simulation_mode: settings.simulation_mode,
            },
        ),
    }
}

/// The error that a failure of a leg is reported as.
pub open spec fn leg_error(leg: Leg, failure: LegFailure) -> ArbitrageError {
    match failure {
        LegFailure::TimedOut => ArbitrageError::Timeout(leg),
        LegFailure::Rejected(reason) => ArbitrageError::LegFailed(leg, reason),
    }
}

/// The first step of an execution: both venues must be registered, and their
/// live state is asked for.
pub open spec fn first_transition(venues: Seq<DexVenue>, failures: u32, o: ArbitrageOpportunity) -> Transition {
    match lookup(venues, o.from_dex@) {
        None => abandoned(failures, ArbitrageError::DexNotFound(o.from_dex)),
        Some(buy) => match lookup(venues, o.to_dex@) {
            None => abandoned(failures, ArbitrageError::DexNotFound(o.to_dex)),
            Some(sell) => Transition {
                state: ExecutionState::LiveCheck { opportunity: o, atomic: buy.atomic && sell.atomic },
                action: ExecutionAction::CheckLiveState {
                    buy_dex: o.from_dex,
                    sell_dex: o.to_dex,
                    base_token: o.base_token,
                    quote_token: o.quote_token,
                    amount: o.trade_amount,
                },
                failures,
                notice: None,
            },
        },
    }
}

/// The step after the live state is known. Sizing is done again on the live
/// liquidity; where it leaves nothing to trade the execution is abandoned.
/// The least output is fixed from the live slippage, or from the configured
/// tolerance where no estimate was to be had. Then the legs are handed out:
/// as one where both venues can, else the buy leg first.
pub open spec fn after_live_check(
    settings: ExecutionSettings,
    failures: u32,
    o: ArbitrageOpportunity,
    atomic: bool,
    slippage: Option<Decimal>,
    buy_liquidity: Option<Decimal>,
    sell_liquidity: Option<Decimal>,
) -> Transition {
    let slippage_percent = match slippage {
        Some(s) => s,
        None => settings.slippage_tolerance,
    };
    match optimal_trade_amount(settings.max_trade_amount, buy_liquidity, sell_liquidity) {
        Err(SizingError::InsufficientLiquidity) => abandoned(failures, ArbitrageError::InsufficientLiquidity),
        Err(SizingError::Unrepresentable) => abandoned(failures, ArbitrageError::Unrepresentable),
        Ok(_) => match minimum_output(o.trade_amount, o.sell_price, slippage_percent) {
            None => abandoned(failures, ArbitrageError::Unrepresentable),
            Some(min_output) => if atomic {
                Transition {
                    state: ExecutionState::AtomicPending { opportunity: o },
                    action: ExecutionAction::SubmitAtomic {
                        buy: buy_order(settings, o),
                        sell: sell_order(settings, o, min_output),
                    },
                    failures,
                    notice: None,
                }
            } else {
                Transition {
                    state: ExecutionState::BuyPending { opportunity: o, min_output },
                    action: ExecutionAction::SubmitSwap(buy_order(settings, o)),
                    failures,
                    notice: None,
                }
            },
        },
    }
}

/// Handing out the sell leg.
pub open spec fn selling(settings: ExecutionSettings, failures: u32, o: ArbitrageOpportunity, min_output: Decimal) -> Transition {
    Transition {
        state: ExecutionState::SellPending { opportunity: o },
        action: ExecutionAction::SubmitSwap(sell_order(settings, o, min_output)),
        failures,
        notice: None,
    }
}

/// What comes next in an execution, given where it stands and what the caller
/// hands back.
pub open spec fn next_transition(
    settings: ExecutionSettings,
    failures: u32,
    state: ExecutionState,
    event: ExecutionEvent,
) -> Transition {
    match (state, event) {
        (
            ExecutionState::LiveCheck { opportunity, atomic },
            ExecutionEvent::LiveState { slippage, buy_liquidity, sell_liquidity },
        ) => after_live_check(settings, failures, opportunity, atomic, slippage, buy_liquidity, sell_liquidity),
        (ExecutionState::BuyPending { opportunity, min_output }, ExecutionEvent::LegDone(Ok(_))) => {
            if settings.simulation_mode {
                selling(settings, failures, opportunity, min_output)
            } else {
                Transition {
                    state: ExecutionState::Settling { opportunity, min_output },
                    action: ExecutionAction::Pause { millis: SETTLEMENT_PAUSE_MS },
                    failures,
                    notice: None,
                }
            }
        },
        (ExecutionState::BuyPending { .. }, ExecutionEvent::LegDone(Err(failure))) => failed(
            settings,
            failures,
            leg_error(Leg::Buy, failure),
        ),
        (ExecutionState::Settling { opportunity, min_output }, ExecutionEvent::PauseOver) => selling(
            settings,
            failures,
            opportunity,
            min_output,
        ),
        (ExecutionState::SellPending { opportunity }, ExecutionEvent::LegDone(Ok(_))) => succeeded(
            settings,
            opportunity,
        ),
        (ExecutionState::SellPending { .. }, ExecutionEvent::LegDone(Err(failure))) => failed(
            settings,
            failures,
            leg_error(Leg::Sell, failure),
        ),
        (ExecutionState::AtomicPending { opportunity }, ExecutionEvent::AtomicDone(Ok(_))) => succeeded(
            settings,
            opportunity,
        ),
        (ExecutionState::AtomicPending { .. }, ExecutionEvent::AtomicDone(Err(failure))) => failed(
            settings,
            failures,
            leg_error(Leg::Atomic, failure),
        ),
        (state, _) => if state.committed() {
            failed(settings, failures, ArbitrageError::OutOfTurn)
        } else {
            abandoned(failures, ArbitrageError::OutOfTurn)
        },
    }
}

/// The buy leg of an opportunity.
pub fn make_buy_order(settings: &ExecutionSettings, o: &ArbitrageOpportunity) -> (r: SwapOrder)
    ensures
        r == buy_order(*settings, *o),
{
    SwapOrder {
        dex_name: o.from_dex.clone(),
        simulation_mode: settings.simulation_mode,
        from_token: o.quote_token.clone(),
        to_token: o.base_token.clone(),
        amount: o.trade_amount,
        min_output: Decimal::zero(),
        timeout_sec: settings.transaction_timeout_sec,
    }
}

/// The sell leg of an opportunity.
pub fn make_sell_order(settings: &ExecutionSettings, o: &ArbitrageOpportunity, min_output: Decimal) -> (r: SwapOrder)
    ensures
        r == sell_order(*settings, *o, min_output),
{
    SwapOrder {
        dex_name: o.to_dex.clone(),
        simulation_mode: settings.simulation_mode,
        from_token: o.base_token.clone(),
        to_token: o.quote_token.clone(),
        amount: o.trade_amount,
        min_output,
        timeout_sec: settings.transaction_timeout_sec,
    }
}

/// Ends an execution that has not touched a venue.
pub fn abandon(failures: u32, error: ArbitrageError) -> (r: Transition)
    ensures
        r == abandoned(failures, error),
{
    Transition {
        state: ExecutionState::Finished,
        action: ExecutionAction::Finish(Err(error)),
        failures,
        notice: None,
    }
}

/// Ends an execution that failed after a leg may have reached a venue.
pub fn fail(settings: &ExecutionSettings, failures: u32, error: ArbitrageError) -> (r: Transition)
    ensures
        r == failed(*settings, failures, error),
        r.failures == count_failure(failures),
        r.action matches ExecutionAction::Finish(Err(_)),
        (r.action matches ExecutionAction::Finish(Err(ArbitrageError::FailureLimitReached(_))))
            <==> (reaches_limit(*settings, failures) || error is FailureLimitReached),
{
    let counted = if failures < u32::MAX {
        failures + 1
    } else {
        failures
    };
    let reported = if counted >= settings.max_consecutive_failures {
        ArbitrageError::FailureLimitReached(settings.max_consecutive_failures)
    } else {
        error
    };
    Transition {
        state: ExecutionState::Finished,
        action: ExecutionAction::Finish(Err(reported)),
        failures: counted,
        notice: None,
    }
}

/// Ends an execution that traded.
pub fn succeed(settings: &ExecutionSettings, o: ArbitrageOpportunity) -> (r: Transition)
    ensures
        r == succeeded(*settings, o),
        r.failures == 0,
{
    Transition {
        state: ExecutionState::Finished,
        action: ExecutionAction::Finish(Ok(())),
        failures: 0,
        notice: Some(
            TradeNotice {
                from_dex: o.from_dex,
                to_dex: o.to_dex,
                profit_percent: o.profit_percent_after_fees,
                simulation_mode: settings.simulation_mode,
            },
        ),
    }
}

/// The error that a failure of a leg is reported as.
pub fn leg_failure(leg: Leg, failure: LegFailure) -> (r: ArbitrageError)
    ensures
        r == leg_error(leg, failure),
        !(r is FailureLimitReached),
{
    match failure {
        LegFailure::TimedOut => ArbitrageError::Timeout(leg),
        LegFailure::Rejected(reason) => ArbitrageError::LegFailed(leg, reason),
    }
}

/// Hands out the sell leg.
pub fn sell(settings: &ExecutionSettings, failures: u32, o: ArbitrageOpportunity, min_output: Decimal) -> (r: Transition)
    ensures
        r == selling(*settings, failures, o, min_output),
{
    let order = make_sell_order(settings, &o, min_output);
    Transition {
        state: ExecutionState::SellPending { opportunity: o },
        action: ExecutionAction::SubmitSwap(order),
        failures,
        notice: None,
    }
}

/// Starts an execution: looks both venues up and asks for their live state.
/// A venue that is not registered ends the execution at once, and the count
/// of failures stays as it is.
pub fn begin(venues: &DexManager, failures: u32, opportunity: ArbitrageOpportunity) -> (r: Transition)
    requires
        opportunity.wf(),
    ensures
        r == first_transition(venues.venues(), failures, opportunity),
        r.state.wf(),
        r.failures == failures,
{
    let buy_atomic = match venues.get_dex(opportunity.from_dex.as_str()) {
        Some(venue) => venue.atomic,
        None => {
            let name = opportunity.from_dex.clone();
            return abandon(failures, ArbitrageError::DexNotFound(name));
        },
    };
    let sell_atomic = match venues.get_dex(opportunity.to_dex.as_str()) {
        Some(venue) => venue.atomic,
        None => {
            let name = opportunity.to_dex.clone();
            return abandon(failures, ArbitrageError::DexNotFound(name));
        },
    };
    let action = ExecutionAction::CheckLiveState {
        buy_dex: opportunity.from_dex.clone(),
        sell_dex: opportunity.to_dex.clone(),
        base_token: opportunity.base_token.clone(),
        quote_token: opportunity.quote_token.clone(),
        amount: opportunity.trade_amount,
    };
    Transition {
        state: ExecutionState::LiveCheck { opportunity, atomic: buy_atomic && sell_atomic },
        action,
        failures,
        notice: None,
    }
}

/// The step after the live state is known.
pub fn check_live_state(
    settings: &ExecutionSettings,
    failures: u32,
    opportunity: ArbitrageOpportunity,
    atomic: bool,
    slippage: Option<Decimal>,
    buy_liquidity: Option<Decimal>,
    sell_liquidity: Option<Decimal>,
) -> (r: Transition)
    requires
        settings.wf(),
        opportunity.wf(),
        slippage matches Some(s) ==> s.wf(),
        buy_liquidity matches Some(l) ==> l.wf(),
        sell_liquidity matches Some(l) ==> l.wf(),
    ensures
        r == after_live_check(
            *settings,
            failures,
            opportunity,
            atomic,
            slippage,
            buy_liquidity,
            sell_liquidity,
        ),
        r.state.wf(),
        r.failures == failures,
{
    let slippage_percent = match slippage {
        Some(s) => s,
        None => settings.slippage_tolerance,
    };
    match calculate_optimal_trade_amount(settings.max_trade_amount, buy_liquidity, sell_liquidity) {
        Err(SizingError::InsufficientLiquidity) => {
            return abandon(failures, ArbitrageError::InsufficientLiquidity);
        },
        Err(SizingError::Unrepresentable) => {
            return abandon(failures, ArbitrageError::Unrepresentable);
        },
        Ok(_) => {},
    }
    let min_output = match compute_minimum_output(
        opportunity.trade_amount,
        opportunity.sell_price,
        slippage_percent,
    ) {
        Some(m) => m,
        None => {
            return abandon(failures, ArbitrageError::Unrepresentable);
        },
    };
    let buy = make_buy_order(settings, &opportunity);
    if atomic {
        let sell = make_sell_order(settings, &opportunity, min_output);
        Transition {
            state: ExecutionState::AtomicPending { opportunity },
            action: ExecutionAction::SubmitAtomic { buy, sell },
            failures,
            notice: None,
        }
    } else {
        Transition {
            state: ExecutionState::BuyPending { opportunity, min_output },
            action: ExecutionAction::SubmitSwap(buy),
            failures,
            notice: None,
        }
    }
}

/// Takes an execution one step further. Whatever is handed back out of turn
/// ends the execution; it counts as a failure where a leg may have reached a
/// venue.
pub fn advance(settings: &ExecutionSettings, failures: u32, state: ExecutionState, event: ExecutionEvent) -> (r:
    Transition)
    requires
        settings.wf(),
        state.wf(),
        event.wf(),
    ensures
        r == next_transition(*settings, failures, state, event),
        r.state.wf(),
        r.action matches ExecutionAction::Finish(Ok(_)) ==> r.failures == 0,
        !(r.action matches ExecutionAction::Finish(_)) ==> r.failures == failures,
        r.action matches ExecutionAction::Finish(_) <==> r.state is Finished,
{
    match state {
        ExecutionState::LiveCheck { opportunity, atomic } => match event {
            ExecutionEvent::LiveState { slippage, buy_liquidity, sell_liquidity } => check_live_state(
                settings,
                failures,
                opportunity,
                atomic,
                slippage,
                buy_liquidity,
                sell_liquidity,
            ),
            _ => abandon(failures, ArbitrageError::OutOfTurn),
        },
        ExecutionState::BuyPending { opportunity, min_output } => match event {
            ExecutionEvent::LegDone(Ok(_)) => {
                if settings.simulation_mode {
                    sell(settings, failures, opportunity, min_output)
                } else {
                    Transition {
                        state: ExecutionState::Settling { opportunity, min_output },
                        action: ExecutionAction::Pause { millis: SETTLEMENT_PAUSE_MS },
                        failures,
                        notice: None,
                    }
                }
            },
            ExecutionEvent::LegDone(Err(failure)) => fail(settings, failures, leg_failure(Leg::Buy, failure)),
            _ => fail(settings, failures, ArbitrageError::OutOfTurn),
        },
        ExecutionState::Settling { opportunity, min_output } => match event {
            ExecutionEvent::PauseOver => sell(settings, failures, opportunity, min_output),
            _ => fail(settings, failures, ArbitrageError::OutOfTurn),
        },
        ExecutionState::SellPending { opportunity } => match event {
            ExecutionEvent::LegDone(Ok(_)) => succeed(settings, opportunity),
            ExecutionEvent::LegDone(Err(failure)) => fail(settings, failures, leg_failure(Leg::Sell, failure)),
            _ => fail(settings, failures, ArbitrageError::OutOfTurn),
        },
        ExecutionState::AtomicPending { opportunity } => match event {
            ExecutionEvent::AtomicDone(Ok(_)) => succeed(settings, opportunity),
            ExecutionEvent::AtomicDone(Err(failure)) => fail(
                settings,
                failures,
                leg_failure(Leg::Atomic, failure),
            ),
            _ => fail(settings, failures, ArbitrageError::OutOfTurn),
        },
        ExecutionState::Finished => abandon(failures, ArbitrageError::OutOfTurn),
    }
}

} // verus!
