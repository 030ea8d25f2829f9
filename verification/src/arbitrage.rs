//! The arbitrage engine: what an opportunity is, and the engine's state.

use vstd::prelude::*;
use crate::config::Config;
use crate::decimal::Decimal;
use crate::dex::{DexManager, DexVenue, lookup};
use crate::execution::{
    ArbitrageError, ExecutionAction, ExecutionEvent, ExecutionSettings, ExecutionState,
    Transition, advance, begin, count_failures, failed, first_transition, next_transition,
};
use crate::monitor::{Monitor, MonitorEvent, MonitorEventView, event_views};
use crate::plan::{
    ScanPlan, pair_plan_views, plan_scan, planned_pairs, query_count, texts, unreadable_pairs,
};
use crate::ranking::{descending, lemma_ranked_is_permutation, rank_opportunities, ranked};
use crate::scan::{
    PairQuotes, collect_opportunities, collected_opportunities, lemma_assessed_is_sound,
    lemma_collected_are_sound, lemma_collected_is_complete, lemma_collected_members, sound,
    stems_from,
};

verus! {

/// A price gap between two venues on one trading pair, with the size of the
/// trade that exploits it.
#[derive(Debug)]
pub struct ArbitrageOpportunity {
    /// Venue to buy on.
    pub from_dex: String,
    /// Venue to sell on.
    pub to_dex: String,
    /// Asset bought and sold.
    pub base_token: String,
    /// Asset paid with and received.
    pub quote_token: String,
    /// Price on the buying venue, in the quote asset per unit of the base asset.
    pub buy_price: Decimal,
    /// Price on the selling venue.
    pub sell_price: Decimal,
    /// Gross profit in percent.
    pub profit_percent: Decimal,
    /// Profit in percent after both venues' fees.
    pub profit_percent_after_fees: Decimal,
    /// Quantity of the base asset to trade.
    pub trade_amount: Decimal,
    /// Fees expected on the trade.
    pub estimated_fees: Decimal,
}

/// An opportunity as a mathematical value.
pub struct OpportunityView {
    pub from_dex: Seq<char>,
    pub to_dex: Seq<char>,
    pub base_token: Seq<char>,
    pub quote_token: Seq<char>,
    pub buy_price: Decimal,
    pub sell_price: Decimal,
    pub profit_percent: Decimal,
    pub profit_percent_after_fees: Decimal,
    pub trade_amount: Decimal,
    pub estimated_fees: Decimal,
}

impl View for ArbitrageOpportunity {
    type V = OpportunityView;

    open spec fn view(&self) -> OpportunityView {
        OpportunityView {
            from_dex: self.from_dex@,
            to_dex: self.to_dex@,
            base_token: self.base_token@,
            quote_token: self.quote_token@,
            buy_price: self.buy_price,
            sell_price: self.sell_price,
            profit_percent: self.profit_percent,
            profit_percent_after_fees: self.profit_percent_after_fees,
            trade_amount: self.trade_amount,
            estimated_fees: self.estimated_fees,
        }
    }
}

impl OpportunityView {
    /// Every figure is a well-formed decimal.
    pub open spec fn wf(self) -> bool {
        &&& self.buy_price.wf()
        &&& self.sell_price.wf()
        &&& self.profit_percent.wf()
        &&& self.profit_percent_after_fees.wf()
        &&& self.trade_amount.wf()
        &&& self.estimated_fees.wf()
    }
}

impl ArbitrageOpportunity {
    /// Every figure is a well-formed decimal.
    pub open spec fn wf(&self) -> bool {
        self@.wf()
    }

    /// A copy of the opportunity.
    pub fn duplicate(&self) -> (r: ArbitrageOpportunity)
        ensures
            r@ == self@,
    {
        ArbitrageOpportunity {
            from_dex: self.from_dex.clone(),
            to_dex: self.to_dex.clone(),
            base_token: self.base_token.clone(),
            quote_token: self.quote_token.clone(),
            buy_price: self.buy_price,
            sell_price: self.sell_price,
            profit_percent: self.profit_percent,
            profit_percent_after_fees: self.profit_percent_after_fees,
            trade_amount: self.trade_amount,
            estimated_fees: self.estimated_fees,
        }
    }
}

/// The opportunities of a list, each as a mathematical value.
pub open spec fn opportunity_views(list: Seq<ArbitrageOpportunity>) -> Seq<OpportunityView> {
    list.map_values(|o: ArbitrageOpportunity| o@)
}

/// One step of an execution, as the caller sees it.
#[derive(Debug)]
pub struct ExecutionStep {
    /// Where the execution stands; to be handed back with the next event.
    pub state: ExecutionState,
    /// What the caller is to do now.
    pub action: ExecutionAction,
}

/// What the polling loop does after an execution.
#[derive(Clone, Copy, Debug, PartialEq, Eq, Structural)]
pub enum LoopDecision {
    /// Go on with the next opportunity.
    Continue,
    /// Stop until somebody has looked into the failures.
    Halt,
}

/// The engine: its settings, the registry of venues, the journal, and the
/// count of executions that failed in a row.
pub struct ArbitrageEngine {
    config: Config,
    dex_manager: DexManager,
    monitor: Monitor,
    consecutive_failures: u32,
}

/// Every member of a ranked list is a member of the list that was ranked.
pub proof fn lemma_ranked_members(list: Seq<OpportunityView>, k: int)
    requires
        0 <= k < ranked(list).len(),
    ensures
        list.contains(ranked(list)[k]),
{
    broadcast use vstd::seq_lib::group_to_multiset_ensures;

    lemma_ranked_is_permutation(list);
    let x = ranked(list)[k];
    assert(ranked(list).contains(x));
    assert(ranked(list).to_multiset().count(x) > 0);
    assert(list.to_multiset().count(x) > 0);
}

impl ArbitrageEngine {
    /// The settings the engine was made with.
    pub closed spec fn config(&self) -> Config {
        self.config
    }

    /// The registered venues, in order.
    pub closed spec fn venues(&self) -> Seq<DexVenue> {
        self.dex_manager.venues()
    }

    /// The journal's entries that have not been taken out, oldest first.
    pub closed spec fn journal(&self) -> Seq<MonitorEventView> {
        self.monitor.journal()
    }

    /// How many executions have failed in a row.
    pub closed spec fn failures(&self) -> u32 {
        self.consecutive_failures
    }

    /// The decimals of the settings are well formed.
    pub open spec fn wf(&self) -> bool {
        self.config().wf()
    }

    /// The settings an execution goes by.
    pub open spec fn settings(&self) -> ExecutionSettings {
        ExecutionSettings {
            simulation_mode: self.config().safety.simulation_mode,
            slippage_tolerance: self.config().arbitrage.slippage_tolerance,
            max_trade_amount: self.config().arbitrage.max_trade_amount_sol,
            transaction_timeout_sec: self.config().arbitrage.transaction_timeout_sec,
            max_consecutive_failures: self.config().safety.max_consecutive_failures,
        }
    }

    /// What a scan returns for the given quotes: nothing with fewer than two
    /// venues; else the opportunities that the quotes hold, the most
    /// profitable first.
    pub open spec fn scan_result(&self, replies: Seq<PairQuotes>) -> Seq<OpportunityView> {
        if self.venues().len() < 2 {
            Seq::empty()
        } else {
            ranked(collected_opportunities(self.config().arbitrage, replies, replies.len() as int))
        }
    }

    /// An engine that has seen no failure yet.
    pub fn new(config: Config, dex_manager: DexManager, monitor: Monitor) -> (r: ArbitrageEngine)
        requires
            config.wf(),
        ensures
            r.config() == config,
            r.venues() == dex_manager.venues(),
            r.journal() == monitor.journal(),
            r.failures() == 0,
            r.wf(),
    {
        ArbitrageEngine { config, dex_manager, monitor, consecutive_failures: 0 }
    }

    /// How many executions have failed in a row.
    pub fn consecutive_failures(&self) -> (r: u32)
        ensures
            r == self.failures(),
    {
        self.consecutive_failures
    }

    /// The settings the engine was made with.
    pub fn settings_in_force(&self) -> (r: &Config)
        ensures
            *r == self.config(),
    {
        &self.config
    }

    /// The registry of venues.
    pub fn registry(&self) -> (r: &DexManager)
        ensures
            r.venues() == self.venues(),
    {
        &self.dex_manager
    }

    /// Takes every entry out of the journal, oldest first.
    pub fn take_events(&mut self) -> (r: Vec<MonitorEvent>)
        ensures
            event_views(r@) == old(self).journal(),
            final(self).journal() == Seq::<MonitorEventView>::empty(),
            final(self).config() == old(self).config(),
            final(self).venues() == old(self).venues(),
            final(self).failures() == old(self).failures(),
    {
        self.monitor.take_events()
    }

    /// The prices a scan asks for. With fewer than two venues it asks for
    /// none.
    pub fn plan_scan(&self) -> (r: ScanPlan)
        ensures
            self.venues().len() < 2 ==> r.pairs@.len() == 0 && r.skipped_pairs@.len() == 0 && query_count(
                pair_plan_views(r.pairs@),
            ) == 0,
            self.venues().len() >= 2 ==> pair_plan_views(r.pairs@) == planned_pairs(
                self.venues(),
                self.config().dex.trading_pairs@,
                self.config().dex.trading_pairs@.len() as int,
            ) && texts(r.skipped_pairs@) == unreadable_pairs(
                self.config().dex.trading_pairs@,
                self.config().dex.trading_pairs@.len() as int,
            ),
    {
        plan_scan(self.dex_manager.get_dexes(), &self.config.dex.trading_pairs)
    }

    /// The opportunities that the venues' quotes hold, the most profitable
    /// after fees first; among equally profitable ones the one met first.
    ///
    /// With fewer than two registered venues there are none. Otherwise, for
    /// every pair and every two distinct venues that both quote a price above
    /// zero, the second the higher one, the opportunity of buying on the first
    /// and selling on the second is worked out; it is dropped where sizing
    /// leaves nothing to trade, where its profit after fees stays below the
    /// configured minimum, or where one of its figures does not fit a decimal.
    pub fn find_opportunities(&self, replies: &Vec<PairQuotes>) -> (r: Vec<ArbitrageOpportunity>)
        requires
            self.wf(),
            forall|p: int| 0 <= p < replies.len() ==> (#[trigger] replies[p]).wf(),
        ensures
            opportunity_views(r@) == self.scan_result(replies@),
            self.venues().len() < 2 ==> r.len() == 0,
            descending(opportunity_views(r@)),
            forall|k: int| 0 <= k < r.len() ==> sound(self.config().arbitrage, (#[trigger] r[k])@),
            forall|k: int| 0 <= k < r.len() ==> (#[trigger] r[k]).wf(),
    {
        if self.dex_manager.get_dexes().len() < 2 {
            let none: Vec<ArbitrageOpportunity> = Vec::new();
            proof {
                assert(opportunity_views(none@) =~= Seq::<OpportunityView>::empty());
            }
            return none;
        }
        let found = collect_opportunities(&self.config.arbitrage, replies);
        let r = rank_opportunities(found);
        proof {
            let cfg = self.config().arbitrage;
            let all = collected_opportunities(cfg, replies@, replies.len() as int);
            lemma_collected_are_sound(cfg, replies@);
            assert forall|k: int| 0 <= k < r.len() implies sound(cfg, (#[trigger] r[k])@) by {
                assert(opportunity_views(r@)[k] == r[k]@);
                lemma_ranked_members(all, k);
                let m = choose|m: int| 0 <= m < all.len() && all[m] == ranked(all)[k];
                assert(sound(cfg, all[m]));
            }
        }
        r
    }

    /// An estimate of the liquidity a venue holds for a pair, for as long as
    /// venues report no depth: 1000 where the venue quotes a price for the
    /// pair, nothing where it does not, and no estimate for a venue that is
    /// not registered.
    pub fn get_dex_liquidity(&self, dex_name: &str, price_available: bool) -> (r: Option<Decimal>)
        ensures
            r == if lookup(self.venues(), dex_name@) is None {
                None
            } else if price_available {
                Some(Decimal { mantissa: 1000, scale: 0 })
            } else {
                Some(Decimal { mantissa: 0, scale: 0 })
            },
            r matches Some(l) ==> l.wf(),
    {
        match self.dex_manager.get_dex(dex_name) {
            None => None,
            Some(_) => {
                if price_available {
                    Some(Decimal::new(1000, 0))
                } else {
                    Some(Decimal::zero())
                }
            },
        }
    }

    /// The slippage an execution reckons with, in percent: the live estimate,
    /// or the configured tolerance where there is none.
    pub fn get_actual_slippage(&self, live_estimate: Option<Decimal>) -> (r: Decimal)
        ensures
            r == match live_estimate {
                Some(s) => s,
                None => self.config().arbitrage.slippage_tolerance,
            },
    {
        match live_estimate {
            Some(s) => s,
            None => self.config.arbitrage.slippage_tolerance,
        }
    }

    /// Whether the two legs can be submitted as one indivisible operation:
    /// only where both venues are declared to take part in such swaps.
    pub fn can_execute_atomically(&self, buy_dex: &DexVenue, sell_dex: &DexVenue) -> (r: bool)
        ensures
            r == (buy_dex.atomic && sell_dex.atomic),
    {
        buy_dex.atomic && sell_dex.atomic
    }

    fn execution_settings(&self) -> (r: ExecutionSettings)
        ensures
            r == self.settings(),
    {
        ExecutionSettings {
            simulation_mode: self.config.safety.simulation_mode,
            slippage_tolerance: self.config.arbitrage.slippage_tolerance,
            max_trade_amount: self.config.arbitrage.max_trade_amount_sol,
            transaction_timeout_sec: self.config.arbitrage.transaction_timeout_sec,
            max_consecutive_failures: self.config.safety.max_consecutive_failures,
        }
    }

    fn apply(&mut self, transition: Transition) -> (r: ExecutionStep)
        ensures
            r.state == transition.state,
            r.action == transition.action,
            final(self).failures() == transition.failures,
            final(self).journal() == match transition.notice {
                Some(n) => old(self).journal().push(
                    MonitorEventView::Arbitrage {
                        from_dex: n.from_dex@,
                        to_dex: n.to_dex@,
                        profit_percent: n.profit_percent,
                        simulation_mode: n.simulation_mode,
                    },
                ),
                None => old(self).journal(),
            },
            final(self).config() == old(self).config(),
            final(self).venues() == old(self).venues(),
    {
        self.consecutive_failures = transition.failures;
        match transition.notice {
            Some(n) => {
                self.monitor.log_arbitrage(
                    n.from_dex.as_str(),
                    n.to_dex.as_str(),
                    n.profit_percent,
                    n.simulation_mode,
                );
            },
            None => {},
        }
        ExecutionStep { state: transition.state, action: transition.action }
    }

    /// Starts carrying out an opportunity. Both venues must be registered:
    /// where one is not, the execution ends at once with `DexNotFound`, and
    /// the count of failures stays as it is. Otherwise the caller is asked
    /// for the venues' live state, and goes on with [`Self::resume`].
    pub fn execute_arbitrage(&mut self, opportunity: ArbitrageOpportunity) -> (r: ExecutionStep)
        requires
            old(self).wf(),
            opportunity.wf(),
        ensures
            r.state == first_transition(old(self).venues(), old(self).failures(), opportunity).state,
            r.action == first_transition(old(self).venues(), old(self).failures(), opportunity).action,
            r.state.wf(),
            final(self).failures() == old(self).failures(),
            final(self).journal() == old(self).journal(),
            final(self).config() == old(self).config(),
            final(self).venues() == old(self).venues(),
    {
        let transition = begin(&self.dex_manager, self.consecutive_failures, opportunity);
        self.apply(transition)
    }

    /// Takes an execution one step further, given what the caller hands back
    /// for the action it was given.
    ///
    /// An execution that ends in a trade sets the count of failures to zero
    /// and reports the trade to the journal. One that fails after a leg may
    /// have reached a venue adds one to the count, and is reported as
    /// `FailureLimitReached` where the count has reached the configured
    /// ceiling. One that ends before any leg was handed out leaves the count
    /// as it is.
    pub fn resume(&mut self, state: ExecutionState, event: ExecutionEvent) -> (r: ExecutionStep)
        requires
            old(self).wf(),
            state.wf(),
            event.wf(),
        ensures
            r.state == next_transition(old(self).settings(), old(self).failures(), state, event).state,
            r.action == next_transition(old(self).settings(), old(self).failures(), state, event).action,
            final(self).failures() == next_transition(
                old(self).settings(),
                old(self).failures(),
                state,
                event,
            ).failures,
            final(self).journal() == match next_transition(
                old(self).settings(),
                old(self).failures(),
                state,
                event,
            ).notice {
                Some(n) => old(self).journal().push(
                    MonitorEventView::Arbitrage {
                        from_dex: n.from_dex@,
                        to_dex: n.to_dex@,
                        profit_percent: n.profit_percent,
                        simulation_mode: n.simulation_mode,
                    },
                ),
                None => old(self).journal(),
            },
            r.state.wf(),
            r.action matches ExecutionAction::Finish(Ok(_)) ==> final(self).failures() == 0,
            !(r.action matches ExecutionAction::Finish(_)) ==> final(self).failures() == old(
                self,
            ).failures(),
            final(self).config() == old(self).config(),
            final(self).venues() == old(self).venues(),
    {
        let settings = self.execution_settings();
        let transition = advance(&settings, self.consecutive_failures, state, event);
        self.apply(transition)
    }
}

impl ArbitrageError {
    /// Whether the error tells the caller to stop.
    pub fn is_fatal(&self) -> (r: bool)
        ensures
            r == (self is FailureLimitReached),
    {
        match self {
            ArbitrageError::FailureLimitReached(_) => true,
            _ => false,
        }
    }
}

/// What the polling loop does after an execution: it stops where the
/// execution reported that the ceiling of failures is reached, and goes on
/// otherwise.
pub fn after_execution(outcome: &Result<(), ArbitrageError>) -> (r: LoopDecision)
    ensures
        r == if outcome matches Err(ArbitrageError::FailureLimitReached(_)) {
            LoopDecision::Halt
        } else {
            LoopDecision::Continue
        },
{
    match outcome {
        Err(e) => {
            if e.is_fatal() {
                LoopDecision::Halt
            } else {
                LoopDecision::Continue
            }
        },
        Ok(_) => LoopDecision::Continue,
    }
}

impl ArbitrageEngine {
    /// Every opportunity of a scan stems from two quotes of one pair, bought
    /// where the price is lower and sold where it is higher; it trades more
    /// than nothing, no more than the configured maximum, and no more than
    /// either of its two venues is known to hold.
    pub proof fn lemma_scan_result_stems_from_quotes(&self, replies: Seq<PairQuotes>, k: int)
        requires
            0 <= k < self.scan_result(replies).len(),
        ensures
            exists|p: int, i: int, j: int|
                {
                    &&& 0 <= p < replies.len()
                    &&& #[trigger] stems_from(
                        self.config().arbitrage,
                        replies[p],
                        i,
                        j,
                        self.scan_result(replies)[k],
                    )
                    &&& replies[p].venues@[i].liquidity matches Some(l) ==> self.scan_result(
                        replies,
                    )[k].trade_amount.value() <= l.value()
                    &&& replies[p].venues@[j].liquidity matches Some(l) ==> self.scan_result(
                        replies,
                    )[k].trade_amount.value() <= l.value()
                },
            sound(self.config().arbitrage, self.scan_result(replies)[k]),
    {
        let cfg = self.config().arbitrage;
        let all = collected_opportunities(cfg, replies, replies.len() as int);
        let o = self.scan_result(replies)[k];
        lemma_ranked_members(all, k);
        let m = choose|m: int| 0 <= m < all.len() && all[m] == o;
        lemma_collected_members(cfg, replies, replies.len() as int, m);
        let (p, i, j) = choose|p: int, i: int, j: int|
            0 <= p < replies.len() && #[trigger] stems_from(cfg, replies[p], i, j, all[m]);
        let pair = replies[p];
        lemma_assessed_is_sound(cfg, pair.base_token@, pair.quote_token@, pair.venues@[i], pair.venues@[j]);
        assert(stems_from(cfg, replies[p], i, j, o));
    }

    /// With two venues or more, a scan holds the opportunity of every two
    /// quotes of a pair of which the second is the higher, unless the
    /// opportunity was dropped for its figures, its size or its profit.
    pub proof fn lemma_scan_result_is_complete(
        &self,
        replies: Seq<PairQuotes>,
        p: int,
        i: int,
        j: int,
        o: OpportunityView,
    )
        requires
            self.venues().len() >= 2,
            0 <= p < replies.len(),
            stems_from(self.config().arbitrage, replies[p], i, j, o),
        ensures
            self.scan_result(replies).contains(o),
    {
        broadcast use vstd::seq_lib::group_to_multiset_ensures;

        let cfg = self.config().arbitrage;
        let all = collected_opportunities(cfg, replies, replies.len() as int);
        lemma_collected_is_complete(cfg, replies, replies.len() as int, p, i, j, o);
        lemma_ranked_is_permutation(all);
        assert(all.to_multiset().count(o) > 0);
        assert(ranked(all).to_multiset().count(o) > 0);
    }
}

/// A trade resets the count of failures, whatever it was.
pub proof fn lemma_success_resets_failures(
    settings: ExecutionSettings,
    failures: u32,
    state: ExecutionState,
    event: ExecutionEvent,
)
    ensures
        next_transition(settings, failures, state, event).action matches ExecutionAction::Finish(Ok(_))
            ==> next_transition(settings, failures, state, event).failures == 0,
{
}

/// Counting from zero, the count after `n` failures in a row is `n`.
pub proof fn lemma_count_failures(n: nat)
    requires
        n <= u32::MAX,
    ensures
        count_failures(0, n) == n,
    decreases n,
{
    if n > 0 {
        lemma_count_failures((n - 1) as nat);
    }
}

/// With a ceiling of `n`, of `n` failed executions in a row after a trade or
/// a fresh start, the last is reported as fatal and none before it is.
pub proof fn lemma_failure_limit(settings: ExecutionSettings, error: ArbitrageError, k: nat)
    requires
        settings.max_consecutive_failures >= 1,
        1 <= k <= settings.max_consecutive_failures,
        !(error is FailureLimitReached),
    ensures
        failed(settings, count_failures(0, (k - 1) as nat), error).failures == k,
        k < settings.max_consecutive_failures ==> failed(
            settings,
            count_failures(0, (k - 1) as nat),
            error,
        ).action == ExecutionAction::Finish(Err(error)),
        k == settings.max_consecutive_failures ==> failed(
            settings,
            count_failures(0, (k - 1) as nat),
            error,
        ).action == ExecutionAction::Finish(
            Err(ArbitrageError::FailureLimitReached(settings.max_consecutive_failures)),
        ),
{
    lemma_count_failures((k - 1) as nat);
}

} // verus!
