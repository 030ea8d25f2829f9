//! The answers the dashboard serves.

use vstd::prelude::*;
use crate::arbitrage::{ArbitrageOpportunity, OpportunityView, opportunity_views};
use crate::config::Config;
use crate::decimal::{Decimal, decimal_text};
use crate::plan::texts;
use crate::text::copy_text;
use crate::web::state::{BotStatus, TradeRecord};

verus! {

/// The bot's status.
#[derive(Debug)]
pub struct StatusResponse {
    pub status: String,
    pub simulation_mode: bool,
    pub uptime_seconds: u64,
    pub version: String,
}

/// The opportunities of a scan.
#[derive(Debug)]
pub struct OpportunitiesResponse {
    pub opportunities: Vec<OpportunityItem>,
    pub count: usize,
    pub timestamp: String,
}

/// One opportunity, its figures written out.
#[derive(Debug)]
pub struct OpportunityItem {
    pub from_dex: String,
    pub to_dex: String,
    pub base_token: String,
    pub quote_token: String,
    pub buy_price: String,
    pub sell_price: String,
    pub profit_percent: String,
    pub profit_percent_after_fees: String,
    pub trade_amount: String,
    pub estimated_fees: String,
}

/// A page of the history of trades.
#[derive(Debug)]
pub struct HistoryResponse {
    pub trades: Vec<TradeItem>,
    pub total: usize,
    pub limit: usize,
    pub offset: usize,
}

/// Which part of the history is asked for.
#[derive(Debug)]
pub struct HistoryQuery {
    pub limit: Option<usize>,
    pub offset: Option<usize>,
    pub from_dex: Option<String>,
    pub status: Option<String>,
}

/// One trade, its figures written out.
#[derive(Debug)]
pub struct TradeItem {
    pub id: String,
    pub timestamp: String,
    pub from_dex: String,
    pub to_dex: String,
    pub base_token: String,
    pub quote_token: String,
    pub amount: String,
    pub profit_percent: String,
    pub profit_sol: String,
    pub status: String,
    pub tx_signature: Option<String>,
}

/// The network settings that may be shown.
#[derive(Debug)]
pub struct NetworkConfigResponse {
    pub rpc_url: String,
    pub commitment: String,
}

/// The venues and pairs that are watched.
#[derive(Debug)]
pub struct DexConfigResponse {
    pub enabled_dexes: Vec<String>,
    pub trading_pairs: Vec<String>,
}

/// The monitoring settings that may be shown.
#[derive(Debug)]
pub struct MonitoringConfigResponse {
    pub check_interval_ms: u64,
    pub log_level: String,
}

/// The answer to a command.
#[derive(Debug)]
pub struct ControlResponse {
    pub status: String,
    pub message: String,
}

/// One opportunity with its figures written out, as a mathematical value.
pub struct OpportunityItemView {
    pub from_dex: Seq<char>,
    pub to_dex: Seq<char>,
    pub base_token: Seq<char>,
    pub quote_token: Seq<char>,
    pub buy_price: Seq<char>,
    pub sell_price: Seq<char>,
    pub profit_percent: Seq<char>,
    pub profit_percent_after_fees: Seq<char>,
    pub trade_amount: Seq<char>,
    pub estimated_fees: Seq<char>,
}

impl View for OpportunityItem {
    type V = OpportunityItemView;

    open spec fn view(&self) -> OpportunityItemView {
        OpportunityItemView {
            from_dex: self.from_dex@,
            to_dex: self.to_dex@,
            base_token: self.base_token@,
            quote_token: self.quote_token@,
            buy_price: self.buy_price@,
            sell_price: self.sell_price@,
            profit_percent: self.profit_percent@,
            profit_percent_after_fees: self.profit_percent_after_fees@,
            trade_amount: self.trade_amount@,
            estimated_fees: self.estimated_fees@,
        }
    }
}

/// The items of a list, each as a mathematical value.
pub open spec fn opportunity_item_views(list: Seq<OpportunityItem>) -> Seq<OpportunityItemView> {
    list.map_values(|i: OpportunityItem| i@)
}

/// An opportunity with its figures written out.
pub open spec fn written_out(o: OpportunityView) -> OpportunityItemView {
    OpportunityItemView {
        from_dex: o.from_dex,
        to_dex: o.to_dex,
        base_token: o.base_token,
        quote_token: o.quote_token,
        buy_price: decimal_text(o.buy_price),
        sell_price: decimal_text(o.sell_price),
        profit_percent: decimal_text(o.profit_percent),
        profit_percent_after_fees: decimal_text(o.profit_percent_after_fees),
        trade_amount: decimal_text(o.trade_amount),
        estimated_fees: decimal_text(o.estimated_fees),
    }
}

/// Whether an opportunity is shown under the given least profit.
pub open spec fn profitable_enough(o: OpportunityView, min_profit: Option<Decimal>) -> bool {
    match min_profit {
        Some(m) => o.profit_percent_after_fees.value() >= m.value(),
        None => true,
    }
}

/// The opportunities among the first `upto` that are shown under the given
/// least profit, written out, in their order.
pub open spec fn shown_opportunities(list: Seq<OpportunityView>, min_profit: Option<Decimal>, upto: int) -> Seq<
    OpportunityItemView,
>
    decreases upto,
{
    if upto <= 0 {
        Seq::empty()
    } else {
        let before = shown_opportunities(list, min_profit, upto - 1);
        if profitable_enough(list[upto - 1], min_profit) {
            before.push(written_out(list[upto - 1]))
        } else {
            before
        }
    }
}

/// The first `limit` members of a list, or all there are.
pub open spec fn first_of<A>(list: Seq<A>, limit: int) -> Seq<A> {
    if limit <= 0 {
        Seq::empty()
    } else if limit >= list.len() {
        list
    } else {
        list.take(limit)
    }
}

/// The bot's status for the dashboard.
pub fn status_response(status: BotStatus, simulation_mode: bool, uptime_seconds: u64, version: &str) -> (r:
    StatusResponse)
    ensures
        r.status@ == status.label_spec(),
        r.simulation_mode == simulation_mode,
        r.uptime_seconds == uptime_seconds,
        r.version@ == version@,
{
    StatusResponse {
        status: copy_text(status.label()),
        simulation_mode,
        uptime_seconds,
        version: copy_text(version),
    }
}

/// An opportunity with its figures written out.
pub fn opportunity_item(o: &ArbitrageOpportunity) -> (r: OpportunityItem)
    requires
        o.wf(),
    ensures
        r@ == written_out(o@),
{
    OpportunityItem {
        from_dex: o.from_dex.clone(),
        to_dex: o.to_dex.clone(),
        base_token: o.base_token.clone(),
        quote_token: o.quote_token.clone(),
        buy_price: o.buy_price.to_text(),
        sell_price: o.sell_price.to_text(),
        profit_percent: o.profit_percent.to_text(),
        profit_percent_after_fees: o.profit_percent_after_fees.to_text(),
        trade_amount: o.trade_amount.to_text(),
        estimated_fees: o.estimated_fees.to_text(),
    }
}

/// The opportunities to show: those whose profit after fees is no less than
/// the least profit asked for, if one is asked for; of these the first
/// `limit`, or the first ten where no limit is given.
pub fn select_opportunities(
    opportunities: &Vec<ArbitrageOpportunity>,
    min_profit: Option<Decimal>,
    limit: Option<usize>,
) -> (r: Vec<OpportunityItem>)
    requires
        forall|i: int| 0 <= i < opportunities.len() ==> (#[trigger] opportunities[i]).wf(),
        min_profit matches Some(m) ==> m.wf(),
    ensures
        opportunity_item_views(r@) == first_of(
            shown_opportunities(opportunity_views(opportunities@), min_profit, opportunities.len() as int),
            match limit {
                Some(l) => l as int,
                None => 10,
            },
        ),
{
    let mut items: Vec<OpportunityItem> = Vec::new();
    let mut i: usize = 0;
    proof {
        assert(opportunity_item_views(items@) =~= Seq::<OpportunityItemView>::empty());
    }
    while i < opportunities.len()
        invariant
            i <= opportunities.len(),
            forall|k: int| 0 <= k < opportunities.len() ==> (#[trigger] opportunities[k]).wf(),
            min_profit matches Some(m) ==> m.wf(),
            opportunity_item_views(items@) == shown_opportunities(
                opportunity_views(opportunities@),
                min_profit,
                i as int,
            ),
        decreases opportunities.len() - i,
    {
        let o = &opportunities[i];
        assert(o.wf());
        assert(opportunity_views(opportunities@)[i as int] == o@);
        let keep = match min_profit {
            Some(m) => o.profit_percent_after_fees.ge(m),
            None => true,
        };
        if keep {
            let item = opportunity_item(o);
            proof {
                assert(opportunity_item_views(items@.push(item)) =~= opportunity_item_views(items@).push(
                    item@,
                ));
            }
            items.push(item);
        }
        i += 1;
    }
    let most: usize = match limit {
        Some(l) => l,
        None => 10,
    };
    let ghost all = opportunity_item_views(items@);
    items.truncate(most);
    proof {
        if most < all.len() {
            assert(opportunity_item_views(items@) =~= all.take(most as int));
        }
        if most == 0 {
            assert(opportunity_item_views(items@) =~= Seq::<OpportunityItemView>::empty());
        }
    }
    items
}

/// The answer that lists the opportunities to show.
pub fn opportunities_response(items: Vec<OpportunityItem>, timestamp: String) -> (r: OpportunitiesResponse)
    ensures
        r.opportunities == items,
        r.count == items.len(),
        r.timestamp == timestamp,
{
    OpportunitiesResponse { count: items.len(), opportunities: items, timestamp }
}

/// A copy of a list of texts.
pub fn copy_texts(list: &Vec<String>) -> (r: Vec<String>)
    ensures
        texts(r@) == texts(list@),
{
    let mut out: Vec<String> = Vec::new();
    let mut i: usize = 0;
    while i < list.len()
        invariant
            i <= list.len(),
            texts(out@) == texts(list@.take(i as int)),
        decreases list.len() - i,
    {
        let s = list[i].clone();
        proof {
            assert(texts(out@.push(s)) =~= texts(out@).push(s@));
            assert(texts(list@.take(i + 1)) =~= texts(list@.take(i as int)).push(list@[i as int]@));
        }
        out.push(s);
        i += 1;
    }
    proof {
        assert(list@.take(i as int) == list@);
    }
    out
}

/// The network settings that may be shown.
pub fn network_config_response(config: &Config) -> (r: NetworkConfigResponse)
    ensures
        r.rpc_url@ == config.network.rpc_url@,
        r.commitment@ == config.network.commitment@,
{
    NetworkConfigResponse {
        rpc_url: config.network.rpc_url.clone(),
        commitment: config.network.commitment.clone(),
    }
}

/// The venues and pairs that are watched.
pub fn dex_config_response(config: &Config) -> (r: DexConfigResponse)
    ensures
        texts(r.enabled_dexes@) == texts(config.dex.enabled_dexes@),
        texts(r.trading_pairs@) == texts(config.dex.trading_pairs@),
{
    DexConfigResponse {
        enabled_dexes: copy_texts(&config.dex.enabled_dexes),
        trading_pairs: copy_texts(&config.dex.trading_pairs),
    }
}

/// The monitoring settings that may be shown.
pub fn monitoring_config_response(config: &Config) -> (r: MonitoringConfigResponse)
    ensures
        r.check_interval_ms == config.monitoring.check_interval_ms,
        r.log_level@ == config.monitoring.log_level@,
{
    MonitoringConfigResponse {
        check_interval_ms: config.monitoring.check_interval_ms,
        log_level: config.monitoring.log_level.clone(),
    }
}

/// Sets the bot to work.
pub fn control_start(status: &mut BotStatus) -> (r: ControlResponse)
    ensures
        *final(status) == BotStatus::Running,
        r.status@ == "started"@,
        r.message@ == "Бот запущен"@,
{
    *status = BotStatus::Running;
    ControlResponse { status: copy_text("started"), message: copy_text("Бот запущен") }
}

/// Stops the bot.
pub fn control_stop(status: &mut BotStatus) -> (r: ControlResponse)
    ensures
        *final(status) == BotStatus::Stopped,
        r.status@ == "stopped"@,
        r.message@ == "Бот остановлен"@,
{
    *status = BotStatus::Stopped;
    ControlResponse { status: copy_text("stopped"), message: copy_text("Бот остановлен") }
}

/// Answers the command to read the configuration anew.
pub fn config_reload() -> (r: ControlResponse)
    ensures
        r.status@ == "reloaded"@,
        r.message@ == "Конфигурация перезагружена"@,
{
    ControlResponse { status: copy_text("reloaded"), message: copy_text("Конфигурация перезагружена") }
}

/// One trade with its figures written out, as a mathematical value.
pub struct TradeItemView {
    pub id: Seq<char>,
    pub timestamp: Seq<char>,
    pub from_dex: Seq<char>,
    pub to_dex: Seq<char>,
    pub base_token: Seq<char>,
    pub quote_token: Seq<char>,
    pub amount: Seq<char>,
    pub profit_percent: Seq<char>,
    pub profit_sol: Seq<char>,
    pub status: Seq<char>,
    pub tx_signature: Option<Seq<char>>,
}

impl View for TradeItem {
    type V = TradeItemView;

    open spec fn view(&self) -> TradeItemView {
        TradeItemView {
            id: self.id@,
            timestamp: self.timestamp@,
            from_dex: self.from_dex@,
            to_dex: self.to_dex@,
            base_token: self.base_token@,
            quote_token: self.quote_token@,
            amount: self.amount@,
            profit_percent: self.profit_percent@,
            profit_sol: self.profit_sol@,
            status: self.status@,
            tx_signature: match self.tx_signature {
                Some(t) => Some(t@),
                None => None,
            },
        }
    }
}

/// The items of a list, each as a mathematical value.
pub open spec fn trade_item_views(list: Seq<TradeItem>) -> Seq<TradeItemView> {
    list.map_values(|i: TradeItem| i@)
}

/// A trade with its figures written out.
pub open spec fn trade_written_out(t: TradeRecord) -> TradeItemView {
    TradeItemView {
        id: t.id@,
        timestamp: t.timestamp@,
        from_dex: t.from_dex@,
        to_dex: t.to_dex@,
        base_token: t.base_token@,
        quote_token: t.quote_token@,
        amount: decimal_text(t.amount),
        profit_percent: decimal_text(t.profit_percent),
        profit_sol: decimal_text(t.profit_sol),
        status: t.status.label_spec(),
        tx_signature: match t.tx_signature {
            Some(s) => Some(s@),
            None => None,
        },
    }
}

/// Whether a trade is asked for: it was bought on the venue named, if one is
/// named, and ended the way named, if a way is named.
pub open spec fn asked_for(t: TradeRecord, query: HistoryQuery) -> bool {
    &&& query.from_dex matches Some(d) ==> t.from_dex@ == d@
    &&& query.status matches Some(s) ==> t.status.label_spec() == s@
}

/// The trades among the first `upto` that are asked for, written out, in
/// their order.
pub open spec fn matching_trades(history: Seq<TradeRecord>, query: HistoryQuery, upto: int) -> Seq<TradeItemView>
    decreases upto,
{
    if upto <= 0 {
        Seq::empty()
    } else {
        let before = matching_trades(history, query, upto - 1);
        if asked_for(history[upto - 1], query) {
            before.push(trade_written_out(history[upto - 1]))
        } else {
            before
        }
    }
}

/// Whether the first text comes before the second in the order of the
/// dictionary, character by character.
pub open spec fn text_before(a: Seq<char>, b: Seq<char>) -> bool
    decreases a.len(),
{
    if b.len() == 0 {
        false
    } else if a.len() == 0 {
        true
    } else if a[0] != b[0] {
        (a[0] as u32) < (b[0] as u32)
    } else {
        text_before(a.drop_first(), b.drop_first())
    }
}

/// Where `x` goes in a list ordered by time when it was met before every
/// member of the list: in front of the first member whose time is not later
/// than that of `x`.
pub open spec fn newest_position(ordered: Seq<TradeItemView>, x: TradeItemView) -> int
    decreases ordered.len(),
{
    if ordered.len() == 0 {
        0
    } else if !text_before(x.timestamp, ordered[0].timestamp) {
        0
    } else {
        1 + newest_position(ordered.drop_first(), x)
    }
}

/// The list ordered by the text of the time, the latest first; trades of the
/// same time keep the order they had.
pub open spec fn newest_first(list: Seq<TradeItemView>) -> Seq<TradeItemView>
    decreases list.len(),
{
    if list.len() == 0 {
        Seq::empty()
    } else {
        let rest = newest_first(list.drop_first());
        rest.insert(newest_position(rest, list[0]), list[0])
    }
}

/// The place is fixed by what stands in front of it and at it.
pub proof fn lemma_newest_position_is(ordered: Seq<TradeItemView>, x: TradeItemView, p: int)
    requires
        0 <= p <= ordered.len(),
        forall|k: int| 0 <= k < p ==> text_before(x.timestamp, (#[trigger] ordered[k]).timestamp),
        p < ordered.len() ==> !text_before(x.timestamp, ordered[p].timestamp),
    ensures
        newest_position(ordered, x) == p,
    decreases ordered.len(),
{
    if ordered.len() == 0 {
    } else if p == 0 {
    } else {
        let tail = ordered.drop_first();
        assert(text_before(x.timestamp, ordered[0].timestamp));
        assert forall|k: int| 0 <= k < p - 1 implies text_before(x.timestamp, (#[trigger] tail[k]).timestamp) by {
            assert(tail[k] == ordered[k + 1]);
        }
        if p - 1 < tail.len() {
            assert(tail[p - 1] == ordered[p]);
        }
        lemma_newest_position_is(tail, x, p - 1);
    }
}

/// Ordering by time keeps as many trades as there were.
pub proof fn lemma_newest_first_len(list: Seq<TradeItemView>)
    ensures
        newest_first(list).len() == list.len(),
    decreases list.len(),
{
    if list.len() > 0 {
        lemma_newest_first_len(list.drop_first());
        lemma_newest_position_bounds(newest_first(list.drop_first()), list[0]);
    }
}

/// The place of a new member lies within the list.
pub proof fn lemma_newest_position_bounds(ordered: Seq<TradeItemView>, x: TradeItemView)
    ensures
        0 <= newest_position(ordered, x) <= ordered.len(),
    decreases ordered.len(),
{
    if ordered.len() > 0 && text_before(x.timestamp, ordered[0].timestamp) {
        lemma_newest_position_bounds(ordered.drop_first(), x);
    }
}

/// The page of a list that begins after `offset` members and holds `limit`
/// of them, or as many as are left.
pub open spec fn page_of<A>(list: Seq<A>, offset: int, limit: int) -> Seq<A> {
    let start = if offset < list.len() {
        offset
    } else {
        list.len() as int
    };
    let end = if start + limit < list.len() {
        start + limit
    } else {
        list.len() as int
    };
    list.subrange(start, end)
}

/// Whether the first text comes before the second in the order of the
/// dictionary.
pub fn comes_before(a: &str, b: &str) -> (r: bool)
    ensures
        r == text_before(a@, b@),
{
    let la = a.unicode_len();
    let lb = b.unicode_len();
    let mut i: usize = 0;
    proof {
        assert(a@.skip(0) == a@ && b@.skip(0) == b@);
    }
    while i < la && i < lb
        invariant
            i <= la,
            i <= lb,
            la == a@.len(),
            lb == b@.len(),
            text_before(a@, b@) == text_before(a@.skip(i as int), b@.skip(i as int)),
        decreases la - i,
    {
        let x = a.get_char(i);
        let y = b.get_char(i);
        proof {
            assert(a@.skip(i as int)[0] == x && b@.skip(i as int)[0] == y);
            assert(a@.skip(i as int).drop_first() == a@.skip(i + 1));
            assert(b@.skip(i as int).drop_first() == b@.skip(i + 1));
        }
        if x != y {
            return (x as u32) < (y as u32);
        }
        i += 1;
    }
    i < lb
}

/// A trade with its figures written out.
pub fn trade_item(t: &TradeRecord) -> (r: TradeItem)
    requires
        t.wf(),
    ensures
        r@ == trade_written_out(*t),
{
    TradeItem {
        id: t.id.clone(),
        timestamp: t.timestamp.clone(),
        from_dex: t.from_dex.clone(),
        to_dex: t.to_dex.clone(),
        base_token: t.base_token.clone(),
        quote_token: t.quote_token.clone(),
        amount: t.amount.to_text(),
        profit_percent: t.profit_percent.to_text(),
        profit_sol: t.profit_sol.to_text(),
        status: copy_text(t.status.label()),
        tx_signature: match &t.tx_signature {
            Some(s) => Some(s.clone()),
            None => None,
        },
    }
}

/// Whether a trade is asked for.
pub fn is_asked_for(t: &TradeRecord, query: &HistoryQuery) -> (r: bool)
    ensures
        r == asked_for(*t, *query),
{
    let venue_fits = match &query.from_dex {
        Some(d) => crate::text::same_text(t.from_dex.as_str(), d.as_str()),
        None => true,
    };
    let status_fits = match &query.status {
        Some(s) => crate::text::same_text(t.status.label(), s.as_str()),
        None => true,
    };
    venue_fits && status_fits
}

/// Orders the trades by the text of their time, the latest first; trades of
/// the same time keep their order.
pub fn sort_newest_first(trades: Vec<TradeItem>) -> (r: Vec<TradeItem>)
    ensures
        trade_item_views(r@) == newest_first(trade_item_views(trades@)),
        r.len() == trades.len(),
{
    let ghost given = trades@;
    let mut pending = trades;
    let mut out: Vec<TradeItem> = Vec::new();
    proof {
        assert(given.skip(given.len() as int) == Seq::<TradeItem>::empty());
        assert(trade_item_views(out@) =~= Seq::<TradeItemView>::empty());
        assert(trade_item_views(Seq::<TradeItem>::empty()) =~= Seq::<TradeItemView>::empty());
    }
    while pending.len() > 0
        invariant
            pending@ == given.take(pending.len() as int),
            pending.len() <= given.len(),
            trade_item_views(out@) == newest_first(trade_item_views(given.skip(pending.len() as int))),
            out.len() == given.len() - pending.len(),
        decreases pending.len(),
    {
        let ghost n = pending.len() as int;
        let x = pending.pop().unwrap();
        assert(x == given[n - 1]);
        let mut pos: usize = 0;
        while pos < out.len() && comes_before(x.timestamp.as_str(), out[pos].timestamp.as_str())
            invariant
                pos <= out.len(),
                forall|k: int|
                    0 <= k < pos ==> text_before(x@.timestamp, (#[trigger] trade_item_views(out@)[k]).timestamp),
            decreases out.len() - pos,
        {
            assert(trade_item_views(out@)[pos as int] == out@[pos as int]@);
            pos += 1;
        }
        proof {
            let rest = trade_item_views(out@);
            let tail = given.skip(n - 1);
            assert(tail.drop_first() == given.skip(n));
            assert(trade_item_views(tail).drop_first() =~= trade_item_views(given.skip(n)));
            assert(trade_item_views(tail)[0] == x@);
            if (pos as int) < rest.len() {
                assert(rest[pos as int] == out@[pos as int]@);
            }
            lemma_newest_position_is(rest, x@, pos as int);
            assert(trade_item_views(out@.insert(pos as int, x)) =~= rest.insert(pos as int, x@));
            assert(pending@ == given.take(n - 1));
        }
        out.insert(pos, x);
    }
    proof {
        assert(given.skip(0) == given);
    }
    out
}

/// The page of the history that is asked for: of the trades that fit the
/// venue and the status named, the latest first, the page that begins after
/// `offset` trades and holds `limit` of them; without an offset it begins at
/// the latest trade, without a limit it holds fifty. The answer also tells
/// how many trades fit.
pub fn get_history(history: &Vec<TradeRecord>, params: &HistoryQuery) -> (r: HistoryResponse)
    requires
        forall|i: int| 0 <= i < history.len() ==> (#[trigger] history[i]).wf(),
    ensures
        r.offset == match params.offset {
            Some(o) => o,
            None => 0,
        },
        r.limit == match params.limit {
            Some(l) => l,
            None => 50,
        },
        r.total == matching_trades(history@, *params, history.len() as int).len(),
        trade_item_views(r.trades@) == page_of(
            newest_first(matching_trades(history@, *params, history.len() as int)),
            r.offset as int,
            r.limit as int,
        ),
{
    let mut trades: Vec<TradeItem> = Vec::new();
    let mut i: usize = 0;
    proof {
        assert(trade_item_views(trades@) =~= Seq::<TradeItemView>::empty());
    }
    while i < history.len()
        invariant
            i <= history.len(),
            forall|k: int| 0 <= k < history.len() ==> (#[trigger] history[k]).wf(),
            trade_item_views(trades@) == matching_trades(history@, *params, i as int),
            trades.len() <= i,
        decreases history.len() - i,
    {
        assert(history[i as int].wf());
        if is_asked_for(&history[i], params) {
            let item = trade_item(&history[i]);
            proof {
                assert(trade_item_views(trades@.push(item)) =~= trade_item_views(trades@).push(item@));
            }
            trades.push(item);
        }
        i += 1;
    }
    let ghost fitting = trade_item_views(trades@);
    let mut sorted = sort_newest_first(trades);
    let ghost ordered = trade_item_views(sorted@);
    let total = sorted.len();
    let offset: usize = match params.offset {
        Some(o) => o,
        None => 0,
    };
    let limit: usize = match params.limit {
        Some(l) => l,
        None => 50,
    };
    let start: usize = if offset < total {
        offset
    } else {
        total
    };
    let end: usize = if limit < total - start {
        start + limit
    } else {
        total
    };
    sorted.truncate(end);
    let page = sorted.split_off(start);
    proof {
        assert(trade_item_views(page@) =~= ordered.subrange(start as int, end as int));
    }
    HistoryResponse { total, limit, offset, trades: page }
}

} // verus!
