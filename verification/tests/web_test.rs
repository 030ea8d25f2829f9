use arb_bot::arbitrage::ArbitrageOpportunity;
use arb_bot::config::{
    ArbitrageConfig, Config, DexConfig, MonitoringConfig, NetworkConfig, SafetyConfig, WalletConfig,
    WebConfig,
};
use arb_bot::decimal::Decimal;
use arb_bot::web::auth::{check_basic_auth, verify_ws_token, verify_ws_token_with_defaults, AuthOutcome};
use arb_bot::web::handlers::{
    comes_before, config_reload, control_start, control_stop, dex_config_response, get_history,
    monitoring_config_response, network_config_response, opportunities_response, opportunity_item,
    select_opportunities, sort_newest_first, status_response, trade_item, HistoryQuery, TradeItem,
};
use arb_bot::web::state::{uptime_seconds, BotStatus, TradeRecord, TradeStatus};
use arb_bot::web::websocket::{metrics_message, status_message, ws_access, WsAccess, WsMessage, WsQuery};

fn dec(text: &str) -> Decimal {
    Decimal::from_str(text).unwrap()
}

fn opportunity(from: &str, net: &str) -> ArbitrageOpportunity {
    ArbitrageOpportunity {
        from_dex: from.to_string(),
        to_dex: "orca".to_string(),
        base_token: "SOL".to_string(),
        quote_token: "USDC".to_string(),
        buy_price: dec("100.0"),
        sell_price: dec("105"),
        profit_percent: dec("5.00"),
        profit_percent_after_fees: dec(net),
        trade_amount: dec("2"),
        estimated_fees: dec("0.011"),
    }
}

fn record(id: &str, timestamp: &str, from: &str, status: TradeStatus) -> TradeRecord {
    TradeRecord {
        id: id.to_string(),
        timestamp: timestamp.to_string(),
        from_dex: from.to_string(),
        to_dex: "orca".to_string(),
        base_token: "SOL".to_string(),
        quote_token: "USDC".to_string(),
        amount: dec("1.5"),
        profit_percent: dec("0.75"),
        profit_sol: dec("0.01125"),
        status,
        tx_signature: if status == TradeStatus::Failed { None } else { Some(format!("sig-{}", id)) },
    }
}

fn history() -> Vec<TradeRecord> {
    vec![
        record("a", "2024-01-01T10:00:00+00:00", "raydium", TradeStatus::Success),
        record("b", "2024-01-03T10:00:00+00:00", "orca", TradeStatus::Failed),
        record("c", "2024-01-02T10:00:00+00:00", "raydium", TradeStatus::Simulated),
        record("d", "2024-01-03T10:00:00+00:00", "raydium", TradeStatus::Success),
        record("e", "2024-01-04T10:00:00+00:00", "serum", TradeStatus::Success),
    ]
}

fn query(limit: Option<usize>, offset: Option<usize>, from: Option<&str>, status: Option<&str>) -> HistoryQuery {
    HistoryQuery { limit, offset, from_dex: from.map(str::to_string), status: status.map(str::to_string) }
}

fn ids(items: &[TradeItem]) -> Vec<&str> {
    items.iter().map(|t| t.id.as_str()).collect()
}

#[test]
fn basic_auth_lets_the_right_credentials_in() {
    // "admin:secret"
    let header = "Basic YWRtaW46c2VjcmV0";
    assert_eq!(check_basic_auth(Some(header), None, Some("secret")), AuthOutcome::Authorized);
    assert_eq!(check_basic_auth(Some(header), Some("admin"), Some("secret")), AuthOutcome::Authorized);
    assert_eq!(check_basic_auth(Some(header), Some("root"), Some("secret")), AuthOutcome::Unauthorized);
    assert_eq!(check_basic_auth(Some(header), None, Some("other")), AuthOutcome::Unauthorized);
}

#[test]
fn basic_auth_refuses_what_is_malformed() {
    assert_eq!(check_basic_auth(None, None, Some("secret")), AuthOutcome::Unauthorized);
    assert_eq!(check_basic_auth(Some("Bearer YWRtaW46c2VjcmV0"), None, Some("secret")), AuthOutcome::Unauthorized);
    assert_eq!(check_basic_auth(Some("Basic"), None, Some("secret")), AuthOutcome::Unauthorized);
    assert_eq!(check_basic_auth(Some("Basic !!!"), None, Some("secret")), AuthOutcome::Unauthorized);
    // "admin" without a colon
    assert_eq!(check_basic_auth(Some("Basic YWRtaW4="), None, Some("secret")), AuthOutcome::Unauthorized);
    // bytes ff fe, which are no text
    assert_eq!(check_basic_auth(Some("Basic //4="), None, Some("secret")), AuthOutcome::Unauthorized);
}

#[test]
fn basic_auth_without_a_password_set_is_a_server_error() {
    assert_eq!(check_basic_auth(Some("Basic YWRtaW46c2VjcmV0"), None, None), AuthOutcome::ServerError);
    assert_eq!(check_basic_auth(Some("Basic YWRtaW4="), None, None), AuthOutcome::Unauthorized);
}

#[test]
fn basic_auth_splits_at_the_first_colon_and_strips_every_prefix() {
    // "admin:a:b"
    assert_eq!(check_basic_auth(Some("Basic YWRtaW46YTpi"), None, Some("a:b")), AuthOutcome::Authorized);
    assert_eq!(
        check_basic_auth(Some("Basic Basic YWRtaW46c2VjcmV0"), None, Some("secret")),
        AuthOutcome::Authorized
    );
    // ":" alone: empty user and empty password
    assert_eq!(check_basic_auth(Some("Basic Og=="), Some(""), Some("")), AuthOutcome::Authorized);
}

#[test]
fn ws_token_is_the_encoded_credentials() {
    assert!(verify_ws_token("YWRtaW46c2VjcmV0", "admin", "secret"));
    assert!(!verify_ws_token("admin:secret", "admin", "secret"));
    assert!(!verify_ws_token("YWRtaW46c2VjcmV0", "admin", "other"));
    assert!(!verify_ws_token("", "admin", "secret"));
    assert!(verify_ws_token_with_defaults("YWRtaW46", None, None));
    assert!(verify_ws_token_with_defaults("YWRtaW46c2VjcmV0", None, Some("secret")));
    assert!(!verify_ws_token_with_defaults("YWRtaW46c2VjcmV0", Some("root"), Some("secret")));
}

#[test]
fn ws_access_needs_the_right_token() {
    let none = WsQuery { token: None };
    let right = WsQuery { token: Some("YWRtaW46c2VjcmV0".to_string()) };
    let wrong = WsQuery { token: Some("abc".to_string()) };
    assert_eq!(ws_access(&none, None, Some("secret")), WsAccess::TokenRequired);
    assert_eq!(ws_access(&right, None, Some("secret")), WsAccess::Granted);
    assert_eq!(ws_access(&wrong, None, Some("secret")), WsAccess::Unauthorized);
}

#[test]
fn ws_messages_carry_status_and_metrics() {
    match status_message(BotStatus::Stopped, true, 42) {
        WsMessage::Status { status, simulation_mode, uptime_seconds } => {
            assert_eq!(status, "stopped");
            assert!(simulation_mode);
            assert_eq!(uptime_seconds, 42);
        }
        other => panic!("{:?}", other),
    }
    match metrics_message(3, 2, 1, dec("0.125")) {
        WsMessage::Metrics { total_trades, successful_trades, failed_trades, total_profit_sol } => {
            assert_eq!((total_trades, successful_trades, failed_trades), (3, 2, 1));
            assert_eq!(total_profit_sol, "0.125");
        }
        other => panic!("{:?}", other),
    }
}

#[test]
fn status_labels() {
    assert_eq!(BotStatus::Running.label(), "running");
    assert_eq!(BotStatus::Stopped.label(), "stopped");
    assert_eq!(BotStatus::Error.label(), "error");
    assert_eq!(TradeStatus::Success.label(), "success");
    assert_eq!(TradeStatus::Failed.label(), "failed");
    assert_eq!(TradeStatus::Simulated.label(), "simulated");
    let r = status_response(BotStatus::Running, false, 7, "0.1.0");
    assert_eq!(r.status, "running");
    assert!(!r.simulation_mode);
    assert_eq!(r.uptime_seconds, 7);
    assert_eq!(r.version, "0.1.0");
}

#[test]
fn uptime_wraps_like_the_cast_it_stands_for() {
    assert_eq!(uptime_seconds(0), 0);
    assert_eq!(uptime_seconds(90), 90);
    assert_eq!(uptime_seconds(-1), u64::MAX);
    assert_eq!(uptime_seconds(i64::MIN), (i64::MIN) as u64);
    assert_eq!(uptime_seconds(i64::MAX), i64::MAX as u64);
}

#[test]
fn commands_set_the_status() {
    let mut status = BotStatus::Stopped;
    let started = control_start(&mut status);
    assert_eq!(status, BotStatus::Running);
    assert_eq!(started.status, "started");
    assert_eq!(started.message, "Бот запущен");
    let stopped = control_stop(&mut status);
    assert_eq!(status, BotStatus::Stopped);
    assert_eq!(stopped.status, "stopped");
    assert_eq!(stopped.message, "Бот остановлен");
    let reloaded = config_reload();
    assert_eq!(reloaded.status, "reloaded");
    assert_eq!(reloaded.message, "Конфигурация перезагружена");
}

#[test]
fn opportunities_are_written_out() {
    let item = opportunity_item(&opportunity("raydium", "4.45"));
    assert_eq!(item.from_dex, "raydium");
    assert_eq!(item.to_dex, "orca");
    assert_eq!(item.base_token, "SOL");
    assert_eq!(item.quote_token, "USDC");
    assert_eq!(item.buy_price, "100.0");
    assert_eq!(item.sell_price, "105");
    assert_eq!(item.profit_percent, "5.00");
    assert_eq!(item.profit_percent_after_fees, "4.45");
    assert_eq!(item.trade_amount, "2");
    assert_eq!(item.estimated_fees, "0.011");
}

#[test]
fn opportunities_are_filtered_then_limited() {
    let all: Vec<ArbitrageOpportunity> =
        (0..12).map(|i| opportunity(&format!("v{}", i), &format!("{}.5", 12 - i))).collect();
    let default = select_opportunities(&all, None, None);
    assert_eq!(default.len(), 10);
    assert_eq!(default[0].from_dex, "v0");
    assert_eq!(default[9].from_dex, "v9");
    let limited = select_opportunities(&all, None, Some(3));
    assert_eq!(limited.len(), 3);
    let none = select_opportunities(&all, None, Some(0));
    assert!(none.is_empty());
    let filtered = select_opportunities(&all, Some(dec("10.5")), None);
    assert_eq!(filtered.len(), 3);
    assert_eq!(filtered[2].from_dex, "v2");
    let both = select_opportunities(&all, Some(dec("10.5")), Some(2));
    assert_eq!(both.len(), 2);
    let many = select_opportunities(&all, None, Some(100));
    assert_eq!(many.len(), 12);
    let response = opportunities_response(both, "2024-01-01T00:00:00+00:00".to_string());
    assert_eq!(response.count, 2);
    assert_eq!(response.opportunities.len(), 2);
    assert_eq!(response.timestamp, "2024-01-01T00:00:00+00:00");
}

#[test]
fn trades_are_written_out() {
    let item = trade_item(&record("a", "2024-01-01T10:00:00+00:00", "raydium", TradeStatus::Simulated));
    assert_eq!(item.id, "a");
    assert_eq!(item.timestamp, "2024-01-01T10:00:00+00:00");
    assert_eq!(item.amount, "1.5");
    assert_eq!(item.profit_percent, "0.75");
    assert_eq!(item.profit_sol, "0.01125");
    assert_eq!(item.status, "simulated");
    assert_eq!(item.tx_signature.as_deref(), Some("sig-a"));
}

#[test]
fn history_comes_latest_first_and_keeps_ties_in_order() {
    let r = get_history(&history(), &query(None, None, None, None));
    assert_eq!(r.total, 5);
    assert_eq!(r.limit, 50);
    assert_eq!(r.offset, 0);
    assert_eq!(ids(&r.trades), vec!["e", "b", "d", "c", "a"]);
}

#[test]
fn history_is_filtered_by_venue_and_status() {
    let by_venue = get_history(&history(), &query(None, None, Some("raydium"), None));
    assert_eq!(by_venue.total, 3);
    assert_eq!(ids(&by_venue.trades), vec!["d", "c", "a"]);
    let by_status = get_history(&history(), &query(None, None, None, Some("success")));
    assert_eq!(ids(&by_status.trades), vec!["e", "d", "a"]);
    let both = get_history(&history(), &query(None, None, Some("raydium"), Some("success")));
    assert_eq!(ids(&both.trades), vec!["d", "a"]);
    let nothing = get_history(&history(), &query(None, None, None, Some("Success")));
    assert_eq!(nothing.total, 0);
    assert!(nothing.trades.is_empty());
}

#[test]
fn history_is_paged() {
    let page = get_history(&history(), &query(Some(2), Some(1), None, None));
    assert_eq!(page.total, 5);
    assert_eq!((page.limit, page.offset), (2, 1));
    assert_eq!(ids(&page.trades), vec!["b", "d"]);
    let tail = get_history(&history(), &query(Some(10), Some(4), None, None));
    assert_eq!(ids(&tail.trades), vec!["a"]);
    let beyond = get_history(&history(), &query(Some(10), Some(9), None, None));
    assert!(beyond.trades.is_empty());
    assert_eq!(beyond.total, 5);
    let nothing = get_history(&history(), &query(Some(0), None, None, None));
    assert!(nothing.trades.is_empty());
    let huge = get_history(&history(), &query(Some(usize::MAX), Some(usize::MAX), None, None));
    assert!(huge.trades.is_empty());
    let all = get_history(&history(), &query(Some(usize::MAX), Some(1), None, None));
    assert_eq!(all.trades.len(), 4);
}

#[test]
fn texts_are_ordered_like_a_dictionary() {
    assert!(comes_before("a", "b"));
    assert!(!comes_before("b", "a"));
    assert!(!comes_before("a", "a"));
    assert!(comes_before("", "a"));
    assert!(!comes_before("a", ""));
    assert!(comes_before("ab", "abc"));
    assert!(comes_before("2024-01-01T10:00:00+00:00", "2024-01-01T10:00:00.5+00:00"));
    assert!(comes_before("Z", "a"));
    assert!(comes_before("z", "я"));
    for (a, b) in [("abc", "abd"), ("x", "xy"), ("10", "9"), ("é", "z")] {
        assert_eq!(comes_before(a, b), a < b);
        assert_eq!(comes_before(b, a), b < a);
    }
}

#[test]
fn sorting_keeps_every_trade() {
    let items: Vec<TradeItem> = history().iter().map(trade_item).collect();
    let sorted = sort_newest_first(items);
    assert_eq!(ids(&sorted), vec!["e", "b", "d", "c", "a"]);
}

#[test]
fn configuration_is_shown_without_secrets() {
    let config = Config {
        network: NetworkConfig {
            rpc_url: "https://api.devnet.solana.com".to_string(),
            ws_url: Some("wss://api.devnet.solana.com".to_string()),
            commitment: "confirmed".to_string(),
        },
        wallet: WalletConfig { keypair_path: "/tmp/test_wallet.json".to_string() },
        arbitrage: ArbitrageConfig {
            min_profit_percent: dec("0.5"),
            max_trade_amount_sol: dec("1.0"),
            slippage_tolerance: dec("1.0"),
            transaction_timeout_sec: 30,
        },
        dex: DexConfig {
            enabled_dexes: vec!["raydium".to_string(), "orca".to_string()],
            trading_pairs: vec!["SOL/USDC".to_string()],
        },
        monitoring: MonitoringConfig {
            check_interval_ms: 1000,
            log_level: "info".to_string(),
            log_file: "/tmp/test.log".to_string(),
        },
        safety: SafetyConfig { simulation_mode: true, max_consecutive_failures: 5, min_balance_sol: dec("0.1") },
        web: WebConfig::with_defaults(false),
    };
    let network = network_config_response(&config);
    assert_eq!(network.rpc_url, "https://api.devnet.solana.com");
    assert_eq!(network.commitment, "confirmed");
    let dex = dex_config_response(&config);
    assert_eq!(dex.enabled_dexes, vec!["raydium", "orca"]);
    assert_eq!(dex.trading_pairs, vec!["SOL/USDC"]);
    let monitoring = monitoring_config_response(&config);
    assert_eq!(monitoring.check_interval_ms, 1000);
    assert_eq!(monitoring.log_level, "info");
}
