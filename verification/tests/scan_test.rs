use arb_bot::arbitrage::{ArbitrageEngine, ArbitrageOpportunity};
use arb_bot::config::{
    ArbitrageConfig, Config, DexConfig, MonitoringConfig, NetworkConfig, SafetyConfig, WalletConfig,
    WebConfig,
};
use arb_bot::decimal::Decimal;
use arb_bot::dex::DexManager;
use arb_bot::monitor::Monitor;
use arb_bot::plan::{parse_trading_pair, plan_scan};
use arb_bot::ranking::rank_opportunities;
use arb_bot::scan::{assess_candidate, check_candidate, collect_opportunities, PairQuotes, VenueQuote};

fn dec(text: &str) -> Decimal {
    Decimal::from_str(text).unwrap()
}

fn config(dexes: &[&str], pairs: &[&str], min_profit: &str, max_trade: &str) -> Config {
    Config {
        network: NetworkConfig {
            rpc_url: "https://api.devnet.solana.com".to_string(),
            ws_url: None,
            commitment: "confirmed".to_string(),
        },
        wallet: WalletConfig { keypair_path: "/tmp/test_wallet.json".to_string() },
        arbitrage: ArbitrageConfig {
            min_profit_percent: dec(min_profit),
            max_trade_amount_sol: dec(max_trade),
            slippage_tolerance: dec("1.0"),
            transaction_timeout_sec: 30,
        },
        dex: DexConfig {
            enabled_dexes: dexes.iter().map(|s| s.to_string()).collect(),
            trading_pairs: pairs.iter().map(|s| s.to_string()).collect(),
        },
        monitoring: MonitoringConfig {
            check_interval_ms: 1000,
            log_level: "info".to_string(),
            log_file: "/tmp/test.log".to_string(),
        },
        safety: SafetyConfig {
            simulation_mode: true,
            max_consecutive_failures: 5,
            min_balance_sol: dec("0.1"),
        },
        web: WebConfig::with_defaults(false),
    }
}

fn engine(dexes: &[&str], pairs: &[&str], min_profit: &str, max_trade: &str) -> ArbitrageEngine {
    let cfg = config(dexes, pairs, min_profit, max_trade);
    assert!(cfg.validate().is_ok());
    let manager = DexManager::new(&cfg).unwrap();
    let monitor = Monitor::new(&cfg);
    ArbitrageEngine::new(cfg, manager, monitor)
}

fn quote(name: &str, price: Option<&str>, liquidity: Option<&str>) -> VenueQuote {
    VenueQuote {
        dex_name: name.to_string(),
        price: price.map(dec),
        liquidity: liquidity.map(dec),
    }
}

fn pair(base: &str, quote_token: &str, venues: Vec<VenueQuote>) -> PairQuotes {
    PairQuotes { base_token: base.to_string(), quote_token: quote_token.to_string(), venues }
}

fn opportunity(name: &str, net: &str) -> ArbitrageOpportunity {
    ArbitrageOpportunity {
        from_dex: name.to_string(),
        to_dex: "orca".to_string(),
        base_token: "SOL".to_string(),
        quote_token: "USDC".to_string(),
        buy_price: dec("100"),
        sell_price: dec("105"),
        profit_percent: dec("5"),
        profit_percent_after_fees: dec(net),
        trade_amount: dec("1"),
        estimated_fees: dec("0.01"),
    }
}

#[test]
fn test_find_opportunities_with_mocks() {
    let engine = engine(&["raydium", "orca"], &["SOL/USDC"], "0.5", "1.0");
    let replies = vec![pair(
        "SOL",
        "USDC",
        vec![quote("raydium", Some("100"), Some("1000")), quote("orca", Some("105"), Some("1000"))],
    )];
    let opportunities = engine.find_opportunities(&replies);
    assert_eq!(opportunities.len(), 1);
}

#[test]
fn test_error_handling_price_fetch() {
    let engine = engine(&["raydium", "orca"], &["SOL/USDC"], "0.5", "1.0");
    let replies = vec![pair("SOL", "USDC", vec![quote("raydium", None, None), quote("orca", None, None)])];
    let opportunities = engine.find_opportunities(&replies);
    assert!(opportunities.is_empty() || !opportunities.is_empty());
    assert!(opportunities.is_empty());
}

#[test]
fn test_min_profit_threshold() {
    let engine = engine(&["raydium", "orca", "serum"], &["SOL/USDC"], "1.0", "1.0");
    let replies = vec![pair(
        "SOL",
        "USDC",
        vec![
            quote("raydium", Some("100"), Some("1000")),
            quote("orca", Some("101"), Some("1000")),
            quote("serum", Some("105"), Some("1000")),
        ],
    )];
    let opportunities = engine.find_opportunities(&replies);
    assert!(!opportunities.is_empty());
    for opp in &opportunities {
        assert!(opp.profit_percent_after_fees.ge(dec("1.0")));
    }
}

#[test]
fn test_edge_cases() {
    let no_pairs = engine(&["raydium", "orca"], &[], "0.5", "1.0");
    assert!(no_pairs.plan_scan().pairs.is_empty());
    assert!(no_pairs.find_opportunities(&vec![]).is_empty());

    let one_dex = engine(&["raydium"], &["SOL/USDC"], "0.5", "1.0");
    let replies = vec![pair(
        "SOL",
        "USDC",
        vec![quote("raydium", Some("100"), Some("1000")), quote("orca", Some("105"), Some("1000"))],
    )];
    assert!(one_dex.find_opportunities(&replies).is_empty());
}

#[test]
fn worked_example_is_kept_at_one_percent_and_dropped_at_five() {
    let replies = vec![pair(
        "SOL",
        "USDC",
        vec![quote("raydium", Some("100"), Some("1000")), quote("somewhere", Some("105"), Some("1000"))],
    )];
    let kept = engine(&["raydium", "orca"], &["SOL/USDC"], "1.0", "50").find_opportunities(&replies);
    assert_eq!(kept.len(), 1);
    let o = &kept[0];
    assert_eq!(o.from_dex, "raydium");
    assert_eq!(o.to_dex, "somewhere");
    assert_eq!(o.base_token, "SOL");
    assert_eq!(o.quote_token, "USDC");
    assert!(o.buy_price.same_value(dec("100")));
    assert!(o.sell_price.same_value(dec("105")));
    assert!(o.profit_percent.same_value(dec("5.00")));
    assert!(o.profit_percent_after_fees.same_value(dec("4.50")));
    assert!(o.trade_amount.same_value(dec("50")));
    assert!(o.estimated_fees.same_value(dec("0.25")));

    let dropped = engine(&["raydium", "orca"], &["SOL/USDC"], "5.0", "50").find_opportunities(&replies);
    assert!(dropped.is_empty());
}

#[test]
fn one_price_and_one_failure_give_no_candidate() {
    let engine = engine(&["raydium", "orca"], &["SOL/USDC"], "0.5", "1.0");
    let replies = vec![pair(
        "SOL",
        "USDC",
        vec![quote("raydium", Some("100"), Some("1000")), quote("orca", None, None)],
    )];
    assert!(engine.find_opportunities(&replies).is_empty());
}

#[test]
fn one_failing_pair_does_not_hide_another() {
    let engine = engine(&["raydium", "orca"], &["SOL/USDC", "SOL/USDT"], "0.5", "1.0");
    let replies = vec![
        pair("SOL", "USDC", vec![quote("raydium", Some("100"), Some("1000")), quote("orca", None, None)]),
        pair(
            "SOL",
            "USDT",
            vec![quote("raydium", Some("100"), Some("1000")), quote("orca", Some("103"), Some("1000"))],
        ),
    ];
    let found = engine.find_opportunities(&replies);
    assert_eq!(found.len(), 1);
    assert_eq!(found[0].quote_token, "USDT");
}

#[test]
fn fewer_than_two_venues_ask_for_nothing() {
    let engine = engine(&["raydium"], &["SOL/USDC", "broken"], "0.5", "1.0");
    let plan = engine.plan_scan();
    assert!(plan.pairs.is_empty());
    assert!(plan.skipped_pairs.is_empty());
}

#[test]
fn plan_asks_every_venue_for_every_readable_pair() {
    let engine = engine(&["raydium", "orca", "serum"], &["SOL/USDC", "SOL", "BTC/USDT", "SOL/"], "0.5", "1.0");
    let plan = engine.plan_scan();
    assert_eq!(plan.pairs.len(), 2);
    assert_eq!(plan.pairs[0].base_token, "SOL");
    assert_eq!(plan.pairs[0].quote_token, "USDC");
    assert_eq!(plan.pairs[0].dex_names, vec!["raydium", "orca", "serum"]);
    assert_eq!(plan.pairs[1].base_token, "BTC");
    assert_eq!(plan.pairs[1].quote_token, "USDT");
    assert_eq!(plan.skipped_pairs, vec!["SOL", "SOL/"]);
    let direct = plan_scan(engine.registry().get_dexes(), &vec!["ETH/SOL".to_string()]);
    assert_eq!(direct.pairs.len(), 1);
}

#[test]
fn both_directions_are_considered() {
    let engine = engine(&["raydium", "orca"], &["SOL/USDC"], "0.5", "1.0");
    let cheaper_second = vec![pair(
        "SOL",
        "USDC",
        vec![quote("raydium", Some("105"), Some("1000")), quote("orca", Some("100"), Some("1000"))],
    )];
    let found = engine.find_opportunities(&cheaper_second);
    assert_eq!(found.len(), 1);
    assert_eq!(found[0].from_dex, "orca");
    assert_eq!(found[0].to_dex, "raydium");
}

#[test]
fn opportunities_come_most_profitable_first() {
    let engine = engine(&["raydium", "orca", "serum"], &["SOL/USDC"], "0.5", "1.0");
    let replies = vec![pair(
        "SOL",
        "USDC",
        vec![
            quote("raydium", Some("100"), Some("1000")),
            quote("orca", Some("102"), Some("1000")),
            quote("serum", Some("110"), Some("1000")),
        ],
    )];
    let found = engine.find_opportunities(&replies);
    assert_eq!(found.len(), 3);
    assert_eq!((found[0].from_dex.as_str(), found[0].to_dex.as_str()), ("raydium", "serum"));
    assert_eq!((found[1].from_dex.as_str(), found[1].to_dex.as_str()), ("orca", "serum"));
    assert_eq!((found[2].from_dex.as_str(), found[2].to_dex.as_str()), ("raydium", "orca"));
    for w in found.windows(2) {
        assert!(w[0].profit_percent_after_fees.ge(w[1].profit_percent_after_fees));
    }
}

#[test]
fn collecting_keeps_the_order_of_meeting() {
    let cfg = config(&["raydium", "orca", "serum"], &["SOL/USDC"], "0.5", "1.0");
    let replies = vec![pair(
        "SOL",
        "USDC",
        vec![
            quote("raydium", Some("100"), Some("1000")),
            quote("orca", Some("102"), Some("1000")),
            quote("serum", Some("110"), Some("1000")),
        ],
    )];
    let found = collect_opportunities(&cfg.arbitrage, &replies);
    assert_eq!(found.len(), 3);
    assert_eq!((found[0].from_dex.as_str(), found[0].to_dex.as_str()), ("raydium", "orca"));
    assert_eq!((found[1].from_dex.as_str(), found[1].to_dex.as_str()), ("raydium", "serum"));
    assert_eq!((found[2].from_dex.as_str(), found[2].to_dex.as_str()), ("orca", "serum"));
}

#[test]
fn ranking_is_stable() {
    let ranked = rank_opportunities(vec![
        opportunity("a", "1.0"),
        opportunity("b", "3.0"),
        opportunity("c", "1.00"),
        opportunity("d", "2.0"),
        opportunity("e", "3"),
    ]);
    let names: Vec<&str> = ranked.iter().map(|o| o.from_dex.as_str()).collect();
    assert_eq!(names, vec!["b", "e", "d", "a", "c"]);
}

#[test]
fn trade_size_stays_within_bounds() {
    let engine = engine(&["raydium", "orca"], &["SOL/USDC"], "0.5", "50");
    let replies = vec![pair(
        "SOL",
        "USDC",
        vec![quote("raydium", Some("100"), Some("30")), quote("orca", Some("105"), Some("1000"))],
    )];
    let found = engine.find_opportunities(&replies);
    assert_eq!(found.len(), 1);
    assert!(found[0].trade_amount.same_value(dec("3")));
    assert!(found[0].trade_amount.gt(Decimal::zero()));
    assert!(found[0].trade_amount.le(dec("50")));
    assert!(found[0].trade_amount.le(dec("30")));
}

#[test]
fn no_liquidity_drops_the_candidate() {
    let engine = engine(&["raydium", "orca"], &["SOL/USDC"], "0.5", "50");
    let replies = vec![pair(
        "SOL",
        "USDC",
        vec![quote("raydium", Some("100"), Some("0")), quote("orca", Some("105"), Some("1000"))],
    )];
    assert!(engine.find_opportunities(&replies).is_empty());
}

#[test]
fn prices_that_are_not_above_zero_are_passed_over() {
    let buy = quote("raydium", Some("0"), Some("1000"));
    let sell = quote("orca", Some("105"), Some("1000"));
    assert!(!check_candidate(&buy, &sell));
    assert!(!check_candidate(&sell, &quote("serum", Some("100"), None)));
    assert!(check_candidate(&quote("serum", Some("100"), None), &sell));
}

#[test]
fn assess_candidate_fills_every_field() {
    let cfg = config(&["raydium", "orca"], &["SOL/USDC"], "1.0", "50");
    let o = assess_candidate(
        &cfg.arbitrage,
        "SOL",
        "USDC",
        &quote("orca", Some("100"), None),
        &quote("serum", Some("105"), None),
    )
    .unwrap();
    assert!(o.profit_percent_after_fees.same_value(dec("4.66")));
    assert!(o.trade_amount.same_value(dec("50")));
    assert!(o.estimated_fees.same_value(dec("0.17")));
}

#[test]
fn estimated_liquidity_follows_the_price() {
    let engine = engine(&["raydium", "orca"], &["SOL/USDC"], "0.5", "50");
    assert!(engine.get_dex_liquidity("raydium", true).unwrap().same_value(dec("1000")));
    assert!(engine.get_dex_liquidity("raydium", false).unwrap().same_value(dec("0")));
    assert!(engine.get_dex_liquidity("serum", true).is_none());
}

#[test]
fn extended_integration_test_test_trading_pair_validation() {
    let valid_pairs = vec!["SOL/USDC", "BTC/USDT", "ETH/SOL"];
    for pair in valid_pairs {
        assert!(parse_trading_pair(pair).is_some(), "{}", pair);
    }
    let invalid_pairs = vec!["SOL", "SOL/USDC/BTC", ""];
    for pair in invalid_pairs {
        assert!(parse_trading_pair(pair).is_none(), "{}", pair);
    }
}

#[test]
fn security_test_test_trading_pair_validation() {
    let valid_pairs = vec!["SOL/USDC", "BTC/USDT", "ETH/SOL"];
    for pair in valid_pairs {
        let parsed = parse_trading_pair(pair).unwrap();
        assert!(!parsed.base_token.is_empty());
        assert!(!parsed.quote_token.is_empty());
        assert_eq!(format!("{}/{}", parsed.base_token, parsed.quote_token), pair);
    }
    let invalid_pairs = vec!["SOL", "SOL/USDC/BTC", "", "/", "SOL/"];
    for pair in invalid_pairs {
        assert!(parse_trading_pair(pair).is_none(), "{}", pair);
    }
    assert!(parse_trading_pair("/USDC").is_none());
}
