use arb_bot::arbitrage::{after_execution, ArbitrageEngine, ArbitrageOpportunity, LoopDecision};
use arb_bot::config::{
    ArbitrageConfig, Config, DexConfig, MonitoringConfig, NetworkConfig, SafetyConfig, WalletConfig,
    WebConfig,
};
use arb_bot::decimal::Decimal;
use arb_bot::dex::DexManager;
use arb_bot::execution::{
    ArbitrageError, ExecutionAction, ExecutionEvent, ExecutionState, Leg, LegFailure,
};
use arb_bot::monitor::{Monitor, MonitorEvent};

fn dec(text: &str) -> Decimal {
    Decimal::from_str(text).unwrap()
}

fn engine(simulation_mode: bool, max_failures: u32) -> ArbitrageEngine {
    let cfg = Config {
        network: NetworkConfig {
            rpc_url: "https://api.devnet.solana.com".to_string(),
            ws_url: None,
            commitment: "confirmed".to_string(),
        },
        wallet: WalletConfig { keypair_path: "/tmp/test_wallet.json".to_string() },
        arbitrage: ArbitrageConfig {
            min_profit_percent: dec("0.5"),
            max_trade_amount_sol: dec("50"),
            slippage_tolerance: dec("1.0"),
            transaction_timeout_sec: 30,
        },
        dex: DexConfig {
            enabled_dexes: vec!["raydium".to_string(), "orca".to_string()],
            trading_pairs: vec!["SOL/USDC".to_string()],
        },
        monitoring: MonitoringConfig {
            check_interval_ms: 1000,
            log_level: "info".to_string(),
            log_file: "/tmp/test.log".to_string(),
        },
        safety: SafetyConfig { simulation_mode, max_consecutive_failures: max_failures, min_balance_sol: dec("0.1") },
        web: WebConfig::with_defaults(false),
    };
    assert!(cfg.validate().is_ok());
    let manager = DexManager::new(&cfg).unwrap();
    let monitor = Monitor::new(&cfg);
    ArbitrageEngine::new(cfg, manager, monitor)
}

fn opportunity(from: &str, to: &str) -> ArbitrageOpportunity {
    ArbitrageOpportunity {
        from_dex: from.to_string(),
        to_dex: to.to_string(),
        base_token: "SOL".to_string(),
        quote_token: "USDC".to_string(),
        buy_price: dec("100"),
        sell_price: dec("105"),
        profit_percent: dec("5"),
        profit_percent_after_fees: dec("4.45"),
        trade_amount: dec("2"),
        estimated_fees: dec("0.011"),
    }
}

fn live(slippage: Option<&str>) -> ExecutionEvent {
    ExecutionEvent::LiveState {
        slippage: slippage.map(dec),
        buy_liquidity: Some(dec("1000")),
        sell_liquidity: Some(dec("1000")),
    }
}

fn fail_once(engine: &mut ArbitrageEngine) -> Result<(), ArbitrageError> {
    let step = engine.execute_arbitrage(opportunity("raydium", "orca"));
    let step = engine.resume(step.state, live(None));
    let step = engine.resume(step.state, ExecutionEvent::LegDone(Err(LegFailure::Rejected("no funds".to_string()))));
    match step.action {
        ExecutionAction::Finish(r) => r,
        other => panic!("{:?}", other),
    }
}

fn trade_once(engine: &mut ArbitrageEngine) -> Result<(), ArbitrageError> {
    let step = engine.execute_arbitrage(opportunity("raydium", "orca"));
    let step = engine.resume(step.state, live(None));
    let step = engine.resume(step.state, ExecutionEvent::LegDone(Ok("buy".to_string())));
    let step = engine.resume(step.state, ExecutionEvent::LegDone(Ok("sell".to_string())));
    match step.action {
        ExecutionAction::Finish(r) => r,
        other => panic!("{:?}", other),
    }
}

#[test]
fn simulated_run_goes_through_both_legs() {
    let mut e = engine(true, 5);
    let step = e.execute_arbitrage(opportunity("raydium", "orca"));
    match &step.action {
        ExecutionAction::CheckLiveState { buy_dex, sell_dex, base_token, quote_token, amount } => {
            assert_eq!(buy_dex, "raydium");
            assert_eq!(sell_dex, "orca");
            assert_eq!(base_token, "SOL");
            assert_eq!(quote_token, "USDC");
            assert!(amount.same_value(dec("2")));
        }
        other => panic!("{:?}", other),
    }
    let step = e.resume(step.state, live(Some("2.0")));
    match &step.action {
        ExecutionAction::SubmitSwap(order) => {
            assert_eq!(order.dex_name, "raydium");
            assert!(order.simulation_mode);
            assert_eq!(order.from_token, "USDC");
            assert_eq!(order.to_token, "SOL");
            assert!(order.amount.same_value(dec("2")));
            assert!(order.min_output.same_value(dec("0")));
            assert_eq!(order.timeout_sec, 30);
        }
        other => panic!("{:?}", other),
    }
    let step = e.resume(step.state, ExecutionEvent::LegDone(Ok("simulated_signature_raydium".to_string())));
    match &step.action {
        ExecutionAction::SubmitSwap(order) => {
            assert_eq!(order.dex_name, "orca");
            assert_eq!(order.from_token, "SOL");
            assert_eq!(order.to_token, "USDC");
            assert!(order.amount.same_value(dec("2")));
            assert!(order.min_output.same_value(dec("205.8")));
        }
        other => panic!("{:?}", other),
    }
    let step = e.resume(step.state, ExecutionEvent::LegDone(Ok("simulated_signature_orca".to_string())));
    assert!(matches!(step.action, ExecutionAction::Finish(Ok(()))));
    assert!(matches!(step.state, ExecutionState::Finished));
    assert_eq!(e.consecutive_failures(), 0);
    let events = e.take_events();
    assert_eq!(events.len(), 1);
    match &events[0] {
        MonitorEvent::Arbitrage { from_dex, to_dex, profit_percent, simulation_mode } => {
            assert_eq!(from_dex, "raydium");
            assert_eq!(to_dex, "orca");
            assert!(profit_percent.same_value(dec("4.45")));
            assert!(*simulation_mode);
        }
        other => panic!("{:?}", other),
    }
    assert!(e.take_events().is_empty());
}

#[test]
fn configured_tolerance_stands_in_for_a_live_estimate() {
    let mut e = engine(true, 5);
    let step = e.execute_arbitrage(opportunity("raydium", "orca"));
    let step = e.resume(step.state, live(None));
    let step = e.resume(step.state, ExecutionEvent::LegDone(Ok("x".to_string())));
    match &step.action {
        ExecutionAction::SubmitSwap(order) => assert!(order.min_output.same_value(dec("207.9"))),
        other => panic!("{:?}", other),
    }
    assert!(e.get_actual_slippage(None).same_value(dec("1.0")));
    assert!(e.get_actual_slippage(Some(dec("0.3"))).same_value(dec("0.3")));
}

#[test]
fn real_run_pauses_between_the_legs() {
    let mut e = engine(false, 5);
    let step = e.execute_arbitrage(opportunity("raydium", "orca"));
    let step = e.resume(step.state, live(None));
    match &step.action {
        ExecutionAction::SubmitSwap(order) => assert!(!order.simulation_mode),
        other => panic!("{:?}", other),
    }
    let step = e.resume(step.state, ExecutionEvent::LegDone(Ok("sig".to_string())));
    assert!(matches!(step.action, ExecutionAction::Pause { millis: 500 }));
    let step = e.resume(step.state, ExecutionEvent::PauseOver);
    assert!(matches!(step.action, ExecutionAction::SubmitSwap(_)));
    let step = e.resume(step.state, ExecutionEvent::LegDone(Ok("sig2".to_string())));
    assert!(matches!(step.action, ExecutionAction::Finish(Ok(()))));
}

#[test]
fn unknown_venue_ends_at_once_and_is_not_counted() {
    let mut e = engine(true, 5);
    let step = e.execute_arbitrage(opportunity("serum", "orca"));
    match step.action {
        ExecutionAction::Finish(Err(ArbitrageError::DexNotFound(name))) => assert_eq!(name, "serum"),
        other => panic!("{:?}", other),
    }
    let step = e.execute_arbitrage(opportunity("raydium", "nowhere"));
    match step.action {
        ExecutionAction::Finish(Err(ArbitrageError::DexNotFound(name))) => assert_eq!(name, "nowhere"),
        other => panic!("{:?}", other),
    }
    assert_eq!(e.consecutive_failures(), 0);
}

#[test]
fn no_live_liquidity_abandons_without_counting() {
    let mut e = engine(true, 5);
    let step = e.execute_arbitrage(opportunity("raydium", "orca"));
    let step = e.resume(
        step.state,
        ExecutionEvent::LiveState { slippage: None, buy_liquidity: Some(dec("0")), sell_liquidity: None },
    );
    assert!(matches!(step.action, ExecutionAction::Finish(Err(ArbitrageError::InsufficientLiquidity))));
    assert_eq!(e.consecutive_failures(), 0);
}

#[test]
fn failed_buy_is_counted_and_no_sell_follows() {
    let mut e = engine(true, 5);
    let r = fail_once(&mut e);
    match r {
        Err(ArbitrageError::LegFailed(Leg::Buy, reason)) => assert_eq!(reason, "no funds"),
        other => panic!("{:?}", other),
    }
    assert_eq!(e.consecutive_failures(), 1);
    assert!(e.take_events().is_empty());
}

#[test]
fn timed_out_sell_is_counted() {
    let mut e = engine(true, 5);
    let step = e.execute_arbitrage(opportunity("raydium", "orca"));
    let step = e.resume(step.state, live(None));
    let step = e.resume(step.state, ExecutionEvent::LegDone(Ok("buy".to_string())));
    let step = e.resume(step.state, ExecutionEvent::LegDone(Err(LegFailure::TimedOut)));
    assert!(matches!(step.action, ExecutionAction::Finish(Err(ArbitrageError::Timeout(Leg::Sell)))));
    assert_eq!(e.consecutive_failures(), 1);
}

#[test]
fn success_resets_the_count_of_failures() {
    let mut e = engine(true, 5);
    assert!(fail_once(&mut e).is_err());
    assert!(fail_once(&mut e).is_err());
    assert!(fail_once(&mut e).is_err());
    assert_eq!(e.consecutive_failures(), 3);
    assert!(trade_once(&mut e).is_ok());
    assert_eq!(e.consecutive_failures(), 0);
}

#[test]
fn ceiling_of_failures_is_reported_as_fatal() {
    let mut e = engine(true, 3);
    let first = fail_once(&mut e);
    assert!(matches!(first, Err(ArbitrageError::LegFailed(Leg::Buy, _))));
    assert_eq!(after_execution(&first), LoopDecision::Continue);
    let second = fail_once(&mut e);
    assert!(matches!(second, Err(ArbitrageError::LegFailed(Leg::Buy, _))));
    let third = fail_once(&mut e);
    assert!(matches!(third, Err(ArbitrageError::FailureLimitReached(3))));
    assert_eq!(after_execution(&third), LoopDecision::Halt);
    assert!(third.unwrap_err().is_fatal());
    assert_eq!(e.consecutive_failures(), 3);
    assert_eq!(after_execution(&Ok(())), LoopDecision::Continue);
}

#[test]
fn out_of_turn_events_end_the_execution() {
    let mut e = engine(true, 5);
    let step = e.execute_arbitrage(opportunity("raydium", "orca"));
    let step = e.resume(step.state, ExecutionEvent::PauseOver);
    assert!(matches!(step.action, ExecutionAction::Finish(Err(ArbitrageError::OutOfTurn))));
    assert_eq!(e.consecutive_failures(), 0);

    let step = e.execute_arbitrage(opportunity("raydium", "orca"));
    let step = e.resume(step.state, live(None));
    let step = e.resume(step.state, ExecutionEvent::PauseOver);
    assert!(matches!(step.action, ExecutionAction::Finish(Err(ArbitrageError::OutOfTurn))));
    assert_eq!(e.consecutive_failures(), 1);

    let step = e.resume(step.state, ExecutionEvent::PauseOver);
    assert!(matches!(step.action, ExecutionAction::Finish(Err(ArbitrageError::OutOfTurn))));
    assert_eq!(e.consecutive_failures(), 1);
}

#[test]
fn atomic_path_is_taken_only_where_both_venues_can() {
    let cfg_engine = engine(true, 5);
    let raydium = *cfg_engine.registry().get_dex("raydium").unwrap();
    let orca = *cfg_engine.registry().get_dex("orca").unwrap();
    assert!(!cfg_engine.can_execute_atomically(&raydium, &orca));

    let cfg = Config {
        network: NetworkConfig { rpc_url: "u".to_string(), ws_url: None, commitment: "c".to_string() },
        wallet: WalletConfig { keypair_path: "k".to_string() },
        arbitrage: ArbitrageConfig {
            min_profit_percent: dec("0.5"),
            max_trade_amount_sol: dec("50"),
            slippage_tolerance: dec("1.0"),
            transaction_timeout_sec: 30,
        },
        dex: DexConfig {
            enabled_dexes: vec!["raydium".to_string(), "orca".to_string()],
            trading_pairs: vec![],
        },
        monitoring: MonitoringConfig { check_interval_ms: 1, log_level: "i".to_string(), log_file: "f".to_string() },
        safety: SafetyConfig { simulation_mode: true, max_consecutive_failures: 5, min_balance_sol: dec("0") },
        web: WebConfig::with_defaults(false),
    };
    let mut manager = DexManager::new(&cfg).unwrap();
    manager.declare_atomic("raydium", true);
    manager.declare_atomic("orca", true);
    let monitor = Monitor::new(&cfg);
    let mut e = ArbitrageEngine::new(cfg, manager, monitor);
    let step = e.execute_arbitrage(opportunity("raydium", "orca"));
    let step = e.resume(step.state, live(None));
    match &step.action {
        ExecutionAction::SubmitAtomic { buy, sell } => {
            assert_eq!(buy.dex_name, "raydium");
            assert_eq!(sell.dex_name, "orca");
            assert!(sell.min_output.same_value(dec("207.9")));
        }
        other => panic!("{:?}", other),
    }
    let step = e.resume(step.state, ExecutionEvent::AtomicDone(Err(LegFailure::TimedOut)));
    assert!(matches!(step.action, ExecutionAction::Finish(Err(ArbitrageError::Timeout(Leg::Atomic)))));
    assert_eq!(e.consecutive_failures(), 1);
}
