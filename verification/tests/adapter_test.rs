use arb_bot::adapter::{
    after_failed_attempt, approximate_sqrt_price, build_order_data, build_swap_data,
    calculate_book_price, calculate_price, calculate_swap_output, decide_swap, is_devnet,
    is_simulated_reference, mid_price, pool_address, prepare_order, prepare_swap, program_id,
    should_attempt, unread_account_value, OrderBook, PoolReserves, RetryDecision, SwapDecision,
    VenueError,
};
use arb_bot::decimal::Decimal;
use arb_bot::dex::DexKind;

fn dec(text: &str) -> Decimal {
    Decimal::from_str(text).unwrap()
}

fn simulated(kind: DexKind) -> String {
    match decide_swap(kind, true) {
        SwapDecision::Simulated(reference) => reference,
        SwapDecision::Submit => panic!("submitted in simulation mode"),
    }
}

#[test]
fn test_devnet_raydium_swap_simulation() {
    let signature = simulated(DexKind::Raydium);
    assert!(signature.contains("simulated"));
    assert_eq!(signature, "simulated_signature_raydium");
}

#[test]
fn test_devnet_orca_swap_simulation() {
    let signature = simulated(DexKind::Orca);
    assert!(signature.contains("simulated"));
    assert_eq!(signature, "simulated_signature_orca");
}

#[test]
fn test_devnet_serum_swap_simulation() {
    let signature = simulated(DexKind::Serum);
    assert!(signature.contains("simulated"));
    assert_eq!(signature, "simulated_signature_serum");
}

#[test]
fn outside_simulation_the_swap_is_submitted() {
    assert!(matches!(decide_swap(DexKind::Raydium, false), SwapDecision::Submit));
}

#[test]
fn synthetic_references_are_recognised() {
    assert!(is_simulated_reference("simulated_signature_orca"));
    assert!(is_simulated_reference("simulated"));
    assert!(!is_simulated_reference("simulate"));
    assert!(!is_simulated_reference("5VERv8NMvzbJMEkV8xnrLkEaWRtSz9CosKDYjCJjBRnb"));
    assert!(!is_simulated_reference(""));
}

#[test]
fn devnet_is_told_by_the_endpoint() {
    assert!(is_devnet("https://api.devnet.solana.com"));
    assert!(!is_devnet("https://api.mainnet-beta.solana.com"));
    assert!(!is_devnet(""));
    assert!(is_devnet("devnet"));
}

#[test]
fn program_ids_by_network() {
    assert_eq!(program_id(DexKind::Raydium, true), "HWy1jotHpo6UqeQxx49dpYYdQB8wj9Qk9MdxwjLvDHB8");
    assert_eq!(program_id(DexKind::Raydium, false), "675kPX9MHTjS2zt1qfr1NYHuzeLXfQM9H24wFSUt1Mp8");
    assert_eq!(program_id(DexKind::Orca, true), program_id(DexKind::Orca, false));
    assert_eq!(program_id(DexKind::Serum, true), "DESVgJVGajEgKGXhb6XmqDHGz3VjdgP7rEVESBgxmroY");
    assert_eq!(program_id(DexKind::Serum, false), "srmqPvymJeFKQ4zGQed1GFppgkRHL9kaELCbyksJtPX");
    assert_eq!(pool_address(DexKind::Orca, true), "11111111111111111111111111111111");
    assert_eq!(unread_account_value(true), 0);
    assert_eq!(unread_account_value(false), 0);
}

#[test]
fn pool_price_is_quote_over_base() {
    let pool = PoolReserves { token_a_reserve: 4, token_b_reserve: 10 };
    assert!(calculate_price(&pool, "SOL").unwrap().same_value(dec("2.5")));
    assert!(calculate_price(&pool, "USDC").unwrap().same_value(dec("0.4")));
}

#[test]
fn pool_price_needs_a_base_reserve() {
    let pool = PoolReserves { token_a_reserve: 0, token_b_reserve: 10 };
    assert_eq!(calculate_price(&pool, "SOL").unwrap_err(), VenueError::EmptyReserve);
    assert!(calculate_price(&pool, "USDC").unwrap().same_value(dec("0")));
}

#[test]
fn book_price_is_the_mid_price() {
    assert_eq!(mid_price(&OrderBook { best_bid_price: 10, best_ask_price: 13 }), Ok(11));
    assert_eq!(mid_price(&OrderBook { best_bid_price: 0, best_ask_price: 13 }), Ok(13));
    assert_eq!(mid_price(&OrderBook { best_bid_price: 10, best_ask_price: 0 }), Ok(10));
    assert_eq!(mid_price(&OrderBook { best_bid_price: 0, best_ask_price: 0 }), Err(VenueError::EmptyBook));
    assert_eq!(mid_price(&OrderBook { best_bid_price: u64::MAX, best_ask_price: u64::MAX }), Ok(u64::MAX));
    let price = calculate_book_price(&OrderBook { best_bid_price: 10, best_ask_price: 13 }).unwrap();
    assert!(price.same_value(dec("11")));
}

#[test]
fn swap_output_follows_the_constant_product() {
    let pool = PoolReserves { token_a_reserve: 1000, token_b_reserve: 2000 };
    assert_eq!(calculate_swap_output(&pool, 1000, true), Ok(1000));
    assert_eq!(calculate_swap_output(&pool, 1000, false), Ok(333));
    assert_eq!(calculate_swap_output(&pool, 0, true), Ok(0));
    let full = PoolReserves { token_a_reserve: u64::MAX, token_b_reserve: u64::MAX };
    assert_eq!(calculate_swap_output(&full, u64::MAX, true), Ok(u64::MAX / 2));
    let empty = PoolReserves { token_a_reserve: 0, token_b_reserve: 2000 };
    assert_eq!(calculate_swap_output(&empty, 5, true), Err(VenueError::EmptyReserve));
    assert_eq!(calculate_swap_output(&empty, 5, false), Err(VenueError::EmptyReserve));
}

#[test]
fn sqrt_price_of_reserves() {
    assert_eq!(approximate_sqrt_price(&PoolReserves { token_a_reserve: 0, token_b_reserve: 5 }), Some(0));
    assert_eq!(
        approximate_sqrt_price(&PoolReserves { token_a_reserve: 1, token_b_reserve: 4 }),
        Some(4u128 << 32)
    );
    assert_eq!(
        approximate_sqrt_price(&PoolReserves { token_a_reserve: 1, token_b_reserve: u64::MAX }),
        None
    );
}

#[test]
fn swap_data_is_laid_out_low_byte_first() {
    let data = build_swap_data(DexKind::Raydium, 0x0102, 1);
    assert_eq!(
        data,
        vec![0x9a, 0x2b, 0x23, 0x1b, 0, 0, 0, 0, 0x02, 0x01, 0, 0, 0, 0, 0, 0, 1, 0, 0, 0, 0, 0, 0, 0]
    );
    let orca = build_swap_data(DexKind::Orca, u64::MAX, 0);
    assert_eq!(&orca[..8], &[0x02, 0, 0, 0, 0, 0, 0, 0]);
    assert_eq!(&orca[8..16], &[0xff; 8]);
    assert_eq!(&orca[16..], &[0; 8]);
}

#[test]
fn order_data_carries_the_side() {
    let buy = build_order_data(true, 5, 7);
    assert_eq!(buy.len(), 25);
    assert_eq!(&buy[..9], &[0x03, 0, 0, 0, 0, 0, 0, 0, 1]);
    assert_eq!(buy[9], 5);
    assert_eq!(buy[17], 7);
    assert_eq!(build_order_data(false, 5, 7)[8], 0);
}

#[test]
fn prepare_swap_needs_whole_amounts() {
    let ok = prepare_swap(DexKind::Raydium, "SOL", dec("100"), dec("95")).unwrap();
    assert_eq!(ok.amount_in, 100);
    assert_eq!(ok.min_amount_out, 95);
    assert!(ok.a_to_b);
    assert_eq!(ok.data, build_swap_data(DexKind::Raydium, 100, 95));
    assert!(!prepare_swap(DexKind::Orca, "USDC", dec("1"), dec("0")).unwrap().a_to_b);
    assert_eq!(
        prepare_swap(DexKind::Raydium, "SOL", dec("1.5"), dec("95")).unwrap_err(),
        VenueError::AmountNotWhole
    );
    assert_eq!(
        prepare_swap(DexKind::Raydium, "SOL", dec("1"), dec("0.5")).unwrap_err(),
        VenueError::MinOutputNotWhole
    );
    assert_eq!(
        prepare_swap(DexKind::Raydium, "SOL", dec("-1"), dec("0.5")).unwrap_err(),
        VenueError::AmountNotWhole
    );
}

#[test]
fn prepare_order_picks_the_side_and_the_price() {
    let book = OrderBook { best_bid_price: 99, best_ask_price: 101 };
    let sell = prepare_order(&book, "SOL", dec("3"), dec("0")).unwrap();
    assert!(!sell.buy);
    assert_eq!((sell.amount, sell.price), (3, 99));
    let buy = prepare_order(&book, "USDC", dec("3"), dec("0")).unwrap();
    assert!(buy.buy);
    assert_eq!((buy.amount, buy.price), (3, 101));
    assert_eq!(buy.data, build_order_data(true, 3, 101));
    let no_asks = OrderBook { best_bid_price: 99, best_ask_price: 0 };
    assert_eq!(prepare_order(&no_asks, "USDC", dec("3"), dec("0")).unwrap_err(), VenueError::NoAsks);
    let no_bids = OrderBook { best_bid_price: 0, best_ask_price: 101 };
    assert_eq!(prepare_order(&no_bids, "SOL", dec("3"), dec("0")).unwrap_err(), VenueError::NoBids);
    assert_eq!(prepare_order(&book, "SOL", dec("0.3"), dec("0")).unwrap_err(), VenueError::AmountNotWhole);
    assert_eq!(prepare_order(&book, "SOL", dec("3"), dec("0.1")).unwrap_err(), VenueError::MinOutputNotWhole);
}

#[test]
fn retries_back_off_and_stop() {
    assert!(should_attempt(3));
    assert!(!should_attempt(0));
    assert_eq!(after_failed_attempt(0, 3), RetryDecision::Retry { delay_ms: 100 });
    assert_eq!(after_failed_attempt(1, 3), RetryDecision::Retry { delay_ms: 200 });
    assert_eq!(after_failed_attempt(2, 3), RetryDecision::GiveUp);
    assert_eq!(after_failed_attempt(2, 5), RetryDecision::Retry { delay_ms: 400 });
    assert_eq!(after_failed_attempt(0, 1), RetryDecision::GiveUp);
    assert_eq!(after_failed_attempt(0, 0), RetryDecision::GiveUp);
    assert_eq!(after_failed_attempt(7, 3), RetryDecision::GiveUp);
    assert_eq!(after_failed_attempt(100, u32::MAX), RetryDecision::Retry { delay_ms: u64::MAX });
    assert_eq!(after_failed_attempt(u32::MAX, u32::MAX), RetryDecision::GiveUp);
}
