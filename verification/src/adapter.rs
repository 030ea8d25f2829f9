//! What a venue's adapter decides without the network: the price a pool or
//! an order book stands for, what a swap yields, what is submitted and when
//! a submission is tried again.

use vstd::prelude::*;
use vstd::arithmetic::power2::{pow2, lemma_pow2_unfold, lemma_pow2_pos};
use vstd::bytes::{spec_u64_to_le_bytes, u64_to_le_bytes};
use crate::decimal::{Decimal, decimal_quotient};
use crate::dex::DexKind;
use crate::text::{copy_text, same_text, starts_with, text_contains, contains_text};

verus! {

/// How often a submission is tried before the adapter gives up.
pub const SUBMISSION_ATTEMPTS: u32 = 3;

/// The pause before the second try of a submission, in milliseconds; each
/// later pause is twice the one before.
pub const BASE_RETRY_DELAY_MS: u64 = 100;

/// The reserves of a constant-product pool.
#[derive(Clone, Copy, Debug, PartialEq, Eq, Structural)]
pub struct PoolReserves {
    pub token_a_reserve: u64,
    pub token_b_reserve: u64,
}

/// The best prices of an order book; zero where a side is empty.
#[derive(Clone, Copy, Debug, PartialEq, Eq, Structural)]
pub struct OrderBook {
    pub best_bid_price: u64,
    pub best_ask_price: u64,
}

/// Why an adapter has no price or submits nothing.
#[derive(Clone, Copy, Debug, PartialEq, Eq, Structural)]
pub enum VenueError {
    /// A reserve the computation divides by is empty.
    EmptyReserve,
    /// The order book has neither a bid nor an ask.
    EmptyBook,
    /// The price does not fit a decimal.
    Unrepresentable,
    /// The amount is not a whole number of units that fits in 64 bits.
    AmountNotWhole,
    /// The least output is not a whole number of units that fits in 64 bits.
    MinOutputNotWhole,
    /// There is no ask to buy at.
    NoAsks,
    /// There is no bid to sell at.
    NoBids,
}

/// What an adapter does with a swap it is asked for.
#[derive(Debug)]
pub enum SwapDecision {
    /// Nothing is submitted; the reference stands for the swap that would
    /// have been.
    Simulated(String),
    /// The swap is submitted to the venue.
    Submit,
}

/// What a swap on a pool submits.
#[derive(Debug)]
pub struct SwapInstruction {
    pub amount_in: u64,
    pub min_amount_out: u64,
    /// Whether the first token of the pool is given for the second.
    pub a_to_b: bool,
    /// The instruction's data.
    pub data: Vec<u8>,
}

/// What a swap on an order book submits.
#[derive(Debug)]
pub struct OrderInstruction {
    /// Whether the order buys the base asset.
    pub buy: bool,
    pub amount: u64,
    pub price: u64,
    /// The instruction's data.
    pub data: Vec<u8>,
}

/// What follows a failed try of a submission.
#[derive(Clone, Copy, Debug, PartialEq, Eq, Structural)]
pub enum RetryDecision {
    /// Wait, then try again.
    Retry { delay_ms: u64 },
    /// Report the failure.
    GiveUp,
}

/// Whether the endpoint belongs to the development network.
pub fn is_devnet(rpc_url: &str) -> (r: bool)
    ensures
        r == contains_text(rpc_url@, "devnet"@),
{
    text_contains(rpc_url, "devnet")
}

/// The program that runs a venue on the given network.
pub open spec fn program_id_spec(kind: DexKind, devnet: bool) -> Seq<char> {
    match kind {
        DexKind::Raydium => if devnet {
            "HWy1jotHpo6UqeQxx49dpYYdQB8wj9Qk9MdxwjLvDHB8"@
        } else {
            "675kPX9MHTjS2zt1qfr1NYHuzeLXfQM9H24wFSUt1Mp8"@
        },
        DexKind::Orca => "whirLbMiicVdio4qvUfM5KAg6Ct8VwpYzGff3uctyCc"@,
        DexKind::Serum => if devnet {
            "DESVgJVGajEgKGXhb6XmqDHGz3VjdgP7rEVESBgxmroY"@
        } else {
            "srmqPvymJeFKQ4zGQed1GFppgkRHL9kaELCbyksJtPX"@
        },
    }
}

/// The program that runs a venue on the given network.
pub fn program_id(kind: DexKind, devnet: bool) -> (r: &'static str)
    ensures
        r@ == program_id_spec(kind, devnet),
{
    match kind {
        DexKind::Raydium => if devnet {
            "HWy1jotHpo6UqeQxx49dpYYdQB8wj9Qk9MdxwjLvDHB8"
        } else {
            "675kPX9MHTjS2zt1qfr1NYHuzeLXfQM9H24wFSUt1Mp8"
        },
        DexKind::Orca => "whirLbMiicVdio4qvUfM5KAg6Ct8VwpYzGff3uctyCc",
        DexKind::Serum => if devnet {
            "DESVgJVGajEgKGXhb6XmqDHGz3VjdgP7rEVESBgxmroY"
        } else {
            "srmqPvymJeFKQ4zGQed1GFppgkRHL9kaELCbyksJtPX"
        },
    }
}

/// The reserves of a pool as seen from a base asset: the base reserve first.
/// The first token of a pool is `SOL`.
pub open spec fn oriented(reserves: PoolReserves, base_token: Seq<char>) -> (u64, u64) {
    if base_token == "SOL"@ {
        (reserves.token_a_reserve, reserves.token_b_reserve)
    } else {
        (reserves.token_b_reserve, reserves.token_a_reserve)
    }
}

/// The price a constant-product pool stands for: the quote reserve divided
/// by the base reserve.
pub open spec fn pool_price(reserves: PoolReserves, base_token: Seq<char>) -> Result<Decimal, VenueError> {
    let (base_reserve, quote_reserve) = oriented(reserves, base_token);
    if base_reserve == 0 {
        Err(VenueError::EmptyReserve)
    } else {
        match decimal_quotient(
            Decimal { mantissa: quote_reserve as i128, scale: 0 },
            Decimal { mantissa: base_reserve as i128, scale: 0 },
        ) {
            Some(price) => Ok(price),
            None => Err(VenueError::Unrepresentable),
        }
    }
}

/// The price of the base asset in the quote asset on a constant-product pool.
pub fn calculate_price(reserves: &PoolReserves, base_token: &str) -> (r: Result<Decimal, VenueError>)
    ensures
        r == pool_price(*reserves, base_token@),
        r matches Ok(p) ==> p.wf(),
{
    let (base_reserve, quote_reserve) = if same_text(base_token, "SOL") {
        (reserves.token_a_reserve, reserves.token_b_reserve)
    } else {
        (reserves.token_b_reserve, reserves.token_a_reserve)
    };
    if base_reserve == 0 {
        return Err(VenueError::EmptyReserve);
    }
    match Decimal::from_u64(quote_reserve).checked_div(Decimal::from_u64(base_reserve)) {
        Some(price) => Ok(price),
        None => Err(VenueError::Unrepresentable),
    }
}

/// The price an order book stands for: the mean of the best bid and the best
/// ask, rounded down; the one there is where a side is empty.
pub open spec fn book_price(book: OrderBook) -> Result<u64, VenueError> {
    if book.best_bid_price == 0 && book.best_ask_price == 0 {
        Err(VenueError::EmptyBook)
    } else if book.best_bid_price > 0 && book.best_ask_price > 0 {
        Ok(((book.best_bid_price + book.best_ask_price) / 2int) as u64)
    } else if book.best_ask_price > 0 {
        Ok(book.best_ask_price)
    } else {
        Ok(book.best_bid_price)
    }
}

/// The price an order book stands for.
pub fn mid_price(book: &OrderBook) -> (r: Result<u64, VenueError>)
    ensures
        r == book_price(*book),
        r matches Ok(p) ==> p > 0,
{
    if book.best_bid_price == 0 && book.best_ask_price == 0 {
        Err(VenueError::EmptyBook)
    } else if book.best_bid_price > 0 && book.best_ask_price > 0 {
        let sum: u128 = book.best_bid_price as u128 + book.best_ask_price as u128;
        Ok((sum / 2) as u64)
    } else if book.best_ask_price > 0 {
        Ok(book.best_ask_price)
    } else {
        Ok(book.best_bid_price)
    }
}

/// The price of the base asset in the quote asset on an order book.
pub fn calculate_book_price(book: &OrderBook) -> (r: Result<Decimal, VenueError>)
    ensures
        r == match book_price(*book) {
            Ok(p) => Ok::<Decimal, VenueError>(Decimal { mantissa: p as i128, scale: 0 }),
            Err(e) => Err(e),
        },
        r matches Ok(p) ==> p.wf() && p.mantissa > 0,
{
    match mid_price(book) {
        Ok(p) => Ok(Decimal::from_u64(p)),
        Err(e) => Err(e),
    }
}

/// What a swap of `amount_in` yields on a constant-product pool, fees aside:
/// `amount_in * reserve_out / (reserve_in + amount_in)`, rounded down.
pub open spec fn swap_output(reserves: PoolReserves, amount_in: u64, a_to_b: bool) -> Result<u64, VenueError> {
    let (reserve_in, reserve_out) = if a_to_b {
        (reserves.token_a_reserve, reserves.token_b_reserve)
    } else {
        (reserves.token_b_reserve, reserves.token_a_reserve)
    };
    if reserve_in == 0 || reserve_out == 0 {
        Err(VenueError::EmptyReserve)
    } else {
        Ok(((amount_in * reserve_out) / (reserve_in + amount_in) as int) as u64)
    }
}

/// What a swap of `amount_in` yields on a constant-product pool, fees aside.
/// It never yields the whole reserve.
pub fn calculate_swap_output(reserves: &PoolReserves, amount_in: u64, a_to_b: bool) -> (r: Result<
    u64,
    VenueError,
>)
    ensures
        r == swap_output(*reserves, amount_in, a_to_b),
        r matches Ok(out) ==> out < (if a_to_b {
            reserves.token_b_reserve
        } else {
            reserves.token_a_reserve
        }),
{
    let (reserve_in, reserve_out) = if a_to_b {
        (reserves.token_a_reserve, reserves.token_b_reserve)
    } else {
        (reserves.token_b_reserve, reserves.token_a_reserve)
    };
    if reserve_in == 0 || reserve_out == 0 {
        return Err(VenueError::EmptyReserve);
    }
    let a: u128 = amount_in as u128;
    let out: u128 = reserve_out as u128;
    let denominator: u128 = reserve_in as u128 + a;
    proof {
        assert(a * out <= 0xffff_ffff_ffff_ffff * 0xffff_ffff_ffff_ffff) by (nonlinear_arith)
            requires
                0 <= a <= 0xffff_ffff_ffff_ffff,
                0 <= out <= 0xffff_ffff_ffff_ffff,
        ;
        assert((a * out) / (denominator as int) < out) by (nonlinear_arith)
            requires
                0 <= a < denominator,
                out > 0,
        ;
    }
    Ok(((a * out) / denominator) as u64)
}

/// The reference that stands for a swap that was not submitted.
pub open spec fn simulated_signature_spec(kind: DexKind) -> Seq<char> {
    match kind {
        DexKind::Raydium => "simulated_signature_raydium"@,
        DexKind::Orca => "simulated_signature_orca"@,
        DexKind::Serum => "simulated_signature_serum"@,
    }
}

/// A reference is synthetic where it begins with `simulated`.
pub open spec fn is_synthetic(reference: Seq<char>) -> bool {
    starts_with(reference, "simulated"@)
}

/// Whether a reference stands for a swap that was not submitted.
pub fn is_simulated_reference(reference: &str) -> (r: bool)
    ensures
        r == is_synthetic(reference@),
{
    let n = reference.unicode_len();
    let m = "simulated".unicode_len();
    if m > n {
        false
    } else {
        same_text(reference.substring_char(0, m), "simulated")
    }
}

/// The references of simulated swaps are synthetic.
pub proof fn lemma_simulated_signature_is_synthetic(kind: DexKind)
    ensures
        is_synthetic(simulated_signature_spec(kind)),
{
    reveal_strlit("simulated");
    reveal_strlit("simulated_signature_raydium");
    reveal_strlit("simulated_signature_orca");
    reveal_strlit("simulated_signature_serum");
    let s = simulated_signature_spec(kind);
    assert(s.subrange(0, 9) =~= "simulated"@);
}

/// Decides what to do with a swap. In simulation mode nothing is submitted,
/// and the swap is answered with a synthetic reference.
pub fn decide_swap(kind: DexKind, simulation_mode: bool) -> (r: SwapDecision)
    ensures
        simulation_mode ==> (r matches SwapDecision::Simulated(reference) && reference@
            == simulated_signature_spec(kind) && is_synthetic(reference@)),
        !simulation_mode ==> r is Submit,
{
    if simulation_mode {
        proof {
            lemma_simulated_signature_is_synthetic(kind);
        }
        let reference = match kind {
            DexKind::Raydium => "simulated_signature_raydium",
            DexKind::Orca => "simulated_signature_orca",
            DexKind::Serum => "simulated_signature_serum",
        };
        SwapDecision::Simulated(copy_text(reference))
    } else {
        SwapDecision::Submit
    }
}

/// The first eight bytes of a venue's instruction.
pub open spec fn discriminator(kind: DexKind) -> Seq<u8> {
    match kind {
        DexKind::Raydium => seq![0x9au8, 0x2bu8, 0x23u8, 0x1bu8, 0u8, 0u8, 0u8, 0u8],
        DexKind::Orca => seq![0x02u8, 0u8, 0u8, 0u8, 0u8, 0u8, 0u8, 0u8],
        DexKind::Serum => seq![0x03u8, 0u8, 0u8, 0u8, 0u8, 0u8, 0u8, 0u8],
    }
}

/// The data of a swap on a pool: the discriminator, the amount given and the
/// least amount taken, both as 64 bits with the low byte first.
pub open spec fn swap_data(kind: DexKind, amount_in: u64, min_amount_out: u64) -> Seq<u8> {
    discriminator(kind) + spec_u64_to_le_bytes(amount_in) + spec_u64_to_le_bytes(min_amount_out)
}

/// The data of an order on an order book: the discriminator, one byte that is
/// 1 for a buy and 0 for a sell, the amount and the price, both as 64 bits
/// with the low byte first.
pub open spec fn order_data(buy: bool, amount: u64, price: u64) -> Seq<u8> {
    discriminator(DexKind::Serum) + seq![if buy { 1u8 } else { 0u8 }] + spec_u64_to_le_bytes(amount)
        + spec_u64_to_le_bytes(price)
}

fn discriminator_bytes(kind: DexKind) -> (r: Vec<u8>)
    ensures
        r@ == discriminator(kind),
{
    let first: u8 = match kind {
        DexKind::Raydium => 0x9a,
        DexKind::Orca => 0x02,
        DexKind::Serum => 0x03,
    };
    let mut r: Vec<u8> = Vec::new();
    r.push(first);
    match kind {
        DexKind::Raydium => {
            r.push(0x2b);
            r.push(0x23);
            r.push(0x1b);
        },
        _ => {
            r.push(0);
            r.push(0);
            r.push(0);
        },
    }
    r.push(0);
    r.push(0);
    r.push(0);
    r.push(0);
    proof {
        assert(r@ =~= discriminator(kind));
    }
    r
}

/// The data of a swap on a pool.
pub fn build_swap_data(kind: DexKind, amount_in: u64, min_amount_out: u64) -> (r: Vec<u8>)
    ensures
        r@ == swap_data(kind, amount_in, min_amount_out),
        r@.len() == 24,
{
    let mut data = discriminator_bytes(kind);
    let mut amount = u64_to_le_bytes(amount_in);
    let mut least = u64_to_le_bytes(min_amount_out);
    proof {
        vstd::bytes::lemma_auto_spec_u64_to_from_le_bytes();
    }
    data.append(&mut amount);
    data.append(&mut least);
    data
}

/// The data of an order on an order book.
pub fn build_order_data(buy: bool, amount: u64, price: u64) -> (r: Vec<u8>)
    ensures
        r@ == order_data(buy, amount, price),
        r@.len() == 25,
{
    let mut data = discriminator_bytes(DexKind::Serum);
    let mut quantity = u64_to_le_bytes(amount);
    let mut limit = u64_to_le_bytes(price);
    proof {
        vstd::bytes::lemma_auto_spec_u64_to_from_le_bytes();
    }
    data.push(if buy { 1 } else { 0 });
    data.append(&mut quantity);
    data.append(&mut limit);
    data
}

/// Works out what a swap on a pool submits. The amount and the least output
/// must be whole numbers of units; `SOL` is the first token of a pool.
pub fn prepare_swap(kind: DexKind, from_token: &str, amount: Decimal, min_output: Decimal) -> (r: Result<
    SwapInstruction,
    VenueError,
>)
    ensures
        match r {
            Ok(i) => {
                &&& amount.whole_units() == Some(i.amount_in)
                &&& min_output.whole_units() == Some(i.min_amount_out)
                &&& i.a_to_b == (from_token@ == "SOL"@)
                &&& i.data@ == swap_data(kind, i.amount_in, i.min_amount_out)
            },
            Err(e) => if amount.whole_units() is None {
                e == VenueError::AmountNotWhole
            } else {
                e == VenueError::MinOutputNotWhole && min_output.whole_units() is None
            },
        },
{
    let amount_in = match amount.to_whole_units() {
        Some(a) => a,
        None => {
            return Err(VenueError::AmountNotWhole);
        },
    };
    let min_amount_out = match min_output.to_whole_units() {
        Some(m) => m,
        None => {
            return Err(VenueError::MinOutputNotWhole);
        },
    };
    Ok(
        SwapInstruction {
            amount_in,
            min_amount_out,
            a_to_b: same_text(from_token, "SOL"),
            data: build_swap_data(kind, amount_in, min_amount_out),
        },
    )
}

/// The order that a swap on an order book places, given the book: giving
/// anything but `SOL` buys at the best ask, giving `SOL` sells at the best
/// bid.
pub open spec fn order_for(book: OrderBook, from_token: Seq<char>, amount: Decimal, min_output: Decimal) -> Result<
    (bool, u64, u64),
    VenueError,
> {
    let buy = from_token != "SOL"@;
    match (amount.whole_units(), min_output.whole_units()) {
        (None, _) => Err(VenueError::AmountNotWhole),
        (Some(_), None) => Err(VenueError::MinOutputNotWhole),
        (Some(quantity), Some(_)) => if buy {
            if book.best_ask_price > 0 {
                Ok((true, quantity, book.best_ask_price))
            } else {
                Err(VenueError::NoAsks)
            }
        } else {
            if book.best_bid_price > 0 {
                Ok((false, quantity, book.best_bid_price))
            } else {
                Err(VenueError::NoBids)
            }
        },
    }
}

/// Works out what a swap on an order book submits.
pub fn prepare_order(book: &OrderBook, from_token: &str, amount: Decimal, min_output: Decimal) -> (r: Result<
    OrderInstruction,
    VenueError,
>)
    ensures
        match r {
            Ok(i) => order_for(*book, from_token@, amount, min_output) == Ok::<
                (bool, u64, u64),
                VenueError,
            >((i.buy, i.amount, i.price)) && i.data@ == order_data(i.buy, i.amount, i.price),
            Err(e) => order_for(*book, from_token@, amount, min_output) == Err::<
                (bool, u64, u64),
                VenueError,
            >(e),
        },
{
    let quantity = match amount.to_whole_units() {
        Some(a) => a,
        None => {
            return Err(VenueError::AmountNotWhole);
        },
    };
    if min_output.to_whole_units().is_none() {
        return Err(VenueError::MinOutputNotWhole);
    }
    let buy = !same_text(from_token, "SOL");
    let price = if buy {
        if book.best_ask_price > 0 {
            book.best_ask_price
        } else {
            return Err(VenueError::NoAsks);
        }
    } else {
        if book.best_bid_price > 0 {
            book.best_bid_price
        } else {
            return Err(VenueError::NoBids);
        }
    };
    Ok(OrderInstruction { buy, amount: quantity, price, data: build_order_data(buy, quantity, price) })
}

/// The pause after the try numbered `attempt`, counting from zero, in
/// milliseconds: 100 after the first, and twice as long after each further
/// one, as far as 64 bits hold it.
pub open spec fn backoff_delay(attempt: nat) -> nat {
    let delay = BASE_RETRY_DELAY_MS * pow2(attempt);
    if delay > u64::MAX {
        u64::MAX as nat
    } else {
        delay as nat
    }
}

/// What follows the failure of the try numbered `attempt`, counting from
/// zero, of `max_retries` tries in all.
pub open spec fn retry_decision(attempt: u32, max_retries: u32) -> RetryDecision {
    if attempt + 1 < max_retries {
        RetryDecision::Retry { delay_ms: backoff_delay(attempt as nat) as u64 }
    } else {
        RetryDecision::GiveUp
    }
}

/// Whether a submission is tried at all: not with zero tries allowed.
pub fn should_attempt(max_retries: u32) -> (r: bool)
    ensures
        r == (max_retries > 0),
{
    max_retries > 0
}

/// Decides what follows the failure of the try numbered `attempt`: another
/// try after a pause that doubles each time, or giving up after the last try.
pub fn after_failed_attempt(attempt: u32, max_retries: u32) -> (r: RetryDecision)
    ensures
        r == retry_decision(attempt, max_retries),
{
    if attempt >= max_retries || attempt + 1 >= max_retries {
        return RetryDecision::GiveUp;
    }
    let mut delay: u64 = BASE_RETRY_DELAY_MS;
    let mut i: u32 = 0;
    proof {
        assert(pow2(0) == 1) by {
            vstd::arithmetic::power2::lemma2_to64();
        }
    }
    while i < attempt
        invariant
            i <= attempt,
            delay == backoff_delay(i as nat),
            delay >= 1,
        decreases attempt - i,
    {
        proof {
            lemma_pow2_unfold((i + 1) as nat);
            lemma_pow2_pos(i as nat);
            assert(pow2((i + 1) as nat) == 2 * pow2(i as nat));
            assert(BASE_RETRY_DELAY_MS * pow2((i + 1) as nat) == 2 * (BASE_RETRY_DELAY_MS * pow2(i as nat)))
                by (nonlinear_arith)
                requires
                    pow2((i + 1) as nat) == 2 * pow2(i as nat),
            ;
        }
        delay = if delay > u64::MAX / 2 {
            u64::MAX
        } else {
            delay * 2
        };
        i += 1;
    }
    RetryDecision::Retry { delay_ms: delay }
}

/// The address that stands for a pool or a market for as long as none is
/// looked up.
pub fn pool_address(kind: DexKind, devnet: bool) -> (r: &'static str)
    ensures
        r@ == "11111111111111111111111111111111"@,
{
    "11111111111111111111111111111111"
}

/// The mint of the first token of a pool, `SOL`.
pub fn base_mint() -> (r: &'static str)
    ensures
        r@ == "So11111111111111111111111111111111111111112"@,
{
    "So11111111111111111111111111111111111111112"
}

/// The mint of the second token of a pool, `USDC`.
pub fn quote_mint() -> (r: &'static str)
    ensures
        r@ == "EPjFWdd5AufqSSqeM2qN1xzybapC8G4wEGGkZwyTDt1v"@,
{
    "EPjFWdd5AufqSSqeM2qN1xzybapC8G4wEGGkZwyTDt1v"
}

/// What an account stands for whose layout is not read: nothing, whether the
/// account was found or not.
pub fn unread_account_value(account_found: bool) -> (r: u64)
    ensures
        r == 0,
{
    0
}

/// A coarse square-root price of a pool with both reserves filled:
/// `(b * 10^18 / a) * 2^32 / 10^18`, each division rounded down; zero where
/// a reserve is empty; `None` where the product does not fit in 128 bits.
pub open spec fn sqrt_price_spec(reserves: PoolReserves) -> Option<u128> {
    if reserves.token_a_reserve > 0 && reserves.token_b_reserve > 0 {
        let ratio = (reserves.token_b_reserve * 1_000_000_000_000_000_000) / (
        reserves.token_a_reserve as int);
        if ratio * 0x1_0000_0000 > u128::MAX {
            None
        } else {
            Some(((ratio * 0x1_0000_0000) / 1_000_000_000_000_000_000int) as u128)
        }
    } else {
        Some(0)
    }
}

/// A coarse square-root price of a pool.
pub fn approximate_sqrt_price(reserves: &PoolReserves) -> (r: Option<u128>)
    ensures
        r == sqrt_price_spec(*reserves),
{
    if reserves.token_a_reserve > 0 && reserves.token_b_reserve > 0 {
        let b: u128 = reserves.token_b_reserve as u128;
        let a: u128 = reserves.token_a_reserve as u128;
        proof {
            assert(b * 1_000_000_000_000_000_000 <= 0xffff_ffff_ffff_ffff * 1_000_000_000_000_000_000)
                by (nonlinear_arith)
                requires
                    0 <= b <= 0xffff_ffff_ffff_ffff,
            ;
        }
        let ratio: u128 = (b * 1_000_000_000_000_000_000) / a;
        match ratio.checked_mul(0x1_0000_0000) {
            Some(scaled) => Some(scaled / 1_000_000_000_000_000_000),
            None => None,
        }
    } else {
        Some(0)
    }
}

} // verus!
