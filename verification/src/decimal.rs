//! Exact decimal numbers.
//!
//! A [`Decimal`] is a signed 96-bit mantissa together with a scale between 0
//! and 28: the number `mantissa / 10^scale`. Ordering is decided on the exact
//! value; sums, differences, products and quotients are computed by the
//! `rust_decimal` crate and enter contracts by name only.

use vstd::prelude::*;
use vstd::arithmetic::power::{pow, lemma_pow_positive};

verus! {

/// Largest scale a decimal can carry.
pub const MAX_SCALE: u32 = 28;

/// Largest magnitude of a mantissa: `2^96 - 1`.
pub const MAX_MANTISSA: i128 = 79_228_162_514_264_337_593_543_950_335;

/// The number `mantissa / 10^scale`.
#[derive(Clone, Copy, Debug)]
pub struct Decimal {
    pub mantissa: i128,
    pub scale: u32,
}

/// Outcome of comparing two decimals by value.
#[derive(Clone, Copy, Debug, PartialEq, Eq, Structural)]
pub enum Order {
    Less,
    Equal,
    Greater,
}

/// What `rust_decimal`'s checked addition returns for two well-formed operands.
pub uninterp spec fn decimal_sum(a: Decimal, b: Decimal) -> Option<Decimal>;

/// What `rust_decimal`'s checked subtraction returns for two well-formed operands.
pub uninterp spec fn decimal_difference(a: Decimal, b: Decimal) -> Option<Decimal>;

/// What `rust_decimal`'s checked multiplication returns for two well-formed operands.
pub uninterp spec fn decimal_product(a: Decimal, b: Decimal) -> Option<Decimal>;

/// What `rust_decimal`'s checked division returns for two well-formed operands.
pub uninterp spec fn decimal_quotient(a: Decimal, b: Decimal) -> Option<Decimal>;

/// How `rust_decimal` writes a well-formed decimal.
pub uninterp spec fn decimal_text(d: Decimal) -> Seq<char>;

/// What `rust_decimal` reads a text as, `None` where it reads no decimal.
pub uninterp spec fn decimal_parse(text: Seq<char>) -> Option<Decimal>;

impl Decimal {
    /// The mantissa fits in 96 bits and the scale is at most 28.
    pub open spec fn wf(self) -> bool {
        &&& -MAX_MANTISSA <= self.mantissa <= MAX_MANTISSA
        &&& self.scale <= MAX_SCALE
    }

    /// The exact value, counted in units of `10^-28`.
    pub open spec fn value(self) -> int {
        self.mantissa * pow(10, (MAX_SCALE - self.scale) as nat)
    }

    /// The sign of the value is the sign of the mantissa.
    pub proof fn lemma_sign(self)
        requires
            self.wf(),
        ensures
            self.value() > 0 <==> self.mantissa > 0,
            self.value() == 0 <==> self.mantissa == 0,
            self.value() < 0 <==> self.mantissa < 0,
    {
        let p = pow(10, (MAX_SCALE - self.scale) as nat);
        lemma_pow_positive(10, (MAX_SCALE - self.scale) as nat);
        let m = self.mantissa as int;
        assert(m > 0 ==> m * p > 0) by (nonlinear_arith)
            requires
                p > 0,
        ;
        assert(m < 0 ==> m * p < 0) by (nonlinear_arith)
            requires
                p > 0,
        ;
        assert(m == 0 ==> m * p == 0) by (nonlinear_arith);
    }

    /// The decimal `num / 10^scale`.
    pub fn new(num: i64, scale: u32) -> (r: Decimal)
        requires
            scale <= MAX_SCALE,
        ensures
            r.mantissa == num,
            r.scale == scale,
            r.wf(),
    {
        Decimal { mantissa: num as i128, scale }
    }

    /// The decimal `num / 10^scale`, or `None` where the mantissa does not fit
    /// in 96 bits or the scale exceeds 28.
    pub fn try_from_i128_with_scale(num: i128, scale: u32) -> (r: Option<Decimal>)
        ensures
            r == if (Decimal { mantissa: num, scale }).wf() {
                Some(Decimal { mantissa: num, scale })
            } else {
                None
            },
    {
        if scale > MAX_SCALE || num > MAX_MANTISSA || num < -MAX_MANTISSA {
            None
        } else {
            Some(Decimal { mantissa: num, scale })
        }
    }

    /// The whole number `n`.
    pub fn from_u64(n: u64) -> (r: Decimal)
        ensures
            r.mantissa == n,
            r.scale == 0,
            r.wf(),
    {
        Decimal { mantissa: n as i128, scale: 0 }
    }

    /// The decimal as a count of whole units: its mantissa, where the scale
    /// is zero and the mantissa is neither negative nor beyond 64 bits.
    pub open spec fn whole_units(self) -> Option<u64> {
        if self.scale == 0 && 0 <= self.mantissa <= u64::MAX {
            Some(self.mantissa as u64)
        } else {
            None
        }
    }

    /// The decimal as a count of whole units, as far as it is written without
    /// a fraction and without a sign and fits in 64 bits.
    pub fn to_whole_units(&self) -> (r: Option<u64>)
        ensures
            r == self.whole_units(),
    {
        if self.scale == 0 && self.mantissa >= 0 && self.mantissa <= u64::MAX as i128 {
            Some(self.mantissa as u64)
        } else {
            None
        }
    }

    /// Whether the mantissa and the scale are in range.
    pub fn is_well_formed(&self) -> (r: bool)
        ensures
            r == self.wf(),
    {
        self.scale <= MAX_SCALE && self.mantissa <= MAX_MANTISSA && self.mantissa >= -MAX_MANTISSA
    }

    /// Zero, with scale 0.
    pub fn zero() -> (r: Decimal)
        ensures
            r == (Decimal { mantissa: 0, scale: 0 }),
            r.wf(),
            r.value() == 0,
    {
        let r = Decimal { mantissa: 0, scale: 0 };
        proof {
            r.lemma_sign();
        }
        r
    }
}

/// Calls `rust_decimal::Decimal::checked_add`. The crate rounds where the
/// exact sum needs more than 96 bits at the operands' scale, so the contract
/// only names the result; whatever comes back is a decimal of the crate and
/// therefore well formed.
#[verifier::external_body]
fn outside_checked_add(a: Decimal, b: Decimal) -> (r: Option<Decimal>)
    requires
        a.wf(),
        b.wf(),
    ensures
        r == decimal_sum(a, b),
        r matches Some(d) ==> d.wf(),
{
    let x = rust_decimal::Decimal::from_i128_with_scale(a.mantissa, a.scale);
    let y = rust_decimal::Decimal::from_i128_with_scale(b.mantissa, b.scale);
    x.checked_add(y).map(|z| Decimal { mantissa: z.mantissa(), scale: z.scale() })
}

/// Calls `rust_decimal::Decimal::checked_sub`; the contract names the result
/// and says that it is well formed.
#[verifier::external_body]
fn outside_checked_sub(a: Decimal, b: Decimal) -> (r: Option<Decimal>)
    requires
        a.wf(),
        b.wf(),
    ensures
        r == decimal_difference(a, b),
        r matches Some(d) ==> d.wf(),
{
    let x = rust_decimal::Decimal::from_i128_with_scale(a.mantissa, a.scale);
    let y = rust_decimal::Decimal::from_i128_with_scale(b.mantissa, b.scale);
    x.checked_sub(y).map(|z| Decimal { mantissa: z.mantissa(), scale: z.scale() })
}

/// Calls `rust_decimal::Decimal::checked_mul`; the contract names the result
/// and says that it is well formed.
#[verifier::external_body]
fn outside_checked_mul(a: Decimal, b: Decimal) -> (r: Option<Decimal>)
    requires
        a.wf(),
        b.wf(),
    ensures
        r == decimal_product(a, b),
        r matches Some(d) ==> d.wf(),
{
    let x = rust_decimal::Decimal::from_i128_with_scale(a.mantissa, a.scale);
    let y = rust_decimal::Decimal::from_i128_with_scale(b.mantissa, b.scale);
    x.checked_mul(y).map(|z| Decimal { mantissa: z.mantissa(), scale: z.scale() })
}

/// Calls `rust_decimal::Decimal::checked_div`; the contract names the result
/// and says that it is well formed.
#[verifier::external_body]
fn outside_checked_div(a: Decimal, b: Decimal) -> (r: Option<Decimal>)
    requires
        a.wf(),
        b.wf(),
    ensures
        r == decimal_quotient(a, b),
        r matches Some(d) ==> d.wf(),
{
    let x = rust_decimal::Decimal::from_i128_with_scale(a.mantissa, a.scale);
    let y = rust_decimal::Decimal::from_i128_with_scale(b.mantissa, b.scale);
    x.checked_div(y).map(|z| Decimal { mantissa: z.mantissa(), scale: z.scale() })
}

/// Calls `rust_decimal::Decimal`'s `Display`; the contract names the text.
#[verifier::external_body]
fn outside_to_string(d: Decimal) -> (r: String)
    requires
        d.wf(),
    ensures
        r@ == decimal_text(d),
{
    rust_decimal::Decimal::from_i128_with_scale(d.mantissa, d.scale).to_string()
}

/// Calls `rust_decimal::Decimal`'s `FromStr`; the contract names the result
/// and says that it is well formed.
#[verifier::external_body]
fn outside_from_str(text: &str) -> (r: Option<Decimal>)
    ensures
        r == decimal_parse(text@),
        r matches Some(d) ==> d.wf(),
{
    match <rust_decimal::Decimal as std::str::FromStr>::from_str(text) {
        Ok(z) => Some(Decimal { mantissa: z.mantissa(), scale: z.scale() }),
        Err(_) => None,
    }
}

/// Calls `rust_decimal::Decimal`'s total order, which decides on the exact
/// values whatever the two scales are.
#[verifier::external_body]
fn outside_order(a: Decimal, b: Decimal) -> (r: Order)
    requires
        a.wf(),
        b.wf(),
    ensures
        r == order_of(a.value(), b.value()),
{
    let x = rust_decimal::Decimal::from_i128_with_scale(a.mantissa, a.scale);
    let y = rust_decimal::Decimal::from_i128_with_scale(b.mantissa, b.scale);
    match Ord::cmp(&x, &y) {
        std::cmp::Ordering::Less => Order::Less,
        std::cmp::Ordering::Equal => Order::Equal,
        std::cmp::Ordering::Greater => Order::Greater,
    }
}

/// How two integers stand to each other.
pub open spec fn order_of(x: int, y: int) -> Order {
    if x < y {
        Order::Less
    } else if x == y {
        Order::Equal
    } else {
        Order::Greater
    }
}

impl Decimal {
    /// The sum as `rust_decimal` computes it, `None` on overflow.
    pub fn checked_add(self, other: Decimal) -> (r: Option<Decimal>)
        requires
            self.wf(),
            other.wf(),
        ensures
            r == decimal_sum(self, other),
            r matches Some(d) ==> d.wf(),
    {
        outside_checked_add(self, other)
    }

    /// The difference as `rust_decimal` computes it, `None` on overflow.
    pub fn checked_sub(self, other: Decimal) -> (r: Option<Decimal>)
        requires
            self.wf(),
            other.wf(),
        ensures
            r == decimal_difference(self, other),
            r matches Some(d) ==> d.wf(),
    {
        outside_checked_sub(self, other)
    }

    /// The product as `rust_decimal` computes it, `None` on overflow.
    pub fn checked_mul(self, other: Decimal) -> (r: Option<Decimal>)
        requires
            self.wf(),
            other.wf(),
        ensures
            r == decimal_product(self, other),
            r matches Some(d) ==> d.wf(),
    {
        outside_checked_mul(self, other)
    }

    /// The quotient as `rust_decimal` computes it, `None` on overflow or
    /// where the divisor is zero.
    pub fn checked_div(self, other: Decimal) -> (r: Option<Decimal>)
        requires
            self.wf(),
            other.wf(),
        ensures
            r == decimal_quotient(self, other),
            r matches Some(d) ==> d.wf(),
    {
        outside_checked_div(self, other)
    }

    /// The decimal as `rust_decimal` writes it.
    pub fn to_text(&self) -> (r: String)
        requires
            self.wf(),
        ensures
            r@ == decimal_text(*self),
    {
        outside_to_string(*self)
    }

    /// The decimal that `rust_decimal` reads the text as.
    pub fn from_str(text: &str) -> (r: Option<Decimal>)
        ensures
            r == decimal_parse(text@),
            r matches Some(d) ==> d.wf(),
    {
        outside_from_str(text)
    }

    /// Compares the exact values.
    pub fn order(self, other: Decimal) -> (r: Order)
        requires
            self.wf(),
            other.wf(),
        ensures
            r == order_of(self.value(), other.value()),
    {
        outside_order(self, other)
    }

    /// `self < other`, by value.
    pub fn lt(self, other: Decimal) -> (r: bool)
        requires
            self.wf(),
            other.wf(),
        ensures
            r == (self.value() < other.value()),
    {
        match self.order(other) {
            Order::Less => true,
            _ => false,
        }
    }

    /// `self <= other`, by value.
    pub fn le(self, other: Decimal) -> (r: bool)
        requires
            self.wf(),
            other.wf(),
        ensures
            r == (self.value() <= other.value()),
    {
        match self.order(other) {
            Order::Greater => false,
            _ => true,
        }
    }

    /// `self > other`, by value.
    pub fn gt(self, other: Decimal) -> (r: bool)
        requires
            self.wf(),
            other.wf(),
        ensures
            r == (self.value() > other.value()),
    {
        match self.order(other) {
            Order::Greater => true,
            _ => false,
        }
    }

    /// `self >= other`, by value.
    pub fn ge(self, other: Decimal) -> (r: bool)
        requires
            self.wf(),
            other.wf(),
        ensures
            r == (self.value() >= other.value()),
    {
        match self.order(other) {
            Order::Less => false,
            _ => true,
        }
    }

    /// Whether both stand for the same number, whatever their scales.
    pub fn same_value(self, other: Decimal) -> (r: bool)
        requires
            self.wf(),
            other.wf(),
        ensures
            r == (self.value() == other.value()),
    {
        match self.order(other) {
            Order::Equal => true,
            _ => false,
        }
    }

    /// The smaller of the two; `self` where both stand for the same number.
    pub fn min(self, other: Decimal) -> (r: Decimal)
        requires
            self.wf(),
            other.wf(),
        ensures
            r == self.min_spec(other),
            r.wf(),
    {
        if self.gt(other) {
            other
        } else {
            self
        }
    }

    /// The smaller of the two by value, the first on a tie.
    pub open spec fn min_spec(self, other: Decimal) -> Decimal {
        if self.value() > other.value() {
            other
        } else {
            self
        }
    }

    /// The larger of the two; `self` where both stand for the same number.
    pub fn max(self, other: Decimal) -> (r: Decimal)
        requires
            self.wf(),
            other.wf(),
        ensures
            r == self.max_spec(other),
            r.wf(),
    {
        if self.lt(other) {
            other
        } else {
            self
        }
    }

    /// The larger of the two by value, the first on a tie.
    pub open spec fn max_spec(self, other: Decimal) -> Decimal {
        if self.value() < other.value() {
            other
        } else {
            self
        }
    }
}

} // verus!
