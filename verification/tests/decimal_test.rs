use arb_bot::decimal::{Decimal, Order};

fn dec(text: &str) -> Decimal {
    Decimal::from_str(text).unwrap()
}

#[test]
fn new_keeps_mantissa_and_scale() {
    let d = Decimal::new(3141, 3);
    assert_eq!(d.mantissa, 3141);
    assert_eq!(d.scale, 3);
    assert!(d.is_well_formed());
}

#[test]
fn from_str_reads_mantissa_and_scale() {
    let d = dec("0.25");
    assert_eq!(d.mantissa, 25);
    assert_eq!(d.scale, 2);
    let e = dec("-12.5");
    assert_eq!(e.mantissa, -125);
    assert_eq!(e.scale, 1);
}

#[test]
fn from_str_refuses_what_is_no_number() {
    assert!(Decimal::from_str("abc").is_none());
    assert!(Decimal::from_str("").is_none());
}

#[test]
fn to_text_writes_the_decimal() {
    assert_eq!(Decimal::new(3141, 3).to_text(), "3.141");
    assert_eq!(Decimal::new(-5, 1).to_text(), "-0.5");
    assert_eq!(Decimal::new(100, 0).to_text(), "100");
}

#[test]
fn try_from_refuses_out_of_range() {
    assert!(Decimal::try_from_i128_with_scale(1, 29).is_none());
    assert!(Decimal::try_from_i128_with_scale(79_228_162_514_264_337_593_543_950_336, 0).is_none());
    assert!(Decimal::try_from_i128_with_scale(-79_228_162_514_264_337_593_543_950_336, 0).is_none());
    let max = Decimal::try_from_i128_with_scale(79_228_162_514_264_337_593_543_950_335, 28).unwrap();
    assert!(max.is_well_formed());
}

#[test]
fn checked_add_adds() {
    let sum = dec("0.25").checked_add(dec("0.3")).unwrap();
    assert!(sum.same_value(dec("0.55")));
    assert!(!sum.same_value(dec("0.25")));
}

#[test]
fn checked_add_overflows_to_none() {
    let max = Decimal::try_from_i128_with_scale(79_228_162_514_264_337_593_543_950_335, 0).unwrap();
    assert!(max.checked_add(Decimal::new(1, 0)).is_none());
}

#[test]
fn checked_sub_subtracts() {
    let difference = dec("105").checked_sub(dec("100")).unwrap();
    assert!(difference.same_value(dec("5")));
    assert!(!difference.same_value(dec("105")));
}

#[test]
fn checked_mul_multiplies() {
    let product = dec("1000").checked_mul(dec("0.1")).unwrap();
    assert!(product.same_value(dec("100")));
    assert!(!product.same_value(dec("1000")));
}

#[test]
fn checked_div_divides() {
    let quotient = dec("5").checked_div(dec("100")).unwrap();
    assert!(quotient.same_value(dec("0.05")));
    assert!(!quotient.same_value(dec("5")));
}

#[test]
fn checked_div_by_zero_is_none() {
    assert!(dec("5").checked_div(Decimal::zero()).is_none());
}

#[test]
fn order_goes_by_value_not_by_scale() {
    assert_eq!(dec("1.0").order(dec("1.00")), Order::Equal);
    assert_eq!(dec("0.5").order(dec("0.49")), Order::Greater);
    assert_eq!(dec("-0.5").order(dec("-0.01")), Order::Less);
    assert_eq!(dec("2").order(dec("10")), Order::Less);
}

#[test]
fn comparisons_agree_with_order() {
    let a = dec("1.5");
    let b = dec("2.25");
    assert!(a.lt(b) && a.le(b) && !a.gt(b) && !a.ge(b) && !a.same_value(b));
    assert!(b.gt(a) && b.ge(a) && !b.lt(a) && !b.le(a));
    assert!(a.le(a) && a.ge(a) && a.same_value(a));
}

#[test]
fn min_and_max_keep_the_first_on_a_tie() {
    let a = dec("1.0");
    let b = dec("1.00");
    assert_eq!(a.min(b).scale, 1);
    assert_eq!(b.min(a).scale, 2);
    assert_eq!(a.max(b).scale, 1);
    assert!(dec("3").min(dec("2")).same_value(dec("2")));
    assert!(dec("3").max(dec("2")).same_value(dec("3")));
}

#[test]
fn whole_units_need_scale_zero_and_no_sign() {
    assert_eq!(Decimal::new(42, 0).to_whole_units(), Some(42));
    assert_eq!(Decimal::new(0, 0).to_whole_units(), Some(0));
    assert_eq!(Decimal::new(420, 1).to_whole_units(), None);
    assert_eq!(Decimal::new(-1, 0).to_whole_units(), None);
    let big = Decimal::try_from_i128_with_scale(18_446_744_073_709_551_616, 0).unwrap();
    assert_eq!(big.to_whole_units(), None);
    assert_eq!(Decimal::from_u64(u64::MAX).to_whole_units(), Some(u64::MAX));
}

#[test]
fn zero_is_zero() {
    let z = Decimal::zero();
    assert_eq!(z.mantissa, 0);
    assert_eq!(z.scale, 0);
    assert!(z.same_value(dec("0.000")));
}
