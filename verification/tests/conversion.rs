use mangamon_sale::error::SaleError;
use mangamon_sale::price::{to_payment_amount, to_sale_amount, IDO_TOKEN_SCALE};

#[test]
fn sale_amount_for_forty_payment_units() {
    // ratio 4000 over multiplier 10000: 40_000_000 payment units buy
    // (40_000_000 * 10_000 / (4_000 * 10_000)) * 10^16 sale units.
    let r = to_sale_amount(40_000_000, 4000, 10_000);
    assert_eq!(r, Ok(100_000_000_000_000_000_000));
}

#[test]
fn sale_amount_documented_example() {
    // 250_000_000 * 10_000 = 2_500_000_000_000; divided by 40_000_000 gives
    // 62_500; denormalized: 625_000_000_000_000_000_000.
    let r = to_sale_amount(250_000_000, 4000, 10_000);
    assert_eq!(r, Ok(625_000_000_000_000_000_000));
}

#[test]
fn payment_amount_for_one_normalized_sale_unit() {
    // 10^16 sale units normalize to 1; scaled by 4_000 * 10_000 and descaled
    // by 10_000: 4_000 payment units.
    let r = to_payment_amount(10_000_000_000_000_000, 4000, 10_000);
    assert_eq!(r, Ok(4_000));
}

#[test]
fn payment_amount_truncates_partial_units() {
    // Anything below one normalization unit is worth nothing.
    let r = to_payment_amount(IDO_TOKEN_SCALE - 1, 4000, 10_000);
    assert_eq!(r, Ok(0));
}

#[test]
fn sale_amount_truncates_partial_units() {
    // 39_999_999 * 10_000 / 40_000_000 = 9_999 (truncated), then denormalized.
    let r = to_sale_amount(39_999_999, 4000, 10_000);
    assert_eq!(r, Ok(99_990_000_000_000_000_000));
}

#[test]
fn sale_amount_overflow_is_fatal() {
    let r = to_sale_amount(u128::MAX, 4000, 10_000);
    assert_eq!(r, Err(SaleError::ArithmeticOverflow));
}

#[test]
fn payment_amount_overflow_is_fatal() {
    let r = to_payment_amount(u128::MAX, u64::MAX, 10_000);
    assert_eq!(r, Err(SaleError::ArithmeticOverflow));
}

#[test]
fn round_trip_loses_less_than_one_coarse_unit() {
    // Converting to the payment amount and back rounds down to a whole
    // normalization unit: never more than the input, never a whole unit
    // less.
    let samples: Vec<u128> = vec![
        0,
        1,
        IDO_TOKEN_SCALE - 1,
        IDO_TOKEN_SCALE,
        IDO_TOKEN_SCALE + 1,
        123 * IDO_TOKEN_SCALE + 5,
        625_000_000_000_000_000_000,
        999_999_999_999_999_999_999_999,
    ];
    for &x in &samples {
        let p = to_payment_amount(x, 4000, 10_000).unwrap();
        let back = to_sale_amount(p, 4000, 10_000).unwrap();
        assert!(back <= x);
        assert!(x - back < IDO_TOKEN_SCALE);
        assert_eq!(back, (x / IDO_TOKEN_SCALE) * IDO_TOKEN_SCALE);
    }
}

#[test]
fn round_trip_with_other_ratios() {
    for &ratio in &[1u64, 3, 7, 4000, 1_000_000] {
        let x: u128 = 41 * IDO_TOKEN_SCALE + 77;
        let p = to_payment_amount(x, ratio, 10_000).unwrap();
        let back = to_sale_amount(p, ratio, 10_000).unwrap();
        assert!(back <= x);
        assert!(x - back < IDO_TOKEN_SCALE);
    }
}
