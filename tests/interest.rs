use wowswap::interest::{borrow_rate, calculate_compounded};
use wowswap::liquidity::{calculate_share, mint_amount};
use wowswap::math::{Rate, Ray, TokenAmount, UnixTimestamp, RAY};

/// 1% per second, at rate scale.
const ONE_PERCENT: u128 = 10_000_000_000_000_000_000_000_000;

fn ts(v: u64) -> UnixTimestamp {
    UnixTimestamp::new(v)
}

#[test]
fn compounding_over_no_time_is_identity() {
    let c = calculate_compounded(Rate::new(ONE_PERCENT), ts(50), ts(50));
    assert_eq!(c, Some(Ray::new(RAY)));
}

#[test]
fn compounding_matches_binomial_terms() {
    // 1.01^2 and 1.01^3 are reached exactly by the series
    let two = calculate_compounded(Rate::new(ONE_PERCENT), ts(10), ts(12));
    assert_eq!(two, Some(Ray::new(1_020_100_000_000_000_000)));
    let three = calculate_compounded(Rate::new(ONE_PERCENT), ts(10), ts(13));
    assert_eq!(three, Some(Ray::new(1_030_301_000_000_000_000)));
}

#[test]
fn compounding_truncates_after_six_terms() {
    // 1.01^10 by its first six binomial terms
    let ten = calculate_compounded(Rate::new(ONE_PERCENT), ts(0), ts(10)).unwrap();
    assert_eq!(ten, Ray::new(1_104_622_125_200_000_000));
}

#[test]
fn compounding_rejects_negative_interval() {
    assert_eq!(calculate_compounded(Rate::new(ONE_PERCENT), ts(20), ts(19)), None);
}

#[test]
fn compounding_is_monotone_in_time() {
    let rate = Rate::new(3_170_979_198_376_458_650);
    let mut previous = calculate_compounded(rate, ts(1_000), ts(1_000)).unwrap();
    for end in [1_001u64, 1_060, 3_600, 86_400, 2_592_000, 31_536_000] {
        let c = calculate_compounded(rate, ts(1_000), ts(1_000 + end)).unwrap();
        assert!(c.into_inner() >= previous.into_inner());
        previous = c;
    }
}

#[test]
fn compounding_overflow_is_none() {
    assert_eq!(calculate_compounded(Rate::new(u128::MAX), ts(0), ts(u64::MAX)), None);
}

const BASE: u128 = 1_000_000_000_000_000_000_000_000; // ray 1e15
const OPTIMAL_SLOPE: u128 = 40_000_000_000_000_000;
const EXCESS_SLOPE: u128 = 1_000_000_000_000_000_000;
const OPTIMAL: u128 = 800_000_000_000_000_000;

fn rate_at(debt: u64, liquidity: u64) -> Option<Rate> {
    borrow_rate(
        TokenAmount::new(debt),
        TokenAmount::new(liquidity),
        Rate::new(BASE),
        Ray::new(EXCESS_SLOPE),
        Ray::new(OPTIMAL_SLOPE),
        Ray::new(OPTIMAL),
    )
}

#[test]
fn borrow_rate_below_optimal() {
    // utilization 0.5: base + 0.04 * 0.5 / 0.8
    assert_eq!(rate_at(500, 500), Some(Rate::new(26_000_000_000_000_000_000_000_000)));
    assert_eq!(rate_at(0, 1_000), Some(Rate::new(BASE)));
}

#[test]
fn borrow_rate_above_optimal() {
    // utilization 0.9: base + 0.04 + 1.0 * 0.1 / 0.2
    assert_eq!(rate_at(900, 100), Some(Rate::new(541_000_000_000_000_000_000_000_000)));
}

#[test]
fn borrow_rate_meets_at_optimal() {
    let at = rate_at(800, 200).unwrap();
    assert_eq!(at, Rate::new(41_000_000_000_000_000_000_000_000));
    let below = rate_at(7_999, 2_001).unwrap();
    let above = rate_at(8_001, 1_999).unwrap();
    assert!(below.into_inner() <= at.into_inner());
    assert!(above.into_inner() >= at.into_inner());
    assert!(at.into_inner() - below.into_inner() < 10_000_000_000_000_000_000_000);
    assert!(above.into_inner() - at.into_inner() < 1_000_000_000_000_000_000_000_000);
}

#[test]
fn borrow_rate_of_empty_pool_is_none() {
    assert_eq!(rate_at(0, 0), None);
}

#[test]
fn mint_amount_one_for_one_in_empty_pool() {
    let m = mint_amount(TokenAmount::new(500), TokenAmount::new(0), TokenAmount::new(0));
    assert_eq!(m, Some(TokenAmount::new(500)));
}

#[test]
fn mint_amount_follows_supply_per_liquidity() {
    let m = mint_amount(TokenAmount::new(300), TokenAmount::new(1_000), TokenAmount::new(1_500));
    assert_eq!(m, Some(TokenAmount::new(200)));
}

#[test]
fn calculate_share_of_liquidity() {
    let s = calculate_share(TokenAmount::new(250), TokenAmount::new(1_000), TokenAmount::new(4_000));
    assert_eq!(s, Some(TokenAmount::new(1_000)));
    let none = calculate_share(TokenAmount::new(250), TokenAmount::new(0), TokenAmount::new(4_000));
    assert_eq!(none, Some(TokenAmount::new(0)));
}
