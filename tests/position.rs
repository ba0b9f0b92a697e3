use wowswap::dex::{DexLimitPrice, DexNonZeroTokenQty, DexTokenQty, MarketLotSizes};
use wowswap::error::WowswapError;
use wowswap::governance::Governance;
use wowswap::math::{Factor, TokenAmount, UnixTimestamp};
use wowswap::reserve::Reserve;
use wowswap::swap::{
    close_order, liquidation_order, open_order, rate_multiplier, settle_close, settle_liquidation,
    settle_open, SwapPositionState, SwapState,
};

const E18: u128 = 1_000_000_000_000_000_000;

fn governance() -> Governance {
    Governance {
        pool_utilization_allowance: 8_000 * E18,
        base_borrow_rate: 1_000_000_000_000_000_000_000_000,
        excess_slope: E18,
        optimal_slope: 40_000_000_000_000_000,
        optimal_utilization: 800_000_000_000_000_000,
        treasure_factor: 1_000 * E18,
        max_leverage_factor: 30_000 * E18,
        max_rate_multiplier: 20_000 * E18,
        liquidation_margin: 1_000 * E18,
        liquidation_reward: 500 * E18,
        max_liquidation_reward: 1_000 * E18,
    }
}

fn amount(v: u64) -> TokenAmount {
    TokenAmount::new(v)
}

const UNIT_LOTS: MarketLotSizes = MarketLotSizes { coin: 1, pc: 1 };

struct Market {
    reserve: Reserve,
    swap: SwapState,
    position: SwapPositionState,
}

/// A pool holding 1,000,000 with no debt, in which a trader opens a 2x
/// position whose borrowed half costs 200,000 and fills in full.
fn opened_at_double_leverage() -> (Market, TokenAmount) {
    let gov = governance();
    let mut m = Market { reserve: Reserve::default(), swap: SwapState::default(), position: SwapPositionState::default() };
    let price = DexLimitPrice::new(1).unwrap();
    let qty = DexNonZeroTokenQty::new(200_000).unwrap();
    let order = open_order(&gov, UNIT_LOTS, price, qty, Factor::new(20_000)).unwrap();
    let s = settle_open(
        &mut m.reserve,
        &mut m.swap,
        &mut m.position,
        &gov,
        UnixTimestamp::new(1_000),
        Factor::new(20_000),
        order.native_pc_qty_loan,
        amount(0),
        amount(1_000_000),
    )
    .unwrap();
    assert_eq!(s.reserve_return, amount(0));
    assert_eq!(s.trader_return, amount(0));
    (m, order.native_coin_qty)
}

#[test]
fn open_at_double_leverage_records_loan_and_debt() {
    let gov = governance();
    let price = DexLimitPrice::new(1).unwrap();
    let qty = DexNonZeroTokenQty::new(200_000).unwrap();
    let order = open_order(&gov, UNIT_LOTS, price, qty, Factor::new(20_000)).unwrap();
    assert_eq!(order.native_pc_qty_loan, amount(200_000));
    assert_eq!(order.trader_funds, amount(200_000));
    assert_eq!(order.native_pc_qty_including_fees.as_token_amount(), amount(400_000));
    let (m, minted) = opened_at_double_leverage();
    assert_eq!(m.position.loan, amount(200_000));
    assert_eq!(m.reserve.debt.total, amount(200_000));
    assert_eq!(m.swap.total_loan, amount(200_000));
    assert_eq!(minted, amount(400_000));
}

#[test]
fn close_in_full_repays_debt_and_returns_rest() {
    let gov = governance();
    let (mut m, minted) = opened_at_double_leverage();
    let qty = DexNonZeroTokenQty::new(400_000).unwrap();
    let order = close_order(UNIT_LOTS, DexLimitPrice::new(1).unwrap(), qty).unwrap();
    assert_eq!(order.native_coin_qty, minted);
    let s = settle_close(
        &mut m.reserve,
        &mut m.swap,
        &mut m.position,
        &gov,
        UnixTimestamp::new(1_000),
        amount(210_000),
        amount(800_000),
    )
    .unwrap();
    assert_eq!(s.reserve_return, amount(200_000));
    assert_eq!(s.trader_return, amount(10_000));
    assert_eq!(m.position.loan, amount(0));
    assert_eq!(m.position.amount, amount(0));
    assert_eq!(m.reserve.debt.total, amount(0));
    assert_eq!(m.swap.total_loan, amount(0));
}

#[test]
fn close_short_of_debt_clears_share_of_loan() {
    let gov = governance();
    let (mut m, _) = opened_at_double_leverage();
    let s = settle_close(
        &mut m.reserve,
        &mut m.swap,
        &mut m.position,
        &gov,
        UnixTimestamp::new(1_000),
        amount(100_000),
        amount(800_000),
    )
    .unwrap();
    assert_eq!(s.reserve_return, amount(100_000));
    assert_eq!(s.trader_return, amount(0));
    assert_eq!(m.position.loan, amount(100_000));
    assert_eq!(m.swap.total_loan, amount(100_000));
    assert_eq!(m.reserve.debt.total, amount(100_000));
    assert_eq!(m.position.amount, amount(100_000));
}

#[test]
fn close_without_debt_returns_everything() {
    let gov = governance();
    let mut reserve = Reserve::default();
    let mut swap = SwapState::default();
    let mut position = SwapPositionState::default();
    let s = settle_close(&mut reserve, &mut swap, &mut position, &gov, UnixTimestamp::new(9), amount(5_000), amount(0)).unwrap();
    assert_eq!((s.reserve_return, s.trader_return), (amount(0), amount(5_000)));
    assert_eq!(reserve, Reserve::default());
}

#[test]
fn unspent_loan_goes_back_to_reserve() {
    let gov = governance();
    let mut reserve = Reserve::default();
    let mut swap = SwapState::default();
    let mut position = SwapPositionState::default();
    let s = settle_open(
        &mut reserve,
        &mut swap,
        &mut position,
        &gov,
        UnixTimestamp::new(1_000),
        Factor::new(20_000),
        amount(200_000),
        amount(50_000),
        amount(1_000_000),
    )
    .unwrap();
    assert_eq!(s.reserve_return, amount(50_000));
    assert_eq!(s.trader_return, amount(0));
    assert_eq!(position.loan, amount(150_000));
    assert_eq!(reserve.debt.total, amount(150_000));
}

#[test]
fn loan_left_unspent_records_no_debt() {
    let gov = governance();
    let mut reserve = Reserve::default();
    let mut swap = SwapState::default();
    let mut position = SwapPositionState::default();
    let s = settle_open(
        &mut reserve,
        &mut swap,
        &mut position,
        &gov,
        UnixTimestamp::new(1_000),
        Factor::new(20_000),
        amount(200_000),
        amount(250_000),
        amount(1_000_000),
    )
    .unwrap();
    assert_eq!((s.reserve_return, s.trader_return), (amount(200_000), amount(50_000)));
    assert_eq!(position, SwapPositionState::default());
    assert_eq!(reserve, Reserve::default());
}

#[test]
fn borrow_beyond_pool_allowance_is_refused() {
    let gov = governance();
    let mut reserve = Reserve::default();
    let mut swap = SwapState::default();
    let mut position = SwapPositionState::default();
    let r = settle_open(
        &mut reserve,
        &mut swap,
        &mut position,
        &gov,
        UnixTimestamp::new(1_000),
        Factor::new(20_000),
        amount(200_000),
        amount(0),
        amount(250_000),
    );
    assert_eq!(r, Err(WowswapError::BorrowLimitExceeded));
    assert_eq!(position, SwapPositionState::default());
    assert_eq!(swap, SwapState::default());
    assert_eq!(reserve, Reserve::default());
}

#[test]
fn leverage_outside_bounds_is_refused() {
    let gov = governance();
    let price = DexLimitPrice::new(1).unwrap();
    let qty = DexNonZeroTokenQty::new(100).unwrap();
    assert_eq!(open_order(&gov, UNIT_LOTS, price, qty, Factor::new(9_999)).unwrap_err(), WowswapError::InvalidLeverageFactor);
    assert_eq!(open_order(&gov, UNIT_LOTS, price, qty, Factor::new(30_001)).unwrap_err(), WowswapError::InvalidLeverageFactor);
    assert!(open_order(&gov, UNIT_LOTS, price, qty, Factor::new(30_000)).is_ok());
}

#[test]
fn open_with_zero_lot_size_is_invalid_argument() {
    let gov = governance();
    let price = DexLimitPrice::new(1).unwrap();
    let qty = DexNonZeroTokenQty::new(100).unwrap();
    let lots = MarketLotSizes { coin: 0, pc: 1 };
    assert_eq!(open_order(&gov, lots, price, qty, Factor::new(10_000)).unwrap_err(), WowswapError::InvalidArgument);
    let lots = MarketLotSizes { coin: 1, pc: 0 };
    assert_eq!(open_order(&gov, lots, price, qty, Factor::new(10_000)).unwrap_err(), WowswapError::InvalidArgument);
}

#[test]
fn open_converts_lots_to_native_units() {
    let gov = governance();
    let price = DexLimitPrice::new(7).unwrap();
    let qty = DexNonZeroTokenQty::new(10).unwrap();
    let lots = MarketLotSizes { coin: 100, pc: 3 };
    let order = open_order(&gov, lots, price, qty, Factor::new(15_000)).unwrap();
    assert_eq!(order.coin_qty.into_inner(), 15);
    assert_eq!(order.native_coin_qty, amount(1_500));
    assert_eq!(order.native_pc_qty_loan, amount(105));
    assert_eq!(order.native_pc_qty_including_fees.into_inner(), 315);
    assert_eq!(order.trader_funds, amount(210));
}

#[test]
fn rate_multiplier_is_linear_in_leverage() {
    let gov = governance();
    assert_eq!(rate_multiplier(&gov, Factor::new(10_000)), Some(Factor::new(10_000)));
    assert_eq!(rate_multiplier(&gov, Factor::new(20_000)), Some(Factor::new(15_000)));
    assert_eq!(rate_multiplier(&gov, Factor::new(30_000)), Some(Factor::new(20_000)));
    assert_eq!(rate_multiplier(&gov, Factor::new(9_000)), None);
}

#[test]
fn liquidating_healthy_position_is_refused() {
    let gov = governance();
    let (mut m, _) = opened_at_double_leverage();
    let (r0, s0, p0) = (m.reserve, m.swap, m.position);
    let r = settle_liquidation(&mut m.reserve, &mut m.swap, &mut m.position, &gov, UnixTimestamp::new(1_000), amount(220_001), amount(800_000));
    assert_eq!(r, Err(WowswapError::LiquidateHealthyPosition));
    assert_eq!((m.reserve, m.swap, m.position), (r0, s0, p0));
}

#[test]
fn liquidation_pays_capped_reward_and_settles_debt() {
    let gov = governance();
    let (mut m, _) = opened_at_double_leverage();
    let s = settle_liquidation(&mut m.reserve, &mut m.swap, &mut m.position, &gov, UnixTimestamp::new(1_000), amount(210_000), amount(800_000)).unwrap();
    assert_eq!(s.reward, amount(1_000));
    assert_eq!(s.reserve_return, amount(200_000));
    assert_eq!(s.trader_return, amount(9_000));
    assert_eq!(m.position.loan, amount(0));
    assert_eq!(m.position.amount, amount(0));
    assert_eq!(m.swap.total_loan, amount(0));
    assert_eq!(m.reserve.debt.total, amount(0));
}

#[test]
fn liquidation_at_exact_cost_goes_through() {
    let gov = governance();
    let (mut m, _) = opened_at_double_leverage();
    let s = settle_liquidation(&mut m.reserve, &mut m.swap, &mut m.position, &gov, UnixTimestamp::new(1_000), amount(220_000), amount(800_000)).unwrap();
    assert_eq!((s.reward, s.reserve_return, s.trader_return), (amount(1_000), amount(200_000), amount(19_000)));
}

#[test]
fn liquidation_short_of_debt_repays_what_is_left() {
    let gov = Governance { max_liquidation_reward: 0, ..governance() };
    let (mut m, _) = opened_at_double_leverage();
    let s = settle_liquidation(&mut m.reserve, &mut m.swap, &mut m.position, &gov, UnixTimestamp::new(1_000), amount(150_000), amount(800_000)).unwrap();
    // no cap: 5% of the proceeds
    assert_eq!(s.reward, amount(7_500));
    assert_eq!(s.reserve_return, amount(142_500));
    assert_eq!(s.trader_return, amount(0));
    assert_eq!(m.reserve.debt.total, amount(0));
}

#[test]
fn liquidation_sells_whole_receipt_balance() {
    let lots = MarketLotSizes { coin: 10, pc: 3 };
    let order = liquidation_order(lots, amount(400_005)).unwrap();
    assert_eq!(order.coin_qty.into_inner(), 40_000);
    assert_eq!(order.native_coin_qty, amount(400_005));
    assert_eq!(order.limit_price.into_inner(), 1);
    assert_eq!(order.native_pc_qty_including_fees.into_inner(), 120_000);
}

#[test]
fn liquidation_order_of_empty_position_faults() {
    assert_eq!(liquidation_order(MarketLotSizes { coin: 10, pc: 3 }, amount(9)).unwrap_err(), WowswapError::ComputationFault);
    assert_eq!(liquidation_order(MarketLotSizes { coin: 0, pc: 3 }, amount(9)).unwrap_err(), WowswapError::ComputationFault);
    assert_eq!(liquidation_order(MarketLotSizes { coin: 1, pc: 0 }, amount(9)).unwrap_err(), WowswapError::InvalidArgument);
}

#[test]
fn close_order_checks_quantities() {
    let qty = DexNonZeroTokenQty::new(u64::MAX).unwrap();
    let price = DexLimitPrice::new(1).unwrap();
    assert_eq!(close_order(MarketLotSizes { coin: 2, pc: 1 }, price, qty).unwrap_err(), WowswapError::InvalidArgument);
}

#[test]
fn venue_quantities_reject_zero_and_overflow() {
    assert!(DexLimitPrice::new(0).is_none());
    assert!(DexNonZeroTokenQty::new(0).is_none());
    assert!(DexNonZeroTokenQty::from_token_amount(amount(0)).is_none());
    assert_eq!(DexTokenQty::from_u128(u64::MAX as u128 + 1), None);
    let q = DexNonZeroTokenQty::new(u64::MAX).unwrap();
    assert!(q.checked_add(DexTokenQty::new(1)).is_none());
    assert!(DexLimitPrice::new(u64::MAX).unwrap().checked_mul_lot_size(2).is_none());
}
