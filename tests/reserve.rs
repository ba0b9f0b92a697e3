use wowswap::error::WowswapError;
use wowswap::governance::Governance;
use wowswap::math::{Factor, Rate, TokenAmount, UnixTimestamp};
use wowswap::reserve::{Reserve, ReserveDebt, ReserveState};
use wowswap::swap::SwapPositionState;

const E18: u128 = 1_000_000_000_000_000_000;
/// 5% per second at rate scale.
const FIVE_PERCENT: u128 = 50_000_000_000_000_000_000_000_000;

fn governance() -> Governance {
    Governance {
        pool_utilization_allowance: 8_000 * E18,
        base_borrow_rate: 1_000_000_000_000_000_000_000_000,
        excess_slope: E18,
        optimal_slope: 40_000_000_000_000_000,
        optimal_utilization: 800_000_000_000_000_000,
        treasure_factor: 1_000 * E18,
        max_leverage_factor: 30_000 * E18,
        max_rate_multiplier: 20_000 * E18,
        liquidation_margin: 1_000 * E18,
        liquidation_reward: 500 * E18,
        max_liquidation_reward: 1_000 * E18,
    }
}

fn ts(v: u64) -> UnixTimestamp {
    UnixTimestamp::new(v)
}

fn amount(v: u64) -> TokenAmount {
    TokenAmount::new(v)
}

fn reserve_with_debt(total: u64, average_rate: u128, last_update: u64) -> Reserve {
    Reserve {
        state: ReserveState {
            borrow_rate: Rate::new(FIVE_PERCENT),
            treasure_accrued: amount(0),
            treasurer_update: ts(last_update),
        },
        debt: ReserveDebt { average_rate: Rate::new(average_rate), total: amount(total), last_update: ts(last_update) },
    }
}

#[test]
fn total_debt_unchanged_without_elapsed_time() {
    let debt = ReserveDebt { average_rate: Rate::new(FIVE_PERCENT), total: amount(1_000), last_update: ts(10) };
    assert_eq!(debt.get_total_debt(ts(10)), Some(amount(1_000)));
}

#[test]
fn total_debt_compounds_at_average_rate() {
    let debt = ReserveDebt {
        average_rate: Rate::new(10_000_000_000_000_000_000_000_000),
        total: amount(1_000_000),
        last_update: ts(0),
    };
    assert_eq!(debt.get_total_debt(ts(2)), Some(amount(1_020_100)));
    assert_eq!(debt.get_total_debt(UnixTimestamp::new(0)), Some(amount(1_000_000)));
}

#[test]
fn treasury_takes_its_share_of_accrued_interest() {
    let mut reserve = reserve_with_debt(1_000_000, 10_000_000_000_000_000_000_000_000, 0);
    reserve.update_state(&governance(), amount(1_020_100), ts(2)).unwrap();
    // 10% of 20_100, rounded half up
    assert_eq!(reserve.state.treasure_accrued, amount(2_010));
    assert_eq!(reserve.state.treasurer_update, ts(2));
}

#[test]
fn treasury_accrues_nothing_without_debt() {
    let mut reserve = reserve_with_debt(0, 0, 0);
    reserve.state.treasure_accrued = amount(7);
    reserve.update_state(&governance(), amount(0), ts(9)).unwrap();
    assert_eq!(reserve.state.treasure_accrued, amount(7));
    assert_eq!(reserve.state.treasurer_update, ts(9));
}

#[test]
fn treasury_refuses_debt_below_checkpoint() {
    let mut reserve = reserve_with_debt(1_000, 0, 0);
    let before = reserve;
    assert_eq!(reserve.update_state(&governance(), amount(999), ts(1)), Err(WowswapError::ComputationFault));
    assert_eq!(reserve, before);
}

#[test]
fn total_liquidity_nets_out_treasury() {
    let mut reserve = reserve_with_debt(0, 0, 0);
    reserve.state.treasure_accrued = amount(10);
    assert_eq!(reserve.get_total_liquidity(amount(100), amount(900)), Some(amount(990)));
    reserve.state.treasure_accrued = amount(2_000);
    assert_eq!(reserve.get_total_liquidity(amount(100), amount(900)), None);
}

#[test]
fn borrow_rate_follows_utilization_after_changes() {
    let mut reserve = reserve_with_debt(0, 0, 0);
    let gov = governance();
    reserve.update_borrow_rate(&gov, amount(400), amount(100), amount(0), amount(400), amount(100), amount(0)).unwrap();
    assert_eq!(reserve.state.borrow_rate, Rate::new(26_000_000_000_000_000_000_000_000));
    let before = reserve;
    let r = reserve.update_borrow_rate(&gov, amount(400), amount(0), amount(0), amount(10), amount(0), amount(11));
    assert_eq!(r, Err(WowswapError::ComputationFault));
    assert_eq!(reserve, before);
}

#[test]
fn first_borrow_sets_rates_and_totals() {
    let mut reserve = reserve_with_debt(0, 0, 0);
    let mut position = SwapPositionState::default();
    reserve.increase_debt(&mut position, ts(100), amount(0), amount(200_000), Factor::new(10_000)).unwrap();
    assert_eq!(reserve.debt.total, amount(200_000));
    assert_eq!(reserve.debt.average_rate, Rate::new(FIVE_PERCENT));
    assert_eq!(reserve.debt.last_update, ts(100));
    assert_eq!(position.amount, amount(200_000));
    assert_eq!(position.rate, Rate::new(FIVE_PERCENT));
    assert_eq!(position.timestamp, ts(100));
}

#[test]
fn rate_multiplier_scales_locked_rate() {
    let mut reserve = reserve_with_debt(0, 0, 0);
    let mut position = SwapPositionState::default();
    reserve.increase_debt(&mut position, ts(100), amount(0), amount(200_000), Factor::new(15_000)).unwrap();
    assert_eq!(position.rate, Rate::new(75_000_000_000_000_000_000_000_000));
}

#[test]
fn second_borrow_blends_rates() {
    let mut reserve = reserve_with_debt(0, 0, 0);
    let mut position = SwapPositionState::default();
    reserve.increase_debt(&mut position, ts(100), amount(0), amount(100), Factor::new(10_000)).unwrap();
    reserve.state.borrow_rate = Rate::new(3 * FIVE_PERCENT);
    let total = reserve.debt.get_total_debt(ts(100)).unwrap();
    reserve.increase_debt(&mut position, ts(100), total, amount(100), Factor::new(10_000)).unwrap();
    assert_eq!(reserve.debt.total, amount(200));
    assert_eq!(position.amount, amount(200));
    assert_eq!(position.rate, Rate::new(2 * FIVE_PERCENT));
    assert_eq!(reserve.debt.average_rate, Rate::new(2 * FIVE_PERCENT));
}

#[test]
fn full_repayment_zeroes_position_and_pool() {
    let mut reserve = reserve_with_debt(0, 0, 0);
    let mut position = SwapPositionState { loan: amount(42), ..SwapPositionState::default() };
    reserve.increase_debt(&mut position, ts(100), amount(0), amount(200_000), Factor::new(10_000)).unwrap();
    reserve.decrease_debt(&mut position, ts(100), amount(200_000), amount(200_000)).unwrap();
    assert_eq!(reserve.debt.total, amount(0));
    assert_eq!(reserve.debt.average_rate, Rate::new(0));
    assert_eq!(position, SwapPositionState { loan: amount(42), ..SwapPositionState::default() });
}

#[test]
fn partial_repayment_keeps_remainder() {
    let mut reserve = reserve_with_debt(0, 0, 0);
    let mut position = SwapPositionState::default();
    reserve.increase_debt(&mut position, ts(100), amount(0), amount(200_000), Factor::new(10_000)).unwrap();
    reserve.decrease_debt(&mut position, ts(100), amount(200_000), amount(50_000)).unwrap();
    assert_eq!(reserve.debt.total, amount(150_000));
    assert_eq!(reserve.debt.average_rate, Rate::new(FIVE_PERCENT));
    assert_eq!(position.amount, amount(150_000));
    assert_eq!(position.timestamp, ts(100));
}

#[test]
fn last_borrower_repaying_more_than_pool_zeroes_pool() {
    let mut reserve = reserve_with_debt(100, FIVE_PERCENT, 100);
    let mut position = SwapPositionState { loan: amount(0), rate: Rate::new(FIVE_PERCENT), amount: amount(150), timestamp: ts(100) };
    reserve.decrease_debt(&mut position, ts(100), amount(100), amount(150)).unwrap();
    assert_eq!(reserve.debt.total, amount(0));
    assert_eq!(reserve.debt.average_rate, Rate::new(0));
    assert_eq!(position.amount, amount(0));
    assert_eq!(position.rate, Rate::new(0));
    assert_eq!(position.timestamp, ts(0));
}

#[test]
fn repayment_exactly_pool_total_zeroes_pool() {
    let mut reserve = reserve_with_debt(500, FIVE_PERCENT, 100);
    let mut position = SwapPositionState { loan: amount(0), rate: Rate::new(FIVE_PERCENT), amount: amount(800), timestamp: ts(100) };
    reserve.decrease_debt(&mut position, ts(100), amount(500), amount(500)).unwrap();
    assert_eq!(reserve.debt.total, amount(0));
    assert_eq!(reserve.debt.average_rate, Rate::new(0));
    assert_eq!(position.amount, amount(300));
}

#[test]
fn rate_weighted_share_above_pool_resets_it() {
    let mut reserve = reserve_with_debt(1_000, FIVE_PERCENT / 5, 100);
    let mut position = SwapPositionState { loan: amount(0), rate: Rate::new(FIVE_PERCENT), amount: amount(500), timestamp: ts(100) };
    reserve.decrease_debt(&mut position, ts(100), amount(1_000), amount(400)).unwrap();
    assert_eq!(reserve.debt.total, amount(0));
    assert_eq!(reserve.debt.average_rate, Rate::new(0));
    assert_eq!(position.amount, amount(100));
}

#[test]
fn repaying_more_than_position_owes_fails_without_change() {
    let mut reserve = reserve_with_debt(1_000, FIVE_PERCENT, 100);
    let mut position = SwapPositionState { loan: amount(0), rate: Rate::new(FIVE_PERCENT), amount: amount(500), timestamp: ts(100) };
    let (r0, p0) = (reserve, position);
    let r = reserve.decrease_debt(&mut position, ts(100), amount(1_000), amount(600));
    assert_eq!(r, Err(WowswapError::ComputationFault));
    assert_eq!((reserve, position), (r0, p0));
}

#[test]
fn debt_total_conserved_over_a_run_of_changes() {
    let mut reserve = reserve_with_debt(0, 0, 100);
    let mut position = SwapPositionState::default();
    let now = ts(100);
    for (borrow, value) in [(true, 1_000u64), (true, 500), (false, 300), (true, 50), (false, 250)] {
        let total = reserve.debt.get_total_debt(now).unwrap();
        if borrow {
            reserve.increase_debt(&mut position, now, total, amount(value), Factor::new(10_000)).unwrap();
        } else {
            reserve.decrease_debt(&mut position, now, total, amount(value)).unwrap();
        }
    }
    assert_eq!(reserve.debt.total, amount(1_000 + 500 - 300 + 50 - 250));
    assert_eq!(position.amount, amount(1_000));
}

#[test]
fn deposit_into_empty_pool_mints_one_for_one() {
    let mut reserve = Reserve::default();
    let minted = reserve.deposit(&governance(), ts(5), amount(0), amount(0), amount(1_000)).unwrap();
    assert_eq!(minted, amount(1_000));
    assert_eq!(reserve.state.treasurer_update, ts(5));
    assert_eq!(reserve.state.borrow_rate, Rate::new(1_000_000_000_000_000_000_000_000));
}

#[test]
fn deposit_mints_at_supply_per_liquidity() {
    let mut reserve = Reserve::default();
    let minted = reserve.deposit(&governance(), ts(5), amount(1_500), amount(1_000), amount(300)).unwrap();
    assert_eq!(minted, amount(200));
}

#[test]
fn withdraw_pays_share_of_liquidity() {
    let mut reserve = Reserve::default();
    let (burn, payout) = reserve.withdraw(&governance(), ts(5), amount(1_000), amount(1_000), amount(400)).unwrap();
    assert_eq!((burn, payout), (amount(400), amount(400)));
}

#[test]
fn withdraw_is_capped_by_vault() {
    let mut reserve = reserve_with_debt(3_000, 0, 5);
    let (burn, payout) = reserve.withdraw(&governance(), ts(5), amount(1_000), amount(4_000), amount(2_000)).unwrap();
    assert_eq!((burn, payout), (amount(1_000), amount(1_000)));
}

#[test]
fn governance_parameters_at_working_scale() {
    let gov = governance();
    assert_eq!(gov.treasure_factor(), Some(Factor::new(1_000)));
    assert_eq!(gov.max_leverage_factor(), Some(Factor::new(30_000)));
    assert_eq!(gov.max_liquidation_reward(), Some(amount(1_000)));
    assert_eq!(gov.base_borrow_rate(), Rate::new(1_000_000_000_000_000_000_000_000));
    let bad = Governance { liquidation_margin: u128::MAX, ..gov };
    assert_eq!(bad.liquidation_margin(), None);
}

#[test]
fn equal_rate_weighted_shares_keep_the_remainder() {
    let mut reserve = reserve_with_debt(200, 0, 100);
    let mut position = SwapPositionState { loan: amount(0), rate: Rate::new(0), amount: amount(200), timestamp: ts(100) };
    reserve.decrease_debt(&mut position, ts(100), amount(200), amount(50)).unwrap();
    assert_eq!(reserve.debt.total, amount(150));
    assert_eq!(reserve.debt.average_rate, Rate::new(0));
    assert_eq!(position.amount, amount(150));
}

#[test]
fn zero_rate_borrow_then_partial_repay_conserves_debt() {
    let mut reserve = reserve_with_debt(0, 0, 100);
    reserve.state.borrow_rate = Rate::new(0);
    let mut position = SwapPositionState::default();
    let now = ts(100);
    reserve.increase_debt(&mut position, now, amount(0), amount(200), Factor::new(10_000)).unwrap();
    let total = reserve.debt.get_total_debt(now).unwrap();
    reserve.decrease_debt(&mut position, now, total, amount(100)).unwrap();
    assert_eq!(reserve.debt.total, amount(100));
    assert_eq!(position.amount, amount(100));
}
