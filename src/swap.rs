//! Leveraged positions: their debt record, and the decisions of opening,
//! closing and liquidating one.

use vstd::prelude::*;

use crate::dex::{
    DexLimitPrice, DexNonZeroTokenAmount, DexNonZeroTokenQty, DexTokenQty, MarketLotSizes,
};
use crate::error::WowswapError;
use crate::governance::{accuracy_spec, Governance};
use crate::interest::{calculate_compounded, compounded_spec};
use crate::liquidity::{calculate_share, share_spec};
use crate::math::{
    amount_spec, opt_amount, opt_factor, percentage_spec, ray_mul_spec, round_div, Factor, Rate,
    TokenAmount,
    UnixTimestamp, FACTOR,
};
use crate::reserve::{
    decrease_debt_spec, increase_debt_spec, refreshed_rate_spec, total_liquidity_spec,
    update_state_spec, with_borrow_rate, Reserve,
};

verus! {

/// `amount` compounded at `rate` from `from` to `to`, as a token amount.
pub open spec fn projected_debt(amount: int, rate: int, from: int, to: int) -> Option<int> {
    match compounded_spec(rate, from, to) {
        None => None,
        Some(c) => match ray_mul_spec(amount, c) {
            None => None,
            Some(v) => amount_spec(v),
        },
    }
}

/// Loan totals of one market.
#[derive(Debug, Default, Clone, Copy, PartialEq, Eq, Structural)]
pub struct SwapState {
    /// Reserve funds lent out to all positions of the market.
    pub total_loan: TokenAmount,
}

/// The debt record of one trader's position.
#[derive(Debug, Default, Clone, Copy, PartialEq, Eq, Structural)]
pub struct SwapPositionState {
    /// Principal drawn from the reserve.
    pub loan: TokenAmount,
    /// Rate locked in when the debt last changed.
    pub rate: Rate,
    /// Principal plus accrued interest as of `timestamp`.
    pub amount: TokenAmount,
    /// When `amount` was last brought up to date.
    pub timestamp: UnixTimestamp,
}

/// The position's debt at `now`, and how much of it accrued since the last
/// update; both zero for a position without debt.
pub open spec fn debt_increase_spec(position: SwapPositionState, now: int) -> Option<(int, int)> {
    if position.amount@ == 0 {
        Some((0int, 0int))
    } else {
        match projected_debt(position.amount@, position.rate@, position.timestamp@, now) {
            None => None,
            Some(d) => if d >= position.amount@ {
                Some((d, d - position.amount@))
            } else {
                None
            },
        }
    }
}

impl SwapPositionState {
    /// The current debt and the interest accrued since the last update.
    pub fn calculate_debt_increase(&self, timestamp: UnixTimestamp) -> (r: Option<(TokenAmount, TokenAmount)>)
        ensures
            match debt_increase_spec(*self, timestamp@) {
                Some((d, inc)) => r matches Some((a, b)) && a@ == d && b@ == inc,
                None => r is None,
            },
    {
        if self.amount.is_zero() {
            Some((TokenAmount::new(0), TokenAmount::new(0)))
        } else {
            let current_debt = match self.get_debt(timestamp) {
                Some(d) => d,
                None => return None,
            };
            match current_debt.checked_sub(self.amount) {
                Some(increase) => Some((current_debt, increase)),
                None => None,
            }
        }
    }

    /// The debt compounded up to `timestamp`.
    pub fn get_debt(&self, timestamp: UnixTimestamp) -> (r: Option<TokenAmount>)
        ensures
            opt_amount(r) == projected_debt(self.amount@, self.rate@, self.timestamp@, timestamp@),
    {
        project_debt(self.amount, self.rate, self.timestamp, timestamp)
    }
}

/// `amount` compounded at `rate` from `from` to `to`.
pub fn project_debt(amount: TokenAmount, rate: Rate, from: UnixTimestamp, to: UnixTimestamp) -> (r: Option<TokenAmount>)
    ensures
        opt_amount(r) == projected_debt(amount@, rate@, from@, to@),
{
    let c = match calculate_compounded(rate, from, to) {
        Some(c) => c,
        None => return None,
    };
    match amount.into_ray().ray_mul(c) {
        Some(v) => v.as_token_amount(),
        None => None,
    }
}

/// The rate multiplier of a leverage: linear from 1 at leverage 1 to
/// `max_multiplier` at `max_leverage`, rounded down.
pub open spec fn rate_multiplier_spec(leverage: int, max_leverage: int, max_multiplier: int) -> Option<int> {
    if leverage < FACTOR || max_multiplier < FACTOR || max_leverage <= FACTOR {
        None
    } else {
        let m = (leverage - FACTOR) * (max_multiplier - FACTOR);
        if m > u64::MAX || m / (max_leverage - FACTOR) + FACTOR > u64::MAX {
            None
        } else {
            Some(m / (max_leverage - FACTOR) + FACTOR)
        }
    }
}

/// How much more than the base rate a position at `leverage_factor` pays.
pub fn rate_multiplier(governance: &Governance, leverage_factor: Factor) -> (r: Option<Factor>)
    ensures
        match (
            accuracy_spec(governance.max_leverage_factor as int),
            accuracy_spec(governance.max_rate_multiplier as int),
        ) {
            (Some(max_leverage), Some(max_multiplier)) => opt_factor(r) == rate_multiplier_spec(
                leverage_factor@,
                max_leverage,
                max_multiplier,
            ),
            _ => r is None,
        },
{
    let max_leverage = match governance.max_leverage_factor() {
        Some(v) => v,
        None => return None,
    };
    let max_multiplier = match governance.max_rate_multiplier() {
        Some(v) => v,
        None => return None,
    };
    let one = Factor::one();
    let lever = match leverage_factor.checked_sub(one) {
        Some(v) => v,
        None => return None,
    };
    let span = match max_multiplier.checked_sub(one) {
        Some(v) => v,
        None => return None,
    };
    let range = match max_leverage.checked_sub(one) {
        Some(v) => v,
        None => return None,
    };
    match lever.checked_mul(span) {
        Some(m) => match m.checked_div(range) {
            Some(q) => q.checked_add(one),
            None => None,
        },
        None => None,
    }
}

/// What opening a position asks of the venue and of the custodian.
#[derive(Debug, Clone, Copy)]
pub struct OpenOrder {
    /// Base lots to buy: the trader's and the borrowed ones.
    pub coin_qty: DexNonZeroTokenQty,
    /// Borrowed base lots.
    pub coin_qty_loan: DexTokenQty,
    /// Receipt tokens to mint: `coin_qty` in native base units.
    pub native_coin_qty: TokenAmount,
    /// Quote funds to draw from the reserve for the borrowed lots.
    pub native_pc_qty_loan: TokenAmount,
    /// Quote budget of the buy order.
    pub native_pc_qty_including_fees: DexNonZeroTokenAmount,
    /// Quote funds to take from the trader.
    pub trader_funds: TokenAmount,
}

/// Plans the buy that opens (or grows) a position of `coin_qty` base lots
/// at `leverage_factor`: the lots bought on borrowed funds are
/// `(leverage_factor - 1) * coin_qty`, paid at `limit_price`.
pub fn open_order(
    governance: &Governance,
    lot_sizes: MarketLotSizes,
    limit_price: DexLimitPrice,
    coin_qty: DexNonZeroTokenQty,
    leverage_factor: Factor,
) -> (r: Result<OpenOrder, WowswapError>)
    ensures
        match accuracy_spec(governance.max_leverage_factor as int) {
            None => r == Err::<OpenOrder, WowswapError>(WowswapError::ComputationFault),
            Some(max) => if leverage_factor@ < FACTOR || leverage_factor@ > max {
                r == Err::<OpenOrder, WowswapError>(WowswapError::InvalidLeverageFactor)
            } else {
                match percentage_spec(leverage_factor@ - FACTOR, coin_qty@) {
                    None => r == Err::<OpenOrder, WowswapError>(WowswapError::ComputationFault),
                    Some(loan) => {
                        let total = coin_qty@ + loan;
                        let pc_lot = limit_price@ * lot_sizes.pc;
                        if loan > u64::MAX || total > u64::MAX {
                            r == Err::<OpenOrder, WowswapError>(WowswapError::ComputationFault)
                        } else if lot_sizes.coin == 0 || total * lot_sizes.coin > u64::MAX
                            || pc_lot == 0 || pc_lot > u64::MAX || pc_lot * total > u64::MAX {
                            r == Err::<OpenOrder, WowswapError>(WowswapError::InvalidArgument)
                        } else {
                            r matches Ok(o) && o.coin_qty@ == total && o.coin_qty_loan@ == loan
                                && o.native_coin_qty@ == total * lot_sizes.coin
                                && o.native_pc_qty_loan@ == pc_lot * loan
                                && o.native_pc_qty_including_fees@ == pc_lot * total
                                && o.trader_funds@ == pc_lot * coin_qty@
                        }
                    },
                }
            },
        },
{
    let max_leverage_factor = match governance.max_leverage_factor() {
        Some(v) => v,
        None => return Err(WowswapError::ComputationFault),
    };
    if leverage_factor.0 < FACTOR || leverage_factor.0 > max_leverage_factor.0 {
        return Err(WowswapError::InvalidLeverageFactor);
    }
    let coin_qty_loan = match Factor::new(leverage_factor.0 - FACTOR).percentage_mul(
        coin_qty.into_inner() as u128,
    ) {
        Some(v) => match DexTokenQty::from_u128(v) {
            Some(q) => q,
            None => return Err(WowswapError::ComputationFault),
        },
        None => return Err(WowswapError::ComputationFault),
    };
    let total = match coin_qty.checked_add(coin_qty_loan) {
        Some(v) => v,
        None => return Err(WowswapError::ComputationFault),
    };
    let ghost t = total@;
    let ghost q = coin_qty@;
    let ghost l = coin_qty_loan@;
    assert(t > 0 && t == q + l);
    assert(t * lot_sizes.coin == 0 <==> lot_sizes.coin == 0) by (nonlinear_arith)
        requires
            t > 0,
    ;
    let native_coin_qty = match total.checked_mul_lot_size(lot_sizes.coin) {
        Some(v) => v.as_token_amount(),
        None => return Err(WowswapError::InvalidArgument),
    };
    let pc_lot_limit_price = match limit_price.checked_mul_lot_size(lot_sizes.pc) {
        Some(v) => v,
        None => return Err(WowswapError::InvalidArgument),
    };
    let native_pc_qty_including_fees = match pc_lot_limit_price.checked_mul_nonzero_token_qty(total) {
        Some(v) => v,
        None => return Err(WowswapError::InvalidArgument),
    };
    let ghost pl = pc_lot_limit_price@;
    assert(pl * t == pl * q + pl * l) by (nonlinear_arith)
        requires
            t == q + l,
    ;
    assert(pl * q >= 0 && pl * l >= 0) by (nonlinear_arith)
        requires
            pl > 0,
            q > 0,
            l >= 0,
    ;
    let native_pc_qty_loan = match pc_lot_limit_price.checked_mul_token_qty(coin_qty_loan) {
        Some(v) => v,
        None => return Err(WowswapError::InvalidArgument),
    };
    let trader_funds = native_pc_qty_including_fees.as_token_amount().safe_sub(native_pc_qty_loan);
    Ok(
        OpenOrder {
            coin_qty: total,
            coin_qty_loan,
            native_coin_qty,
            native_pc_qty_loan,
            native_pc_qty_including_fees,
            trader_funds,
        },
    )
}

/// Where the quote funds left in the market's vault go once an order has
/// filled.
#[derive(Debug, Clone, Copy, PartialEq, Eq, Structural)]
pub struct Settlement {
    /// Paid to the liquidator.
    pub reward: TokenAmount,
    /// Sent back to the reserve.
    pub reserve_return: TokenAmount,
    /// Sent back to the trader.
    pub trader_return: TokenAmount,
}

/// Reserve and position once the position borrows `amount` at `now`: fees
/// are brought up to date, the borrow rate is set for the new utilization
/// and the debt is recorded.
pub open spec fn borrow_spec(
    reserve: Reserve,
    position: SwapPositionState,
    governance: Governance,
    now: UnixTimestamp,
    total_debt: int,
    amount: int,
    rate_multiplier: int,
    reserve_vault: int,
) -> Option<(Reserve, SwapPositionState)> {
    match update_state_spec(reserve, governance, total_debt, now) {
        None => None,
        Some(updated) => match refreshed_rate_spec(
            governance,
            reserve_vault,
            0,
            amount,
            total_debt,
            amount,
            0,
        ) {
            None => None,
            Some(rate) => increase_debt_spec(
                with_borrow_rate(updated, rate),
                position,
                now,
                total_debt,
                amount,
                rate_multiplier,
            ),
        },
    }
}

/// Reserve and position once the position repays `change` at `now`: fees
/// are brought up to date, the debt is reduced and the borrow rate is set
/// for the new utilization.
pub open spec fn repay_spec(
    reserve: Reserve,
    position: SwapPositionState,
    governance: Governance,
    now: UnixTimestamp,
    change: int,
    reserve_vault: int,
) -> Option<(Reserve, SwapPositionState)> {
    match projected_debt(
        reserve.debt.total@,
        reserve.debt.average_rate@,
        reserve.debt.last_update@,
        now@,
    ) {
        None => None,
        Some(total_debt) => match update_state_spec(reserve, governance, total_debt, now) {
            None => None,
            Some(updated) => match decrease_debt_spec(updated, position, now, total_debt, change) {
                None => None,
                Some((repaid, p)) => match projected_debt(
                    repaid.debt.total@,
                    repaid.debt.average_rate@,
                    repaid.debt.last_update@,
                    now@,
                ) {
                    None => None,
                    Some(next_debt) => match refreshed_rate_spec(
                        governance,
                        reserve_vault,
                        change,
                        0,
                        next_debt,
                        0,
                        0,
                    ) {
                        None => None,
                        Some(rate) => Some((with_borrow_rate(repaid, rate), p)),
                    },
                },
            },
        },
    }
}

fn borrow(
    reserve: &mut Reserve,
    position: &mut SwapPositionState,
    governance: &Governance,
    timestamp: UnixTimestamp,
    total_debt: TokenAmount,
    amount: TokenAmount,
    rate_multiplier: Factor,
    reserve_vault: TokenAmount,
) -> (r: bool)
    ensures
        match borrow_spec(
            *old(reserve),
            *old(position),
            *governance,
            timestamp,
            total_debt@,
            amount@,
            rate_multiplier@,
            reserve_vault@,
        ) {
            Some((next, p)) => r && *final(reserve) == next && *final(position) == p,
            None => !r,
        },
{
    if reserve.update_state(governance, total_debt, timestamp).is_err() {
        return false;
    }
    let zero = TokenAmount::new(0);
    if reserve.update_borrow_rate(governance, reserve_vault, zero, amount, total_debt, amount, zero).is_err() {
        return false;
    }
    reserve.increase_debt(position, timestamp, total_debt, amount, rate_multiplier).is_ok()
}

fn repay(
    reserve: &mut Reserve,
    position: &mut SwapPositionState,
    governance: &Governance,
    timestamp: UnixTimestamp,
    change: TokenAmount,
    reserve_vault: TokenAmount,
) -> (r: bool)
    ensures
        match repay_spec(*old(reserve), *old(position), *governance, timestamp, change@, reserve_vault@) {
            Some((next, p)) => r && *final(reserve) == next && *final(position) == p,
            None => !r,
        },
{
    let total_debt = match reserve.debt.get_total_debt(timestamp) {
        Some(v) => v,
        None => return false,
    };
    if reserve.update_state(governance, total_debt, timestamp).is_err() {
        return false;
    }
    if reserve.decrease_debt(position, timestamp, total_debt, change).is_err() {
        return false;
    }
    let next_debt = match reserve.debt.get_total_debt(timestamp) {
        Some(v) => v,
        None => return false,
    };
    let zero = TokenAmount::new(0);
    reserve.update_borrow_rate(governance, reserve_vault, change, zero, next_debt, zero, zero).is_ok()
}

/// Records after an open whose buy left `balance` quote funds in the
/// market's vault, and what goes back to the reserve. Of the `loan` drawn
/// from the reserve, what the buy did not spend goes straight back; the
/// rest becomes debt, provided the market's loans stay below the
/// governance share of the pool's liquidity.
pub open spec fn settle_open_spec(
    reserve: Reserve,
    swap: SwapState,
    position: SwapPositionState,
    governance: Governance,
    now: UnixTimestamp,
    leverage: int,
    loan: int,
    balance: int,
    reserve_vault: int,
) -> Result<(Reserve, SwapState, SwapPositionState, int), WowswapError> {
    let returned = if loan <= balance {
        loan
    } else {
        balance
    };
    let borrowed = loan - returned;
    if borrowed == 0 {
        Ok((reserve, swap, position, returned))
    } else if swap.total_loan@ + borrowed > u64::MAX || position.loan@ + borrowed > u64::MAX {
        Err(WowswapError::ComputationFault)
    } else {
        let total_loan = swap.total_loan@ + borrowed;
        match (
            accuracy_spec(governance.pool_utilization_allowance as int),
            projected_debt(
                reserve.debt.total@,
                reserve.debt.average_rate@,
                reserve.debt.last_update@,
                now@,
            ),
        ) {
            (Some(allowance), Some(total_debt)) => match total_liquidity_spec(
                reserve,
                total_debt,
                reserve_vault,
            ) {
                None => Err(WowswapError::ComputationFault),
                Some(total_liquidity) => match percentage_spec(allowance, total_liquidity) {
                    None => Err(WowswapError::ComputationFault),
                    Some(limit) => if limit > u64::MAX {
                        Err(WowswapError::ComputationFault)
                    } else if total_loan >= limit {
                        Err(WowswapError::BorrowLimitExceeded)
                    } else {
                        match (
                            accuracy_spec(governance.max_leverage_factor as int),
                            accuracy_spec(governance.max_rate_multiplier as int),
                        ) {
                            (Some(max_leverage), Some(max_multiplier)) => match rate_multiplier_spec(
                                leverage,
                                max_leverage,
                                max_multiplier,
                            ) {
                                None => Err(WowswapError::ComputationFault),
                                Some(multiplier) => match borrow_spec(
                                    reserve,
                                    SwapPositionState {
                                        loan: TokenAmount((position.loan@ + borrowed) as u64),
                                        ..position
                                    },
                                    governance,
                                    now,
                                    total_debt,
                                    borrowed,
                                    multiplier,
                                    reserve_vault,
                                ) {
                                    None => Err(WowswapError::ComputationFault),
                                    Some((r, p)) => Ok(
                                        (
                                            r,
                                            SwapState { total_loan: TokenAmount(total_loan as u64) },
                                            p,
                                            returned,
                                        ),
                                    ),
                                },
                            },
                            _ => Err(WowswapError::ComputationFault),
                        }
                    },
                },
            },
            _ => Err(WowswapError::ComputationFault),
        }
    }
}

/// Settles an open once the buy has filled and `pc_vault_balance` quote
/// funds are left in the market's vault. `native_pc_qty_loan` is what was
/// drawn from the reserve, `reserve_vault_balance` the reserve's vault
/// before that. Returns what goes back to the reserve and to the trader;
/// on failure no record changes.
pub fn settle_open(
    reserve: &mut Reserve,
    swap: &mut SwapState,
    position: &mut SwapPositionState,
    governance: &Governance,
    timestamp: UnixTimestamp,
    leverage_factor: Factor,
    native_pc_qty_loan: TokenAmount,
    pc_vault_balance: TokenAmount,
    reserve_vault_balance: TokenAmount,
) -> (r: Result<Settlement, WowswapError>)
    ensures
        match settle_open_spec(
            *old(reserve),
            *old(swap),
            *old(position),
            *governance,
            timestamp,
            leverage_factor@,
            native_pc_qty_loan@,
            pc_vault_balance@,
            reserve_vault_balance@,
        ) {
            Ok((next, s, p, returned)) => r matches Ok(o) && o.reward@ == 0 && o.reserve_return@
                == returned && o.trader_return@ == pc_vault_balance@ - returned && *final(reserve)
                == next && *final(swap) == s && *final(position) == p,
            Err(e) => r == Err::<Settlement, WowswapError>(e) && *final(reserve) == *old(reserve)
                && *final(swap) == *old(swap) && *final(position) == *old(position),
        },
{
    let returned = if native_pc_qty_loan.into_inner() <= pc_vault_balance.into_inner() {
        native_pc_qty_loan
    } else {
        pc_vault_balance
    };
    let borrowed = native_pc_qty_loan.safe_sub(returned);
    let settlement = Settlement {
        reward: TokenAmount::new(0),
        reserve_return: returned,
        trader_return: pc_vault_balance.safe_sub(returned),
    };
    if borrowed.is_zero() {
        return Ok(settlement);
    }
    let total_loan = match swap.total_loan.checked_add(borrowed) {
        Some(v) => v,
        None => return Err(WowswapError::ComputationFault),
    };
    let mut next_position = *position;
    next_position.loan = match position.loan.checked_add(borrowed) {
        Some(v) => v,
        None => return Err(WowswapError::ComputationFault),
    };
    let allowance = governance.pool_utilization_allowance();
    let total_debt = reserve.debt.get_total_debt(timestamp);
    let (allowance, total_debt) = match (allowance, total_debt) {
        (Some(a), Some(d)) => (a, d),
        _ => return Err(WowswapError::ComputationFault),
    };
    let total_liquidity = match reserve.get_total_liquidity(total_debt, reserve_vault_balance) {
        Some(v) => v,
        None => return Err(WowswapError::ComputationFault),
    };
    let borrow_limit = match allowance.percentage_mul(total_liquidity.into_inner() as u128) {
        Some(v) => match TokenAmount::from_u128(v) {
            Some(l) => l,
            None => return Err(WowswapError::ComputationFault),
        },
        None => return Err(WowswapError::ComputationFault),
    };
    if total_loan.into_inner() >= borrow_limit.into_inner() {
        return Err(WowswapError::BorrowLimitExceeded);
    }
    let multiplier = match rate_multiplier(governance, leverage_factor) {
        Some(v) => v,
        None => return Err(WowswapError::ComputationFault),
    };
    let mut next_reserve = *reserve;
    if !borrow(
        &mut next_reserve,
        &mut next_position,
        governance,
        timestamp,
        total_debt,
        borrowed,
        multiplier,
        reserve_vault_balance,
    ) {
        return Err(WowswapError::ComputationFault);
    }
    *reserve = next_reserve;
    swap.total_loan = total_loan;
    *position = next_position;
    Ok(settlement)
}

/// What closing part of a position, or liquidating it, asks of the venue
/// and of the custodian.
#[derive(Debug, Clone, Copy)]
pub struct SellOrder {
    pub limit_price: DexLimitPrice,
    /// Base lots to sell.
    pub coin_qty: DexNonZeroTokenQty,
    /// Receipt tokens to burn: `coin_qty` in native base units.
    pub native_coin_qty: TokenAmount,
    /// Quote amount the order may reach, fees included.
    pub native_pc_qty_including_fees: DexNonZeroTokenAmount,
}

/// Plans the sell of `coin_qty` base lots at `limit_price`.
pub fn close_order(lot_sizes: MarketLotSizes, limit_price: DexLimitPrice, coin_qty: DexNonZeroTokenQty) -> (r: Result<SellOrder, WowswapError>)
    ensures
        ({
            let pc_lot = limit_price@ * lot_sizes.pc;
            if lot_sizes.coin == 0 || coin_qty@ * lot_sizes.coin > u64::MAX || pc_lot == 0 || pc_lot
                > u64::MAX || pc_lot * coin_qty@ > u64::MAX {
                r == Err::<SellOrder, WowswapError>(WowswapError::InvalidArgument)
            } else {
                r matches Ok(o) && o.limit_price == limit_price && o.coin_qty == coin_qty
                    && o.native_coin_qty@ == coin_qty@ * lot_sizes.coin
                    && o.native_pc_qty_including_fees@ == pc_lot * coin_qty@
            }
        }),
{
    let ghost q = coin_qty@;
    let native_coin_qty = match coin_qty.checked_mul_lot_size(lot_sizes.coin) {
        Some(v) => v.as_token_amount(),
        None => {
            assert(q * lot_sizes.coin == 0 <==> lot_sizes.coin == 0) by (nonlinear_arith)
                requires
                    q > 0,
            ;
            return Err(WowswapError::InvalidArgument);
        },
    };
    assert(q * lot_sizes.coin == 0 <==> lot_sizes.coin == 0) by (nonlinear_arith)
        requires
            q > 0,
    ;
    let native_pc_qty_including_fees = match limit_price.checked_mul_lot_size(lot_sizes.pc) {
        Some(v) => match v.checked_mul_nonzero_token_qty(coin_qty) {
            Some(w) => w,
            None => return Err(WowswapError::InvalidArgument),
        },
        None => return Err(WowswapError::InvalidArgument),
    };
    Ok(SellOrder { limit_price, coin_qty, native_coin_qty, native_pc_qty_including_fees })
}

/// Records after a close whose sell left `balance` quote funds in the
/// market's vault, and what goes back to the reserve. The proceeds repay
/// the position's debt; when they fall short, only the matching share of
/// its loan is cleared.
pub open spec fn settle_close_spec(
    reserve: Reserve,
    swap: SwapState,
    position: SwapPositionState,
    governance: Governance,
    now: UnixTimestamp,
    balance: int,
    reserve_vault: int,
) -> Option<(Reserve, SwapState, SwapPositionState, int)> {
    match projected_debt(position.amount@, position.rate@, position.timestamp@, now@) {
        None => None,
        Some(debt) => if debt == 0 {
            Some((reserve, swap, position, 0int))
        } else {
            let change = if debt > balance {
                balance
            } else {
                debt
            };
            let loan_change = if debt > balance {
                share_spec(balance, debt, position.loan@)
            } else {
                Some(position.loan@)
            };
            match loan_change {
                None => None,
                Some(lc) => if swap.total_loan@ < lc || position.loan@ < lc {
                    None
                } else {
                    match repay_spec(
                        reserve,
                        SwapPositionState { loan: TokenAmount((position.loan@ - lc) as u64), ..position },
                        governance,
                        now,
                        change,
                        reserve_vault,
                    ) {
                        None => None,
                        Some((r, p)) => Some(
                            (
                                r,
                                SwapState { total_loan: TokenAmount((swap.total_loan@ - lc) as u64) },
                                p,
                                change,
                            ),
                        ),
                    }
                },
            }
        },
    }
}

/// Settles a close once the sell has filled and `pc_vault_balance` quote
/// funds are in the market's vault; `reserve_vault_balance` is the
/// reserve's vault before the repayment. Returns what goes back to the
/// reserve and to the trader; on failure no record changes.
pub fn settle_close(
    reserve: &mut Reserve,
    swap: &mut SwapState,
    position: &mut SwapPositionState,
    governance: &Governance,
    timestamp: UnixTimestamp,
    pc_vault_balance: TokenAmount,
    reserve_vault_balance: TokenAmount,
) -> (r: Result<Settlement, WowswapError>)
    ensures
        match settle_close_spec(
            *old(reserve),
            *old(swap),
            *old(position),
            *governance,
            timestamp,
            pc_vault_balance@,
            reserve_vault_balance@,
        ) {
            Some((next, s, p, repaid)) => r matches Ok(o) && o.reward@ == 0 && o.reserve_return@
                == repaid && o.trader_return@ == pc_vault_balance@ - repaid && *final(reserve)
                == next && *final(swap) == s && *final(position) == p,
            None => r == Err::<Settlement, WowswapError>(WowswapError::ComputationFault)
                && *final(reserve) == *old(reserve) && *final(swap) == *old(swap)
                && *final(position) == *old(position),
        },
{
    let current_debt = match position.get_debt(timestamp) {
        Some(v) => v,
        None => return Err(WowswapError::ComputationFault),
    };
    if current_debt.is_zero() {
        return Ok(
            Settlement {
                reward: TokenAmount::new(0),
                reserve_return: TokenAmount::new(0),
                trader_return: pc_vault_balance,
            },
        );
    }
    let (debt_change, loan_change) = if current_debt.into_inner() > pc_vault_balance.into_inner() {
        match calculate_share(pc_vault_balance, current_debt, position.loan) {
            Some(lc) => (pc_vault_balance, lc),
            None => return Err(WowswapError::ComputationFault),
        }
    } else {
        (current_debt, position.loan)
    };
    let total_loan = match swap.total_loan.checked_sub(loan_change) {
        Some(v) => v,
        None => return Err(WowswapError::ComputationFault),
    };
    let mut next_position = *position;
    next_position.loan = match position.loan.checked_sub(loan_change) {
        Some(v) => v,
        None => return Err(WowswapError::ComputationFault),
    };
    let mut next_reserve = *reserve;
    if !repay(
        &mut next_reserve,
        &mut next_position,
        governance,
        timestamp,
        debt_change,
        reserve_vault_balance,
    ) {
        return Err(WowswapError::ComputationFault);
    }
    *reserve = next_reserve;
    swap.total_loan = total_loan;
    *position = next_position;
    Ok(
        Settlement {
            reward: TokenAmount::new(0),
            reserve_return: debt_change,
            trader_return: pc_vault_balance.safe_sub(debt_change),
        },
    )
}

/// Plans the forced sale of a position's whole receipt balance
/// `proxy_balance`, at the lowest price.
pub fn liquidation_order(lot_sizes: MarketLotSizes, proxy_balance: TokenAmount) -> (r: Result<SellOrder, WowswapError>)
    ensures
        if lot_sizes.coin == 0 || proxy_balance@ / (lot_sizes.coin as int) == 0 {
            r == Err::<SellOrder, WowswapError>(WowswapError::ComputationFault)
        } else if lot_sizes.pc == 0 || lot_sizes.pc * (proxy_balance@ / (lot_sizes.coin as int))
            > u64::MAX {
            r == Err::<SellOrder, WowswapError>(WowswapError::InvalidArgument)
        } else {
            r matches Ok(o) && o.limit_price@ == 1 && o.coin_qty@ == proxy_balance@ / (
            lot_sizes.coin as int) && o.native_coin_qty == proxy_balance
                && o.native_pc_qty_including_fees@ == lot_sizes.pc * (proxy_balance@ / (
            lot_sizes.coin as int))
        },
{
    let limit_price = match DexLimitPrice::new(1) {
        Some(p) => p,
        None => return Err(WowswapError::ComputationFault),
    };
    let coin_qty = match proxy_balance.checked_div(TokenAmount::new(lot_sizes.coin)) {
        Some(q) => match DexNonZeroTokenQty::from_token_amount(q) {
            Some(v) => v,
            None => return Err(WowswapError::ComputationFault),
        },
        None => return Err(WowswapError::ComputationFault),
    };
    let native_pc_qty_including_fees = match limit_price.checked_mul_lot_size(lot_sizes.pc) {
        Some(v) => match v.checked_mul_nonzero_token_qty(coin_qty) {
            Some(w) => w,
            None => return Err(WowswapError::InvalidArgument),
        },
        None => return Err(WowswapError::InvalidArgument),
    };
    Ok(
        SellOrder {
            limit_price,
            coin_qty,
            native_coin_qty: proxy_balance,
            native_pc_qty_including_fees,
        },
    )
}

/// A position's debt at `now` and what liquidating it may cost at most:
/// the debt plus the governance margin on it.
pub open spec fn liquidation_cost_spec(position: SwapPositionState, governance: Governance, now: UnixTimestamp) -> Option<(int, int)> {
    match projected_debt(position.amount@, position.rate@, position.timestamp@, now@) {
        None => None,
        Some(debt) => match accuracy_spec(governance.liquidation_margin as int) {
            None => None,
            Some(margin) => match percentage_spec(margin, debt) {
                None => None,
                Some(extra) => if extra > u64::MAX || debt + extra > u64::MAX {
                    None
                } else {
                    Some((debt, debt + extra))
                },
            },
        },
    }
}

/// The liquidator's reward on `output` proceeds: the governance share of
/// them, cut down to the cap unless the cap is zero.
pub open spec fn liquidation_reward_spec(governance: Governance, output: int) -> Option<int> {
    match (
        accuracy_spec(governance.max_liquidation_reward as int),
        accuracy_spec(governance.liquidation_reward as int),
    ) {
        (Some(cap), Some(factor)) => match percentage_spec(factor, output) {
            None => None,
            Some(x) => if x > u64::MAX {
                None
            } else if cap != 0 && cap < x {
                Some(cap)
            } else {
                Some(x)
            },
        },
        _ => None,
    }
}

/// Records after a forced sale that brought in `output`, with the reward,
/// the repayment to the reserve and the trader's remainder. Refused when
/// `output` exceeds the liquidation cost: the position was healthy.
pub open spec fn settle_liquidation_spec(
    reserve: Reserve,
    swap: SwapState,
    position: SwapPositionState,
    governance: Governance,
    now: UnixTimestamp,
    output: int,
    reserve_vault: int,
) -> Result<(Reserve, SwapState, SwapPositionState, int, int, int), WowswapError> {
    match liquidation_cost_spec(position, governance, now) {
        None => Err(WowswapError::ComputationFault),
        Some((debt, cost)) => if output > cost {
            Err(WowswapError::LiquidateHealthyPosition)
        } else {
            match liquidation_reward_spec(governance, output) {
                None => Err(WowswapError::ComputationFault),
                Some(reward) => if reward > output || swap.total_loan@ < position.loan@ {
                    Err(WowswapError::ComputationFault)
                } else {
                    let left = output - reward;
                    let to_reserve = if left > debt {
                        debt
                    } else {
                        left
                    };
                    match repay_spec(
                        reserve,
                        SwapPositionState { loan: TokenAmount(0), ..position },
                        governance,
                        now,
                        debt,
                        reserve_vault,
                    ) {
                        None => Err(WowswapError::ComputationFault),
                        Some((r, p)) => Ok(
                            (
                                r,
                                SwapState {
                                    total_loan: TokenAmount((swap.total_loan@ - position.loan@) as u64),
                                },
                                p,
                                reward,
                                to_reserve,
                                left - to_reserve,
                            ),
                        ),
                    }
                }
            }
        },
    }
}

/// Settles a liquidation once the forced sale has brought `amount_output`
/// quote funds into the market's vault; `reserve_vault_balance` is the
/// reserve's vault before the repayment. The whole debt is written off the
/// reserve and the position's loan cleared. On failure no record changes.
pub fn settle_liquidation(
    reserve: &mut Reserve,
    swap: &mut SwapState,
    position: &mut SwapPositionState,
    governance: &Governance,
    timestamp: UnixTimestamp,
    amount_output: TokenAmount,
    reserve_vault_balance: TokenAmount,
) -> (r: Result<Settlement, WowswapError>)
    ensures
        match settle_liquidation_spec(
            *old(reserve),
            *old(swap),
            *old(position),
            *governance,
            timestamp,
            amount_output@,
            reserve_vault_balance@,
        ) {
            Ok((next, s, p, reward, to_reserve, to_trader)) => r matches Ok(o) && o.reward@ == reward
                && o.reserve_return@ == to_reserve && o.trader_return@ == to_trader && *final(
            reserve) == next && *final(swap) == s && *final(position) == p,
            Err(e) => r == Err::<Settlement, WowswapError>(e) && *final(reserve) == *old(reserve)
                && *final(swap) == *old(swap) && *final(position) == *old(position),
        },
{
    let current_debt = match position.get_debt(timestamp) {
        Some(v) => v,
        None => return Err(WowswapError::ComputationFault),
    };
    let margin = match governance.liquidation_margin() {
        Some(v) => v,
        None => return Err(WowswapError::ComputationFault),
    };
    let liquidation_cost = match margin.percentage_mul(current_debt.into_inner() as u128) {
        Some(x) => match TokenAmount::from_u128(x) {
            Some(extra) => match current_debt.checked_add(extra) {
                Some(c) => c,
                None => return Err(WowswapError::ComputationFault),
            },
            None => return Err(WowswapError::ComputationFault),
        },
        None => return Err(WowswapError::ComputationFault),
    };
    if amount_output.into_inner() > liquidation_cost.into_inner() {
        return Err(WowswapError::LiquidateHealthyPosition);
    }
    let max_reward = governance.max_liquidation_reward();
    let reward_factor = governance.liquidation_reward();
    let (max_reward, reward_factor) = match (max_reward, reward_factor) {
        (Some(m), Some(f)) => (m, f),
        _ => return Err(WowswapError::ComputationFault),
    };
    let mut reward = match reward_factor.percentage_mul(amount_output.into_inner() as u128) {
        Some(x) => match TokenAmount::from_u128(x) {
            Some(v) => v,
            None => return Err(WowswapError::ComputationFault),
        },
        None => return Err(WowswapError::ComputationFault),
    };
    if !max_reward.is_zero() && max_reward.into_inner() < reward.into_inner() {
        reward = max_reward;
    }
    let amount_left = match amount_output.checked_sub(reward) {
        Some(v) => v,
        None => return Err(WowswapError::ComputationFault),
    };
    let total_loan = match swap.total_loan.checked_sub(position.loan) {
        Some(v) => v,
        None => return Err(WowswapError::ComputationFault),
    };
    let to_reserve = if amount_left.into_inner() > current_debt.into_inner() {
        current_debt
    } else {
        amount_left
    };
    let mut next_position = *position;
    next_position.loan = TokenAmount::new(0);
    let mut next_reserve = *reserve;
    if !repay(
        &mut next_reserve,
        &mut next_position,
        governance,
        timestamp,
        current_debt,
        reserve_vault_balance,
    ) {
        return Err(WowswapError::ComputationFault);
    }
    *reserve = next_reserve;
    swap.total_loan = total_loan;
    *position = next_position;
    Ok(
        Settlement {
            reward,
            reserve_return: to_reserve,
            trader_return: amount_left.safe_sub(to_reserve),
        },
    )
}

/// The solvency gate of liquidation. The cost is the debt plus the margin
/// on it, rounded half up. A sale that brought in more than the cost is
/// refused as a liquidation of a healthy position; any other goes through
/// or fails only on a computation fault, and the reward it pays never
/// exceeds a non-zero cap.
pub proof fn lemma_liquidation_gate(
    reserve: Reserve,
    swap: SwapState,
    position: SwapPositionState,
    governance: Governance,
    now: UnixTimestamp,
    output: int,
    reserve_vault: int,
)
    requires
        liquidation_cost_spec(position, governance, now) is Some,
    ensures
        ({
            let (debt, cost) = liquidation_cost_spec(position, governance, now).unwrap();
            let margin = accuracy_spec(governance.liquidation_margin as int).unwrap();
            let cap = accuracy_spec(governance.max_liquidation_reward as int);
            let outcome = settle_liquidation_spec(
                reserve,
                swap,
                position,
                governance,
                now,
                output,
                reserve_vault,
            );
            &&& cost == debt + round_div(debt * margin, FACTOR as int)
            &&& output > cost ==> outcome == Err::<
                (Reserve, SwapState, SwapPositionState, int, int, int),
                WowswapError,
            >(WowswapError::LiquidateHealthyPosition)
            &&& output <= cost ==> (outcome is Ok || outcome == Err::<
                (Reserve, SwapState, SwapPositionState, int, int, int),
                WowswapError,
            >(WowswapError::ComputationFault))
            &&& outcome matches Ok(t) ==> cap is Some && (cap.unwrap() == 0 || t.3 <= cap.unwrap())
        }),
{
}

} // verus!
