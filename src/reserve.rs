//! Reserve accounting: pool-wide debt, its debt-weighted average rate,
//! treasury fees and the utilization-driven borrow rate.

use vstd::prelude::*;

use crate::error::WowswapError;
use crate::governance::{accuracy_spec, Governance};
use crate::interest::{borrow_rate, borrow_rate_spec, compounded_spec};
use crate::liquidity::{calculate_share, mint_amount, mint_amount_spec, share_spec};
use crate::math::{
    amount_spec, opt_amount, percentage_spec, wad_div_spec, wad_mul_spec, rate_spec, ray_div_spec, ray_mul_spec, Factor, Rate, Ray,
    TokenAmount, UnixTimestamp, RAY, RAY_RATIO,
};
use crate::swap::{debt_increase_spec, project_debt, projected_debt, SwapPositionState};

verus! {

#[derive(Debug, Default, Clone, Copy, PartialEq, Eq, Structural)]
pub struct ReserveState {
    /// Current per-second borrow rate.
    pub borrow_rate: Rate,
    /// Fees owed to the treasury and not yet withdrawn.
    pub treasure_accrued: TokenAmount,
    /// When the treasury fees were last brought up to date.
    pub treasurer_update: UnixTimestamp,
}

#[derive(Debug, Default, Clone, Copy, PartialEq, Eq, Structural)]
pub struct ReserveDebt {
    /// Debt-weighted average of the positions' locked rates.
    pub average_rate: Rate,
    /// Outstanding debt as of `last_update`.
    pub total: TokenAmount,
    pub last_update: UnixTimestamp,
}

/// The shared pool of one lendable asset.
#[derive(Debug, Default, Clone, Copy, PartialEq, Eq, Structural)]
pub struct Reserve {
    pub state: ReserveState,
    pub debt: ReserveDebt,
}

/// Treasury fees after bringing them up to a pool debt of `current_debt`:
/// the treasury's share of the interest accrued since the last checkpoint
/// is added. Nothing is added while the debt is zero.
pub open spec fn fee_accrued_spec(reserve: Reserve, governance: Governance, current_debt: int) -> Option<int> {
    let fee = if current_debt == 0 {
        Some(0int)
    } else {
        match projected_debt(
            reserve.debt.total@,
            reserve.debt.average_rate@,
            reserve.debt.last_update@,
            reserve.state.treasurer_update@,
        ) {
            None => None,
            Some(previous) => if current_debt < previous {
                None
            } else {
                match accuracy_spec(governance.treasure_factor as int) {
                    None => None,
                    Some(f) => match percentage_spec(f, current_debt - previous) {
                        None => None,
                        Some(x) => amount_spec(x),
                    },
                }
            },
        }
    };
    match fee {
        None => None,
        Some(f) => amount_spec(reserve.state.treasure_accrued@ + f),
    }
}

/// The reserve once its treasury fees are brought up to `now`.
pub open spec fn update_state_spec(reserve: Reserve, governance: Governance, total_debt: int, now: UnixTimestamp) -> Option<Reserve> {
    match fee_accrued_spec(reserve, governance, total_debt) {
        None => None,
        Some(t) => Some(
            Reserve {
                state: ReserveState {
                    treasure_accrued: TokenAmount(t as u64),
                    treasurer_update: now,
                    ..reserve.state
                },
                ..reserve
            },
        ),
    }
}

/// Liquidity the pool stands for: its debt plus its vault, less the fees
/// owed to the treasury.
pub open spec fn total_liquidity_spec(reserve: Reserve, total_debt: int, liquidity: int) -> Option<int> {
    if total_debt + liquidity > u64::MAX {
        None
    } else {
        amount_spec(total_debt + liquidity - reserve.state.treasure_accrued@)
    }
}

/// The borrow rate once debt and liquidity have changed by the given
/// amounts.
pub open spec fn refreshed_rate_spec(
    governance: Governance,
    liquidity: int,
    liquidity_added: int,
    liquidity_removed: int,
    total_debt: int,
    debt_added: int,
    debt_removed: int,
) -> Option<int> {
    let debt = total_debt + debt_added - debt_removed;
    let liq = liquidity + liquidity_added - liquidity_removed;
    if total_debt + debt_added > u64::MAX || debt < 0 || liquidity + liquidity_added > u64::MAX
        || liq < 0 {
        None
    } else {
        borrow_rate_spec(
            debt,
            liq,
            governance.base_borrow_rate as int,
            governance.excess_slope as int,
            governance.optimal_slope as int,
            governance.optimal_utilization as int,
        )
    }
}

pub open spec fn with_borrow_rate(reserve: Reserve, rate: int) -> Reserve {
    Reserve { state: ReserveState { borrow_rate: Rate(rate as u128), ..reserve.state }, ..reserve }
}

/// `(rate * principal + added) / new_principal`, the products taken at ray
/// scale and the result read back as a rate.
pub open spec fn blended_rate(rate: int, principal: int, added: int, new_principal: int) -> Option<int> {
    match ray_mul_spec(rate / RAY_RATIO as int, principal * RAY_RATIO) {
        None => None,
        Some(m) => if m + added > u128::MAX {
            None
        } else {
            match ray_div_spec(m + added, new_principal * RAY_RATIO) {
                None => None,
                Some(q) => rate_spec(q),
            }
        },
    }
}

/// Reserve and position after the position borrows `amount` at
/// `rate_multiplier` times the borrow rate: the pool total becomes
/// `previous_total + amount`, the position's debt is projected to `now` and
/// grows by `amount`, and both rates become principal-weighted blends of
/// the old rate and the new one.
pub open spec fn increase_debt_spec(
    reserve: Reserve,
    position: SwapPositionState,
    now: UnixTimestamp,
    previous_total: int,
    amount: int,
    rate_multiplier: int,
) -> Option<(Reserve, SwapPositionState)> {
    match percentage_spec(rate_multiplier, reserve.state.borrow_rate@) {
        None => None,
        Some(rate) => match ray_mul_spec(amount * RAY_RATIO, rate / RAY_RATIO as int) {
            None => None,
            Some(added) => match debt_increase_spec(position, now@) {
                None => None,
                Some((current, increase)) => {
                    let next_total = previous_total + amount;
                    let new_amount = position.amount@ + amount + increase;
                    if next_total > u64::MAX || new_amount > u64::MAX || current + amount > u64::MAX {
                        None
                    } else {
                        match (
                            blended_rate(position.rate@, current, added, current + amount),
                            blended_rate(reserve.debt.average_rate@, previous_total, added, next_total),
                        ) {
                            (Some(position_rate), Some(average_rate)) => Some(
                                (
                                    Reserve {
                                        debt: ReserveDebt {
                                            average_rate: Rate(average_rate as u128),
                                            total: TokenAmount(next_total as u64),
                                            last_update: now,
                                        },
                                        ..reserve
                                    },
                                    SwapPositionState {
                                        amount: TokenAmount(new_amount as u64),
                                        rate: Rate(position_rate as u128),
                                        timestamp: now,
                                        ..position
                                    },
                                ),
                            ),
                            _ => None,
                        }
                    }
                },
            },
        },
    }
}

/// Pool debt and average rate once a position paying `rate` repays
/// `change` of a pool total `total`. Both go to zero when the repayment
/// reaches the total, or when the position's rate-weighted share exceeds
/// the pool's: independent compounding can leave the last borrower owing
/// more than the pool records. With equal shares the pool keeps
/// `total - change` at an average rate of zero.
pub open spec fn pool_after_repayment(average_rate: int, rate: int, total: int, change: int) -> Option<(int, int)> {
    if total <= change {
        Some((0int, 0int))
    } else {
        match (
            ray_mul_spec(average_rate / RAY_RATIO as int, total * RAY_RATIO),
            ray_mul_spec(rate / RAY_RATIO as int, change * RAY_RATIO),
        ) {
            (Some(first), Some(second)) => if second > first {
                Some((0int, 0int))
            } else {
                match ray_div_spec(first - second, (total - change) * RAY_RATIO) {
                    None => None,
                    Some(q) => match rate_spec(q) {
                        None => None,
                        Some(average) => Some((total - change, average)),
                    },
                }
            },
            _ => None,
        }
    }
}

/// Reserve and position after the position repays `change`: the position's
/// debt is projected to `now` and reduced, or zeroed when `change` is all of
/// it; the pool follows `pool_after_repayment`.
pub open spec fn decrease_debt_spec(
    reserve: Reserve,
    position: SwapPositionState,
    now: UnixTimestamp,
    total: int,
    change: int,
) -> Option<(Reserve, SwapPositionState)> {
    match debt_increase_spec(position, now@) {
        None => None,
        Some((current, increase)) => {
            let next_position = if change == current {
                Some(
                    SwapPositionState {
                        rate: Rate(0),
                        amount: TokenAmount(0),
                        timestamp: UnixTimestamp(0),
                        ..position
                    },
                )
            } else if position.amount@ + increase > u64::MAX || position.amount@ + increase
                - change < 0 {
                None
            } else {
                Some(
                    SwapPositionState {
                        amount: TokenAmount((position.amount@ + increase - change) as u64),
                        timestamp: now,
                        ..position
                    },
                )
            };
            match (
                pool_after_repayment(reserve.debt.average_rate@, position.rate@, total, change),
                next_position,
            ) {
                (Some((t, average)), Some(p)) => Some(
                    (
                        Reserve {
                            debt: ReserveDebt {
                                average_rate: Rate(average as u128),
                                total: TokenAmount(t as u64),
                                last_update: now,
                            },
                            ..reserve
                        },
                        p,
                    ),
                ),
                _ => None,
            }
        },
    }
}

/// A deposit of `amount` into a pool whose vault holds `liquidity` and whose
/// receipts have `total_supply`: fees and borrow rate are brought up to
/// `now`, and the receipt tokens to mint are returned.
pub open spec fn deposit_spec(
    reserve: Reserve,
    governance: Governance,
    now: UnixTimestamp,
    liquidity: int,
    total_supply: int,
    amount: int,
) -> Option<(Reserve, int)> {
    match projected_debt(
        reserve.debt.total@,
        reserve.debt.average_rate@,
        reserve.debt.last_update@,
        now@,
    ) {
        None => None,
        Some(total_debt) => match update_state_spec(reserve, governance, total_debt, now) {
            None => None,
            Some(updated) => match refreshed_rate_spec(
                governance,
                liquidity,
                amount,
                0,
                total_debt,
                0,
                0,
            ) {
                None => None,
                Some(rate) => {
                    let next = with_borrow_rate(updated, rate);
                    match total_liquidity_spec(next, total_debt, liquidity) {
                        None => None,
                        Some(total_liquidity) => match mint_amount_spec(
                            amount,
                            total_supply,
                            total_liquidity,
                        ) {
                            None => None,
                            Some(minted) => Some((next, minted)),
                        },
                    }
                },
            },
        },
    }
}

/// Receipts to burn and funds to pay out when `amount` receipts are
/// redeemed: the share of the pool they stand for, cut down to what the
/// vault holds (and the receipts burnt in proportion).
pub open spec fn redemption_spec(amount: int, share: int, liquidity: int) -> Option<(int, int)> {
    if share > liquidity {
        match wad_div_spec(liquidity, share) {
            None => None,
            Some(portion) => match wad_mul_spec(amount, portion) {
                None => None,
                Some(burn) => match amount_spec(burn) {
                    None => None,
                    Some(b) => Some((b, liquidity)),
                },
            },
        }
    } else {
        Some((amount, share))
    }
}

/// A withdrawal of `amount` receipts: returns the reserve with fees and
/// borrow rate brought up to `now`, the receipts to burn and the funds to
/// pay out.
pub open spec fn withdraw_spec(
    reserve: Reserve,
    governance: Governance,
    now: UnixTimestamp,
    liquidity: int,
    total_supply: int,
    amount: int,
) -> Option<(Reserve, int, int)> {
    match projected_debt(
        reserve.debt.total@,
        reserve.debt.average_rate@,
        reserve.debt.last_update@,
        now@,
    ) {
        None => None,
        Some(total_debt) => match total_liquidity_spec(reserve, total_debt, liquidity) {
            None => None,
            Some(total_liquidity) => match share_spec(amount, total_supply, total_liquidity) {
                None => None,
                Some(share) => match redemption_spec(amount, share, liquidity) {
                    None => None,
                    Some((burn, payout)) => match update_state_spec(
                        reserve,
                        governance,
                        total_debt,
                        now,
                    ) {
                        None => None,
                        Some(updated) => match refreshed_rate_spec(
                            governance,
                            liquidity,
                            0,
                            payout,
                            total_debt,
                            0,
                            0,
                        ) {
                            None => None,
                            Some(rate) => Some((with_borrow_rate(updated, rate), burn, payout)),
                        },
                    },
                },
            },
        },
    }
}

/// A repayment of the whole pool total, or more, leaves the pool with no
/// debt and no average rate.
pub proof fn lemma_last_borrower_zeroing(
    reserve: Reserve,
    position: SwapPositionState,
    now: UnixTimestamp,
    total: int,
    amount: int,
)
    requires
        amount >= total,
    ensures
        decrease_debt_spec(reserve, position, now, total, amount) matches Some((next, _)) ==> next.debt.total@
            == 0 && next.debt.average_rate@ == 0,
{
}

/// One change of a position's debt.
#[derive(Debug, Clone, Copy, PartialEq, Eq, Structural)]
pub enum DebtChange {
    Borrow { amount: u64, rate_multiplier: u64 },
    Repay { amount: u64 },
}

/// Applies `changes` in order at `now`, each against the pool total
/// projected to `now`, as the position operations do.
pub open spec fn apply_debt_changes(
    reserve: Reserve,
    position: SwapPositionState,
    now: UnixTimestamp,
    changes: Seq<DebtChange>,
) -> Option<(Reserve, SwapPositionState)>
    decreases changes.len(),
{
    if changes.len() == 0 {
        Some((reserve, position))
    } else {
        match projected_debt(
            reserve.debt.total@,
            reserve.debt.average_rate@,
            reserve.debt.last_update@,
            now@,
        ) {
            None => None,
            Some(total) => {
                let step = match changes[0] {
                    DebtChange::Borrow { amount, rate_multiplier } => increase_debt_spec(
                        reserve,
                        position,
                        now,
                        total,
                        amount as int,
                        rate_multiplier as int,
                    ),
                    DebtChange::Repay { amount } => decrease_debt_spec(
                        reserve,
                        position,
                        now,
                        total,
                        amount as int,
                    ),
                };
                match step {
                    None => None,
                    Some((r, p)) => apply_debt_changes(r, p, now, changes.drop_first()),
                }
            },
        }
    }
}

/// Amounts borrowed less amounts repaid.
pub open spec fn net_borrowed(changes: Seq<DebtChange>) -> int
    decreases changes.len(),
{
    if changes.len() == 0 {
        0
    } else {
        let head = match changes[0] {
            DebtChange::Borrow { amount, .. } => amount as int,
            DebtChange::Repay { amount } => -(amount as int),
        };
        head + net_borrowed(changes.drop_first())
    }
}

/// The pool resets to zero on a repayment of `change` out of `total` by a
/// position paying `rate` (see `pool_after_repayment`).
pub open spec fn repayment_resets_pool(average_rate: int, rate: int, total: int, change: int) -> bool {
    total <= change || match (
        ray_mul_spec(average_rate / RAY_RATIO as int, total * RAY_RATIO),
        ray_mul_spec(rate / RAY_RATIO as int, change * RAY_RATIO),
    ) {
        (Some(first), Some(second)) => second > first,
        _ => false,
    }
}

/// No repayment along `changes` takes the pool's reset to zero.
pub open spec fn no_reset_along(
    reserve: Reserve,
    position: SwapPositionState,
    now: UnixTimestamp,
    changes: Seq<DebtChange>,
) -> bool
    decreases changes.len(),
{
    if changes.len() == 0 {
        true
    } else {
        match projected_debt(
            reserve.debt.total@,
            reserve.debt.average_rate@,
            reserve.debt.last_update@,
            now@,
        ) {
            None => true,
            Some(total) => {
                let (step, resets) = match changes[0] {
                    DebtChange::Borrow { amount, rate_multiplier } => (
                        increase_debt_spec(
                            reserve,
                            position,
                            now,
                            total,
                            amount as int,
                            rate_multiplier as int,
                        ),
                        false,
                    ),
                    DebtChange::Repay { amount } => (
                        decrease_debt_spec(reserve, position, now, total, amount as int),
                        repayment_resets_pool(
                            reserve.debt.average_rate@,
                            position.rate@,
                            total,
                            amount as int,
                        ),
                    ),
                };
                !resets && match step {
                    None => true,
                    Some((r, p)) => no_reset_along(r, p, now, changes.drop_first()),
                }
            },
        }
    }
}

/// A debt brought up to the time it was last updated is unchanged.
pub proof fn lemma_projection_without_elapsed_time(amount: int, rate: int, now: int)
    requires
        0 <= amount <= u64::MAX,
        0 <= rate,
    ensures
        projected_debt(amount, rate, now, now) == Some(amount),
{
    assert(compounded_spec(rate, now, now) == Some(RAY as int));
    assert(amount * RAY + RAY / 2 <= u128::MAX && (amount * RAY + RAY / 2) / (RAY as int)
        == amount) by (nonlinear_arith)
        requires
            0 <= amount <= u64::MAX,
    ;
}

/// Debt conservation over a run of borrows and repayments by one position
/// at one time `now`: unless a repayment resets the pool, the pool total
/// afterwards is the total projected to `now` plus what was borrowed less
/// what was repaid. The projection is the only interest: with the pool last
/// updated at `now`, it is the recorded total itself, so the rounding error
/// over a run at one time is zero. A reset happens only when the repayment
/// reaches the pool total or the position's rate-weighted share exceeds the
/// pool's; equal shares (zero rates among them) keep the remainder.
pub proof fn lemma_debt_conservation(
    reserve: Reserve,
    position: SwapPositionState,
    now: UnixTimestamp,
    changes: Seq<DebtChange>,
)
    requires
        changes.len() > 0,
        apply_debt_changes(reserve, position, now, changes) is Some,
        no_reset_along(reserve, position, now, changes),
    ensures
        ({
            let projected = projected_debt(
                reserve.debt.total@,
                reserve.debt.average_rate@,
                reserve.debt.last_update@,
                now@,
            );
            let (next, _) = apply_debt_changes(reserve, position, now, changes).unwrap();
            &&& projected is Some
            &&& next.debt.total@ == projected.unwrap() + net_borrowed(changes)
            &&& reserve.debt.last_update == now ==> next.debt.total@ == reserve.debt.total@
                + net_borrowed(changes)
        }),
    decreases changes.len(),
{
    let total = projected_debt(
        reserve.debt.total@,
        reserve.debt.average_rate@,
        reserve.debt.last_update@,
        now@,
    ).unwrap();
    let step = match changes[0] {
        DebtChange::Borrow { amount, rate_multiplier } => increase_debt_spec(
            reserve,
            position,
            now,
            total,
            amount as int,
            rate_multiplier as int,
        ),
        DebtChange::Repay { amount } => decrease_debt_spec(reserve, position, now, total, amount as int),
    };
    let (r, p) = step.unwrap();
    let rest = changes.drop_first();
    assert(r.debt.total@ == total + match changes[0] {
        DebtChange::Borrow { amount, .. } => amount as int,
        DebtChange::Repay { amount } => -(amount as int),
    });
    assert(apply_debt_changes(reserve, position, now, changes) == apply_debt_changes(
        r,
        p,
        now,
        rest,
    ));
    assert(no_reset_along(r, p, now, rest));
    if rest.len() > 0 {
        lemma_projection_without_elapsed_time(r.debt.total@, r.debt.average_rate@, now@);
        lemma_debt_conservation(r, p, now, rest);
    } else {
        assert(net_borrowed(rest) == 0);
    }
    if reserve.debt.last_update == now {
        lemma_projection_without_elapsed_time(
            reserve.debt.total@,
            reserve.debt.average_rate@,
            now@,
        );
    }
}

impl ReserveDebt {
    /// The pool debt compounded at the average rate up to `timestamp`.
    pub fn get_total_debt(&self, timestamp: UnixTimestamp) -> (r: Option<TokenAmount>)
        ensures
            opt_amount(r) == projected_debt(
                self.total@,
                self.average_rate@,
                self.last_update@,
                timestamp@,
            ),
    {
        project_debt(self.total, self.average_rate, self.last_update, timestamp)
    }
}

/// `x` of a token at ray scale, as a `Ray`.
fn amount_as_ray(x: TokenAmount) -> (r: Ray)
    ensures
        r@ == x@ * RAY_RATIO,
{
    match x.into_wad().into_ray() {
        Some(v) => v,
        None => Ray::new(0),
    }
}

fn blend_rate(rate: Rate, principal: TokenAmount, added: Ray, new_principal: TokenAmount) -> (r: Option<Rate>)
    ensures
        match blended_rate(rate@, principal@, added@, new_principal@) {
            Some(v) => r matches Some(x) && x@ == v,
            None => r is None,
        },
{
    let m = match rate.into_ray().ray_mul(amount_as_ray(principal)) {
        Some(v) => v,
        None => return None,
    };
    let sum = match m.checked_add(added) {
        Some(v) => v,
        None => return None,
    };
    match sum.ray_div(amount_as_ray(new_principal)) {
        Some(q) => q.as_rate(),
        None => None,
    }
}

impl Reserve {
    /// Brings the treasury fees up to a pool debt of `total_debt` at
    /// `timestamp`. On failure the reserve is left as it was.
    pub fn update_state(&mut self, governance: &Governance, total_debt: TokenAmount, timestamp: UnixTimestamp) -> (r: Result<(), WowswapError>)
        ensures
            match update_state_spec(*old(self), *governance, total_debt@, timestamp) {
                Some(next) => r is Ok && *final(self) == next,
                None => r == Err::<(), WowswapError>(WowswapError::ComputationFault) && *final(self)
                    == *old(self),
            },
            r is Ok ==> final(self).state.treasure_accrued@ >= old(self).state.treasure_accrued@,
    {
        match self.get_liquidity_fee_accrued(governance, total_debt) {
            Some(t) => {
                self.state.treasure_accrued = t;
                self.state.treasurer_update = timestamp;
                Ok(())
            },
            None => Err(WowswapError::ComputationFault),
        }
    }

    fn get_liquidity_fee_accrued(&self, governance: &Governance, current_debt: TokenAmount) -> (r: Option<TokenAmount>)
        ensures
            opt_amount(r) == fee_accrued_spec(*self, *governance, current_debt@),
    {
        let fee = if current_debt.is_zero() {
            TokenAmount::new(0)
        } else {
            let previous_debt = match project_debt(
                self.debt.total,
                self.debt.average_rate,
                self.debt.last_update,
                self.state.treasurer_update,
            ) {
                Some(v) => v,
                None => return None,
            };
            let debt_accrued = match current_debt.checked_sub(previous_debt) {
                Some(v) => v,
                None => return None,
            };
            let factor = match governance.treasure_factor() {
                Some(f) => f,
                None => return None,
            };
            match factor.percentage_mul(debt_accrued.into_inner() as u128) {
                Some(x) => match TokenAmount::from_u128(x) {
                    Some(v) => v,
                    None => return None,
                },
                None => return None,
            }
        };
        self.state.treasure_accrued.checked_add(fee)
    }

    /// Liquidity the pool stands for: `total_debt + liquidity` less the fees
    /// owed to the treasury.
    pub fn get_total_liquidity(&self, total_debt: TokenAmount, liquidity: TokenAmount) -> (r: Option<TokenAmount>)
        ensures
            opt_amount(r) == total_liquidity_spec(*self, total_debt@, liquidity@),
    {
        match total_debt.checked_add(liquidity) {
            Some(v) => v.checked_sub(self.state.treasure_accrued),
            None => None,
        }
    }

    /// Sets the borrow rate from the utilization that debt and liquidity
    /// will have after the given changes.
    pub fn update_borrow_rate(
        &mut self,
        governance: &Governance,
        liquidity: TokenAmount,
        liquidity_added: TokenAmount,
        liquidity_removed: TokenAmount,
        total_debt: TokenAmount,
        debt_added: TokenAmount,
        debt_removed: TokenAmount,
    ) -> (r: Result<(), WowswapError>)
        ensures
            match refreshed_rate_spec(
                *governance,
                liquidity@,
                liquidity_added@,
                liquidity_removed@,
                total_debt@,
                debt_added@,
                debt_removed@,
            ) {
                Some(rate) => r is Ok && *final(self) == with_borrow_rate(*old(self), rate),
                None => r == Err::<(), WowswapError>(WowswapError::ComputationFault) && *final(self)
                    == *old(self),
            },
    {
        let debt = match total_debt.checked_add(debt_added) {
            Some(v) => match v.checked_sub(debt_removed) {
                Some(w) => w,
                None => return Err(WowswapError::ComputationFault),
            },
            None => return Err(WowswapError::ComputationFault),
        };
        let liquidity = match liquidity.checked_add(liquidity_added) {
            Some(v) => match v.checked_sub(liquidity_removed) {
                Some(w) => w,
                None => return Err(WowswapError::ComputationFault),
            },
            None => return Err(WowswapError::ComputationFault),
        };
        match borrow_rate(
            debt,
            liquidity,
            governance.base_borrow_rate(),
            governance.excess_slope(),
            governance.optimal_slope(),
            governance.optimal_utilization(),
        ) {
            Some(rate) => {
                self.state.borrow_rate = rate;
                Ok(())
            },
            None => Err(WowswapError::ComputationFault),
        }
    }

    /// Records a new borrow of `amount` by `position`, at `rate_multiplier`
    /// times the current borrow rate, against a pool total of
    /// `previous_total`. On failure neither record changes.
    pub fn increase_debt(
        &mut self,
        position: &mut SwapPositionState,
        timestamp: UnixTimestamp,
        previous_total: TokenAmount,
        amount: TokenAmount,
        rate_multiplier: Factor,
    ) -> (r: Result<(), WowswapError>)
        ensures
            match increase_debt_spec(
                *old(self),
                *old(position),
                timestamp,
                previous_total@,
                amount@,
                rate_multiplier@,
            ) {
                Some((next, p)) => r is Ok && *final(self) == next && *final(position) == p,
                None => r == Err::<(), WowswapError>(WowswapError::ComputationFault) && *final(self)
                    == *old(self) && *final(position) == *old(position),
            },
    {
        let rate = match rate_multiplier.percentage_mul(self.state.borrow_rate.into_inner()) {
            Some(v) => Rate::new(v),
            None => return Err(WowswapError::ComputationFault),
        };
        let amount_ray_rate = match amount_as_ray(amount).ray_mul(rate.into_ray()) {
            Some(v) => v,
            None => return Err(WowswapError::ComputationFault),
        };
        let (current_debt, debt_increase) = match position.calculate_debt_increase(timestamp) {
            Some(p) => p,
            None => return Err(WowswapError::ComputationFault),
        };
        let next_total = match previous_total.checked_add(amount) {
            Some(v) => v,
            None => return Err(WowswapError::ComputationFault),
        };
        let new_amount = match position.amount.checked_add(amount) {
            Some(v) => match v.checked_add(debt_increase) {
                Some(w) => w,
                None => return Err(WowswapError::ComputationFault),
            },
            None => return Err(WowswapError::ComputationFault),
        };
        let debt = match current_debt.checked_add(amount) {
            Some(v) => v,
            None => return Err(WowswapError::ComputationFault),
        };
        let position_rate = match blend_rate(position.rate, current_debt, amount_ray_rate, debt) {
            Some(v) => v,
            None => return Err(WowswapError::ComputationFault),
        };
        let average_rate = match blend_rate(
            self.debt.average_rate,
            previous_total,
            amount_ray_rate,
            next_total,
        ) {
            Some(v) => v,
            None => return Err(WowswapError::ComputationFault),
        };
        position.amount = new_amount;
        position.rate = position_rate;
        position.timestamp = timestamp;
        self.debt.total = next_total;
        self.debt.average_rate = average_rate;
        self.debt.last_update = timestamp;
        Ok(())
    }

    /// Records a repayment of `debt_change` by `position` against a pool
    /// total of `reserve_total_debt`. On failure neither record changes.
    pub fn decrease_debt(
        &mut self,
        position: &mut SwapPositionState,
        timestamp: UnixTimestamp,
        reserve_total_debt: TokenAmount,
        debt_change: TokenAmount,
    ) -> (r: Result<(), WowswapError>)
        ensures
            match decrease_debt_spec(
                *old(self),
                *old(position),
                timestamp,
                reserve_total_debt@,
                debt_change@,
            ) {
                Some((next, p)) => r is Ok && *final(self) == next && *final(position) == p,
                None => r == Err::<(), WowswapError>(WowswapError::ComputationFault) && *final(self)
                    == *old(self) && *final(position) == *old(position),
            },
            r is Ok && debt_change@ >= reserve_total_debt@ ==> final(self).debt.total@ == 0
                && final(self).debt.average_rate@ == 0,
    {
        let (current_debt, debt_increase) = match position.calculate_debt_increase(timestamp) {
            Some(p) => p,
            None => return Err(WowswapError::ComputationFault),
        };
        let (total, average_rate) = if reserve_total_debt.into_inner() <= debt_change.into_inner() {
            (TokenAmount::new(0), Rate::new(0))
        } else {
            let next_total = reserve_total_debt.safe_sub(debt_change);
            let first_term = match self.debt.average_rate.into_ray().ray_mul(
                amount_as_ray(reserve_total_debt),
            ) {
                Some(v) => v,
                None => return Err(WowswapError::ComputationFault),
            };
            let second_term = match position.rate.into_ray().ray_mul(amount_as_ray(debt_change)) {
                Some(v) => v,
                None => return Err(WowswapError::ComputationFault),
            };
            if second_term.into_inner() > first_term.into_inner() {
                (TokenAmount::new(0), Rate::new(0))
            } else {
                let diff = Ray::new(first_term.into_inner() - second_term.into_inner());
                match diff.ray_div(amount_as_ray(next_total)) {
                    Some(q) => match q.as_rate() {
                        Some(rate) => (next_total, rate),
                        None => return Err(WowswapError::ComputationFault),
                    },
                    None => return Err(WowswapError::ComputationFault),
                }
            }
        };
        let next_position = if debt_change.into_inner() == current_debt.into_inner() {
            SwapPositionState {
                loan: position.loan,
                rate: Rate::new(0),
                amount: TokenAmount::new(0),
                timestamp: UnixTimestamp::new(0),
            }
        } else {
            let amount = match position.amount.checked_add(debt_increase) {
                Some(v) => match v.checked_sub(debt_change) {
                    Some(w) => w,
                    None => return Err(WowswapError::ComputationFault),
                },
                None => return Err(WowswapError::ComputationFault),
            };
            SwapPositionState { loan: position.loan, rate: position.rate, amount, timestamp }
        };
        self.debt.total = total;
        self.debt.average_rate = average_rate;
        self.debt.last_update = timestamp;
        *position = next_position;
        Ok(())
    }
    /// Accounts for a deposit of `amount` into the vault, which held
    /// `liquidity`, and returns the receipt tokens to mint. On failure the
    /// reserve is left as it was.
    pub fn deposit(
        &mut self,
        governance: &Governance,
        timestamp: UnixTimestamp,
        liquidity: TokenAmount,
        total_supply: TokenAmount,
        amount: TokenAmount,
    ) -> (r: Result<TokenAmount, WowswapError>)
        ensures
            match deposit_spec(*old(self), *governance, timestamp, liquidity@, total_supply@, amount@) {
                Some((next, minted)) => r matches Ok(v) && v@ == minted && *final(self) == next,
                None => r == Err::<TokenAmount, WowswapError>(WowswapError::ComputationFault)
                    && *final(self) == *old(self),
            },
            final(self).state.treasure_accrued@ >= old(self).state.treasure_accrued@,
    {
        let saved = *self;
        let total_debt = match self.debt.get_total_debt(timestamp) {
            Some(v) => v,
            None => return Err(WowswapError::ComputationFault),
        };
        if self.update_state(governance, total_debt, timestamp).is_err() {
            return Err(WowswapError::ComputationFault);
        }
        let zero = TokenAmount::new(0);
        if self.update_borrow_rate(governance, liquidity, amount, zero, total_debt, zero, zero).is_err() {
            *self = saved;
            return Err(WowswapError::ComputationFault);
        }
        let minted = match self.get_total_liquidity(total_debt, liquidity) {
            Some(total_liquidity) => mint_amount(amount, total_supply, total_liquidity),
            None => None,
        };
        match minted {
            Some(v) => Ok(v),
            None => {
                *self = saved;
                Err(WowswapError::ComputationFault)
            },
        }
    }

    /// Accounts for redeeming `amount` receipt tokens against a vault that
    /// holds `liquidity`; returns the receipts to burn and the funds to pay
    /// out. On failure the reserve is left as it was.
    pub fn withdraw(
        &mut self,
        governance: &Governance,
        timestamp: UnixTimestamp,
        liquidity: TokenAmount,
        total_supply: TokenAmount,
        amount: TokenAmount,
    ) -> (r: Result<(TokenAmount, TokenAmount), WowswapError>)
        ensures
            match withdraw_spec(*old(self), *governance, timestamp, liquidity@, total_supply@, amount@) {
                Some((next, burn, payout)) => r matches Ok((b, p)) && b@ == burn && p@ == payout
                    && *final(self) == next,
                None => r == Err::<(TokenAmount, TokenAmount), WowswapError>(
                    WowswapError::ComputationFault,
                ) && *final(self) == *old(self),
            },
            final(self).state.treasure_accrued@ >= old(self).state.treasure_accrued@,
    {
        let saved = *self;
        let total_debt = match self.debt.get_total_debt(timestamp) {
            Some(v) => v,
            None => return Err(WowswapError::ComputationFault),
        };
        let total_liquidity = match self.get_total_liquidity(total_debt, liquidity) {
            Some(v) => v,
            None => return Err(WowswapError::ComputationFault),
        };
        let share = match calculate_share(amount, total_supply, total_liquidity) {
            Some(v) => v,
            None => return Err(WowswapError::ComputationFault),
        };
        let (burn, payout) = if share.into_inner() > liquidity.into_inner() {
            let portion = match liquidity.into_wad().wad_div(share.into_wad()) {
                Some(v) => v,
                None => return Err(WowswapError::ComputationFault),
            };
            match amount.into_wad().wad_mul(portion) {
                Some(v) => match v.as_token_amount() {
                    Some(b) => (b, liquidity),
                    None => return Err(WowswapError::ComputationFault),
                },
                None => return Err(WowswapError::ComputationFault),
            }
        } else {
            (amount, share)
        };
        if self.update_state(governance, total_debt, timestamp).is_err() {
            return Err(WowswapError::ComputationFault);
        }
        let zero = TokenAmount::new(0);
        if self.update_borrow_rate(governance, liquidity, zero, payout, total_debt, zero, zero).is_err() {
            *self = saved;
            return Err(WowswapError::ComputationFault);
        }
        Ok((burn, payout))
    }
}

} // verus!
