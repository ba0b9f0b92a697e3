//! The read-only snapshot of governance parameters.

use vstd::prelude::*;

use crate::math::{opt_amount, opt_factor, Factor, Rate, Ray, TokenAmount};

verus! {

/// Divisor that brings a stored parameter to its working scale (1e18).
pub const ACCURACY_DIVISOR: u128 = 1_000_000_000_000_000_000;

/// A stored parameter at its working scale; `None` where it leaves `u64`.
pub open spec fn accuracy_spec(value: int) -> Option<int> {
    if value / ACCURACY_DIVISOR as int <= u64::MAX {
        Some(value / ACCURACY_DIVISOR as int)
    } else {
        None
    }
}

/// Governance parameters as stored. Percentages and the reward cap are kept
/// at 1e18 times their working value; rates and slopes at working scale.
#[derive(Debug, Default, Clone, Copy, PartialEq, Eq, Structural)]
pub struct Governance {
    pub pool_utilization_allowance: u128,
    pub base_borrow_rate: u128,
    pub excess_slope: u128,
    pub optimal_slope: u128,
    pub optimal_utilization: u128,
    pub treasure_factor: u128,
    pub max_leverage_factor: u128,
    pub max_rate_multiplier: u128,
    pub liquidation_margin: u128,
    pub liquidation_reward: u128,
    pub max_liquidation_reward: u128,
}

impl Governance {
    fn apply_accuracy(value: u128) -> (r: Option<u64>)
        ensures
            match r {
                Some(v) => accuracy_spec(value as int) == Some(v as int),
                None => accuracy_spec(value as int) is None,
            },
    {
        let v = value / ACCURACY_DIVISOR;
        if v <= u64::MAX as u128 {
            Some(v as u64)
        } else {
            None
        }
    }

    fn factor_of(value: u128) -> (r: Option<Factor>)
        ensures
            opt_factor(r) == accuracy_spec(value as int),
    {
        match Self::apply_accuracy(value) {
            Some(v) => Some(Factor::new(v)),
            None => None,
        }
    }

    /// Share of the total liquidity that may be lent out.
    pub fn pool_utilization_allowance(&self) -> (r: Option<Factor>)
        ensures
            opt_factor(r) == accuracy_spec(self.pool_utilization_allowance as int),
    {
        Self::factor_of(self.pool_utilization_allowance)
    }

    pub fn base_borrow_rate(&self) -> (r: Rate)
        ensures
            r@ == self.base_borrow_rate,
    {
        Rate::new(self.base_borrow_rate)
    }

    pub fn excess_slope(&self) -> (r: Ray)
        ensures
            r@ == self.excess_slope,
    {
        Ray::new(self.excess_slope)
    }

    pub fn optimal_slope(&self) -> (r: Ray)
        ensures
            r@ == self.optimal_slope,
    {
        Ray::new(self.optimal_slope)
    }

    pub fn optimal_utilization(&self) -> (r: Ray)
        ensures
            r@ == self.optimal_utilization,
    {
        Ray::new(self.optimal_utilization)
    }

    /// Share of accrued interest kept by the treasury.
    pub fn treasure_factor(&self) -> (r: Option<Factor>)
        ensures
            opt_factor(r) == accuracy_spec(self.treasure_factor as int),
    {
        Self::factor_of(self.treasure_factor)
    }

    pub fn max_leverage_factor(&self) -> (r: Option<Factor>)
        ensures
            opt_factor(r) == accuracy_spec(self.max_leverage_factor as int),
    {
        Self::factor_of(self.max_leverage_factor)
    }

    /// Rate multiplier paid at the largest leverage.
    pub fn max_rate_multiplier(&self) -> (r: Option<Factor>)
        ensures
            opt_factor(r) == accuracy_spec(self.max_rate_multiplier as int),
    {
        Self::factor_of(self.max_rate_multiplier)
    }

    /// Safety margin added to a debt before a position may be liquidated.
    pub fn liquidation_margin(&self) -> (r: Option<Factor>)
        ensures
            opt_factor(r) == accuracy_spec(self.liquidation_margin as int),
    {
        Self::factor_of(self.liquidation_margin)
    }

    /// Share of liquidation proceeds paid to the liquidator.
    pub fn liquidation_reward(&self) -> (r: Option<Factor>)
        ensures
            opt_factor(r) == accuracy_spec(self.liquidation_reward as int),
    {
        Self::factor_of(self.liquidation_reward)
    }

    /// Cap on the liquidator's reward; zero means no cap.
    pub fn max_liquidation_reward(&self) -> (r: Option<TokenAmount>)
        ensures
            opt_amount(r) == accuracy_spec(self.max_liquidation_reward as int),
    {
        match Self::apply_accuracy(self.max_liquidation_reward) {
            Some(v) => Some(TokenAmount::new(v)),
            None => None,
        }
    }
}

} // verus!
