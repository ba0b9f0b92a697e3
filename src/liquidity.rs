//! Conversions between deposited liquidity and the pool's receipt tokens.

use vstd::prelude::*;

use crate::math::{amount_spec, opt_amount, wad_div_spec, wad_mul_spec, TokenAmount, Wad, WAD};

verus! {

/// Receipt tokens minted for a deposit of `amount`: the deposit times
/// `supply / liquidity`, or one for one in an empty pool.
pub open spec fn mint_amount_spec(amount: int, supply: int, liquidity: int) -> Option<int> {
    let index = if supply == 0 || liquidity == 0 {
        Some(WAD as int)
    } else {
        wad_div_spec(supply, liquidity)
    };
    match index {
        None => None,
        Some(ix) => match wad_mul_spec(amount, ix) {
            None => None,
            Some(v) => amount_spec(v),
        },
    }
}

/// `part / total` of `liquidity`, both steps rounded half up; nothing when
/// `total` is zero.
pub open spec fn share_spec(part: int, total: int, liquidity: int) -> Option<int> {
    let share = if total == 0 {
        Some(0int)
    } else {
        wad_div_spec(part, total)
    };
    match share {
        None => None,
        Some(s) => match wad_mul_spec(s, liquidity) {
            None => None,
            Some(v) => amount_spec(v),
        },
    }
}

/// Receipt tokens owed for depositing `amount` into a pool whose receipts
/// have `total_supply` and which holds `total_liquidity`.
pub fn mint_amount(amount: TokenAmount, total_supply: TokenAmount, total_liquidity: TokenAmount) -> (r: Option<TokenAmount>)
    ensures
        opt_amount(r) == mint_amount_spec(amount@, total_supply@, total_liquidity@),
{
    let index = if total_supply.is_zero() || total_liquidity.is_zero() {
        Wad::one()
    } else {
        match total_supply.into_wad().wad_div(total_liquidity.into_wad()) {
            Some(v) => v,
            None => return None,
        }
    };
    match amount.into_wad().wad_mul(index) {
        Some(v) => v.as_token_amount(),
        None => None,
    }
}

/// The share `partion / total` of `total_liquidity`.
pub fn calculate_share(partion: TokenAmount, total: TokenAmount, total_liquidity: TokenAmount) -> (r: Option<TokenAmount>)
    ensures
        opt_amount(r) == share_spec(partion@, total@, total_liquidity@),
{
    let share = if total.is_zero() {
        Wad::new(0)
    } else {
        match partion.into_wad().wad_div(total.into_wad()) {
            Some(v) => v,
            None => return None,
        }
    };
    match share.wad_mul(total_liquidity.into_wad()) {
        Some(v) => v.as_token_amount(),
        None => None,
    }
}

} // verus!
