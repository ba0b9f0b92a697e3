//! Accounting core of a pooled-lending, leveraged-trading protocol: a
//! fixed-point kernel, interest accrual, reserve bookkeeping and the decision
//! logic of leveraged positions.

pub mod math;
pub mod interest;
pub mod error;
pub mod governance;
pub mod liquidity;
pub mod reserve;
pub mod swap;
pub mod dex;
