use vstd::prelude::*;

verus! {

/// Why an operation was refused. The first five are business-rule
/// rejections the caller may retry with other arguments; `ComputationFault`
/// is an arithmetic fault or broken invariant (overflow, division by zero,
/// a negative interval) that aborts the operation.
#[derive(Debug, Clone, Copy, PartialEq, Eq, Structural)]
pub enum WowswapError {
    InvalidArgument,
    InvalidMint,
    InvalidLeverageFactor,
    BorrowLimitExceeded,
    LiquidateHealthyPosition,
    ComputationFault,
}

} // verus!
