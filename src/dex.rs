//! Prices and quantities as the order-execution venue counts them: in lots,
//! converted to native token units by the market's lot sizes.

use vstd::prelude::*;

use crate::math::TokenAmount;

verus! {

/// Native units in one lot of the base (`coin`) and quote (`pc`) token.
#[derive(Debug, Clone, Copy, PartialEq, Eq, Structural)]
pub struct MarketLotSizes {
    pub coin: u64,
    pub pc: u64,
}

/// A limit price: quote lots per base lot, never zero.
#[derive(Debug, Clone, Copy, PartialEq, Eq)]
pub struct DexLimitPrice(u64);

impl View for DexLimitPrice {
    type V = int;

    closed spec fn view(&self) -> int {
        self.0 as int
    }
}

impl DexLimitPrice {
    #[verifier::type_invariant]
    spec fn inv(&self) -> bool {
        self.0 != 0
    }

    /// `None` for a zero price.
    pub fn new(value: u64) -> (r: Option<Self>)
        ensures
            value == 0 ==> r is None,
            value != 0 ==> (r matches Some(p) && p@ == value),
    {
        if value == 0 {
            None
        } else {
            Some(DexLimitPrice(value))
        }
    }

    /// The price in native quote units per base lot; `None` on overflow or
    /// when it is zero.
    pub fn checked_mul_lot_size(self, lot_size: u64) -> (r: Option<DexNonZeroTokenAmount>)
        ensures
            self@ > 0,
            match r {
                Some(a) => a@ == self@ * lot_size && 0 < a@ <= u64::MAX,
                None => self@ * lot_size == 0 || self@ * lot_size > u64::MAX,
            },
    {
        proof {
            use_type_invariant(&self);
        }
        match self.0.checked_mul(lot_size) {
            Some(v) => DexNonZeroTokenAmount::new(v),
            None => None,
        }
    }

    pub fn into_inner(self) -> (r: u64)
        ensures
            r == self@,
            r > 0,
    {
        proof {
            use_type_invariant(&self);
        }
        self.0
    }
}

/// A quantity of base lots, possibly zero.
#[derive(Debug, Clone, Copy, PartialEq, Eq, Structural)]
pub struct DexTokenQty(pub u64);

impl View for DexTokenQty {
    type V = int;

    open spec fn view(&self) -> int {
        self.0 as int
    }
}

impl DexTokenQty {
    pub fn new(amount: u64) -> (r: Self)
        ensures
            r@ == amount,
    {
        DexTokenQty(amount)
    }

    /// `None` where the value does not fit in `u64`.
    pub fn from_u128(value: u128) -> (r: Option<Self>)
        ensures
            value <= u64::MAX ==> (r matches Some(q) && q@ == value),
            value > u64::MAX ==> r is None,
    {
        if value > u64::MAX as u128 {
            None
        } else {
            Some(DexTokenQty(value as u64))
        }
    }
}

/// A non-zero quantity of base lots.
#[derive(Debug, Clone, Copy, PartialEq, Eq)]
pub struct DexNonZeroTokenQty(u64);

impl View for DexNonZeroTokenQty {
    type V = int;

    closed spec fn view(&self) -> int {
        self.0 as int
    }
}

impl DexNonZeroTokenQty {
    #[verifier::type_invariant]
    spec fn inv(&self) -> bool {
        self.0 != 0
    }

    /// `None` for zero.
    pub fn new(value: u64) -> (r: Option<Self>)
        ensures
            value == 0 ==> r is None,
            value != 0 ==> (r matches Some(q) && q@ == value),
    {
        if value == 0 {
            None
        } else {
            Some(DexNonZeroTokenQty(value))
        }
    }

    /// `None` for a zero amount.
    pub fn from_token_amount(value: TokenAmount) -> (r: Option<Self>)
        ensures
            value@ == 0 ==> r is None,
            value@ != 0 ==> (r matches Some(q) && q@ == value@),
    {
        Self::new(value.into_inner())
    }

    pub fn checked_add(self, other: DexTokenQty) -> (r: Option<Self>)
        ensures
            self@ > 0,
            self@ + other@ <= u64::MAX ==> (r matches Some(q) && q@ == self@ + other@),
            self@ + other@ > u64::MAX ==> r is None,
    {
        proof {
            use_type_invariant(&self);
        }
        match self.0.checked_add(other.0) {
            Some(v) => Self::new(v),
            None => None,
        }
    }

    /// The quantity in native base units; `None` on overflow or when it is
    /// zero.
    pub fn checked_mul_lot_size(self, other: u64) -> (r: Option<DexNonZeroTokenAmount>)
        ensures
            self@ > 0,
            match r {
                Some(a) => a@ == self@ * other && 0 < a@ <= u64::MAX,
                None => self@ * other == 0 || self@ * other > u64::MAX,
            },
    {
        proof {
            use_type_invariant(&self);
        }
        match self.0.checked_mul(other) {
            Some(v) => DexNonZeroTokenAmount::new(v),
            None => None,
        }
    }

    pub fn into_inner(self) -> (r: u64)
        ensures
            r == self@,
            r > 0,
    {
        proof {
            use_type_invariant(&self);
        }
        self.0
    }
}

/// A non-zero amount of native token units.
#[derive(Debug, Clone, Copy, PartialEq, Eq)]
pub struct DexNonZeroTokenAmount(u64);

impl View for DexNonZeroTokenAmount {
    type V = int;

    closed spec fn view(&self) -> int {
        self.0 as int
    }
}

impl DexNonZeroTokenAmount {
    #[verifier::type_invariant]
    spec fn inv(&self) -> bool {
        self.0 != 0
    }

    fn new(value: u64) -> (r: Option<Self>)
        ensures
            value == 0 ==> r is None,
            value != 0 ==> (r matches Some(a) && a@ == value),
    {
        if value == 0 {
            None
        } else {
            Some(DexNonZeroTokenAmount(value))
        }
    }

    /// Native quote units for `other` base lots at this per-lot amount.
    pub fn checked_mul_token_qty(self, other: DexTokenQty) -> (r: Option<TokenAmount>)
        ensures
            self@ > 0,
            self@ * other@ <= u64::MAX ==> (r matches Some(a) && a@ == self@ * other@),
            self@ * other@ > u64::MAX ==> r is None,
    {
        proof {
            use_type_invariant(&self);
        }
        match self.0.checked_mul(other.0) {
            Some(v) => Some(TokenAmount::new(v)),
            None => None,
        }
    }

    pub fn checked_mul_nonzero_token_qty(self, other: DexNonZeroTokenQty) -> (r: Option<DexNonZeroTokenAmount>)
        ensures
            self@ > 0,
            other@ > 0,
            self@ * other@ <= u64::MAX ==> (r matches Some(a) && a@ == self@ * other@ && a@ > 0),
            self@ * other@ > u64::MAX ==> r is None,
    {
        proof {
            use_type_invariant(&self);
        }
        let q = other.into_inner();
        match self.0.checked_mul(q) {
            Some(v) => {
                assert(v > 0) by (nonlinear_arith)
                    requires
                        v == self.0 * q,
                        self.0 > 0,
                        q > 0,
                ;
                DexNonZeroTokenAmount::new(v)
            },
            None => None,
        }
    }

    pub fn into_inner(self) -> (r: u64)
        ensures
            r == self@,
            r > 0,
    {
        proof {
            use_type_invariant(&self);
        }
        self.0
    }

    pub fn as_token_amount(self) -> (r: TokenAmount)
        ensures
            r@ == self@,
            r@ > 0,
    {
        proof {
            use_type_invariant(&self);
        }
        TokenAmount::new(self.0)
    }
}

} // verus!
