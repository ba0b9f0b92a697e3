//! Fixed-point numeric kernel: unsigned integers read at a fixed scale, with
//! checked arithmetic and round-half-up multiply-divide.

use vstd::arithmetic::div_mod::{lemma_fundamental_div_mod, lemma_mod_pos_bound};
use vstd::prelude::*;

verus! {

/// Scale of `Factor` values: 10_000 is 100%.
pub const FACTOR: u64 = 10_000;

/// Scale of `Wad` values (1e9).
pub const WAD: u128 = 1_000_000_000;

/// Scale of `Ray` values (1e18).
pub const RAY: u128 = 1_000_000_000_000_000_000;

/// Ratio between the scale of `Rate` (1e27) and that of `Ray`.
pub const RAY_RATIO: u128 = 1_000_000_000;

/// `num / den` rounded to the nearest integer, ties upwards.
pub open spec fn round_div(num: int, den: int) -> int {
    (num + den / 2) / den
}

/// `r` is the integer nearest to `num / den`, a tie going to the larger one.
pub open spec fn is_nearest(num: int, den: int, r: int) -> bool {
    (2 * r - 1) * den <= 2 * num && 2 * num < (2 * r + 1) * den
}

/// Round-half-up division gives the integer nearest to the exact quotient.
pub proof fn lemma_round_div_is_nearest(num: int, den: int)
    requires
        num >= 0,
        den > 0,
    ensures
        is_nearest(num, den, round_div(num, den)),
{
    let h = den / 2;
    let q = (num + h) / den;
    let m = (num + h) % den;
    lemma_fundamental_div_mod(num + h, den);
    lemma_mod_pos_bound(num + h, den);
    lemma_fundamental_div_mod(den, 2);
    lemma_mod_pos_bound(den, 2);
    let e = den % 2;
    assert((2 * q - 1) * den <= 2 * num && 2 * num < (2 * q + 1) * den) by (nonlinear_arith)
        requires
            num + h == den * q + m,
            0 <= m < den,
            den == 2 * h + e,
            0 <= e < 2,
    ;
}

/// At most one integer is nearest to a quotient: the rounding is unique.
pub proof fn lemma_nearest_unique(num: int, den: int, r1: int, r2: int)
    requires
        den > 0,
        is_nearest(num, den, r1),
        is_nearest(num, den, r2),
    ensures
        r1 == r2,
{
    assert((2 * r1 - 1) * den < (2 * r2 + 1) * den);
    assert((2 * r2 - 1) * den < (2 * r1 + 1) * den);
    assert(2 * r1 - 1 < 2 * r2 + 1) by (nonlinear_arith)
        requires
            (2 * r1 - 1) * den < (2 * r2 + 1) * den,
            den > 0,
    ;
    assert(2 * r2 - 1 < 2 * r1 + 1) by (nonlinear_arith)
        requires
            (2 * r2 - 1) * den < (2 * r1 + 1) * den,
            den > 0,
    ;
}

/// `a * b / WAD` rounded half up, `None` where an intermediate value
/// leaves `u128`.
pub open spec fn wad_mul_spec(a: int, b: int) -> Option<int> {
    if a * b + WAD / 2 <= u128::MAX {
        Some(round_div(a * b, WAD as int))
    } else {
        None
    }
}

/// `a * WAD / b` rounded half up; `None` for `b == 0` or on overflow.
pub open spec fn wad_div_spec(a: int, b: int) -> Option<int> {
    if b != 0 && a * WAD + b / 2 <= u128::MAX {
        Some(round_div(a * WAD, b))
    } else {
        None
    }
}

/// `a * b / RAY` rounded half up, `None` on overflow.
pub open spec fn ray_mul_spec(a: int, b: int) -> Option<int> {
    if a * b + RAY / 2 <= u128::MAX {
        Some(round_div(a * b, RAY as int))
    } else {
        None
    }
}

/// `a * RAY / b` rounded half up; `None` for `b == 0` or on overflow.
pub open spec fn ray_div_spec(a: int, b: int) -> Option<int> {
    if b != 0 && a * RAY + b / 2 <= u128::MAX {
        Some(round_div(a * RAY, b))
    } else {
        None
    }
}

/// `value * factor / FACTOR` rounded half up, `None` on overflow.
pub open spec fn percentage_spec(factor: int, value: int) -> Option<int> {
    if value * factor + FACTOR / 2 <= u128::MAX {
        Some(round_div(value * factor, FACTOR as int))
    } else {
        None
    }
}

/// `x` as a token amount, which must fit in `u64`.
pub open spec fn amount_spec(x: int) -> Option<int> {
    if 0 <= x <= u64::MAX {
        Some(x)
    } else {
        None
    }
}

/// A ray read back at the scale of a rate.
pub open spec fn rate_spec(x: int) -> Option<int> {
    if x * RAY_RATIO <= u128::MAX {
        Some(x * RAY_RATIO)
    } else {
        None
    }
}

/// The value of an optional token amount, `None` kept.
pub open spec fn opt_amount(r: Option<TokenAmount>) -> Option<int> {
    match r {
        Some(v) => Some(v@ as int),
        None => None,
    }
}

/// The value of an optional percentage, `None` kept.
pub open spec fn opt_factor(r: Option<Factor>) -> Option<int> {
    match r {
        Some(v) => Some(v@ as int),
        None => None,
    }
}

/// The value of an optional wad, `None` kept.
pub open spec fn opt_wad(r: Option<Wad>) -> Option<int> {
    match r {
        Some(v) => Some(v@ as int),
        None => None,
    }
}

/// The value of an optional ray, `None` kept.
pub open spec fn opt_ray(r: Option<Ray>) -> Option<int> {
    match r {
        Some(v) => Some(v@ as int),
        None => None,
    }
}

/// The value of an optional rate, `None` kept.
pub open spec fn opt_rate(r: Option<Rate>) -> Option<int> {
    match r {
        Some(v) => Some(v@ as int),
        None => None,
    }
}

/// The value of an optional integer, `None` kept.
pub open spec fn opt_u128(r: Option<u128>) -> Option<int> {
    match r {
        Some(v) => Some(v as int),
        None => None,
    }
}

/// Seconds since the Unix epoch.
#[derive(Debug, Default, Clone, Copy, PartialEq, Eq, Structural)]
pub struct UnixTimestamp(pub u64);

impl View for UnixTimestamp {
    type V = int;

    open spec fn view(&self) -> int {
        self.0 as int
    }
}

impl UnixTimestamp {
    pub fn new(inner: u64) -> (r: Self)
        ensures
            r@ == inner,
    {
        UnixTimestamp(inner)
    }

    pub fn checked_sub(self, other: Self) -> (r: Option<Self>)
        ensures
            r == (if self@ >= other@ {
                Some(UnixTimestamp((self@ - other@) as u64))
            } else {
                None
            }),
    {
        match self.0.checked_sub(other.0) {
            Some(v) => Some(UnixTimestamp(v)),
            None => None,
        }
    }

    pub fn is_zero(&self) -> (r: bool)
        ensures
            r == (self@ == 0),
    {
        self.0 == 0
    }

    pub fn into_inner(self) -> (r: u64)
        ensures
            r == self@,
    {
        self.0
    }
}

/// An amount of a token in its native units.
#[derive(Debug, Default, Clone, Copy, PartialEq, Eq, Structural)]
pub struct TokenAmount(pub u64);

impl View for TokenAmount {
    type V = int;

    open spec fn view(&self) -> int {
        self.0 as int
    }
}

impl TokenAmount {
    pub fn new(inner: u64) -> (r: Self)
        ensures
            r@ == inner,
    {
        TokenAmount(inner)
    }

    /// `None` where the value does not fit in `u64`.
    pub fn from_u128(value: u128) -> (r: Option<Self>)
        ensures
            opt_amount(r) == amount_spec(value as int),
    {
        if value <= u64::MAX as u128 {
            Some(TokenAmount(value as u64))
        } else {
            None
        }
    }

    pub fn checked_add(self, other: Self) -> (r: Option<Self>)
        ensures
            opt_amount(r) == amount_spec(self@ + other@),
    {
        match self.0.checked_add(other.0) {
            Some(v) => Some(TokenAmount(v)),
            None => None,
        }
    }

    pub fn checked_sub(self, other: Self) -> (r: Option<Self>)
        ensures
            opt_amount(r) == amount_spec(self@ - other@),
    {
        match self.0.checked_sub(other.0) {
            Some(v) => Some(TokenAmount(v)),
            None => None,
        }
    }

    pub fn checked_div(self, other: Self) -> (r: Option<Self>)
        ensures
            opt_amount(r) == (if other@ == 0 {
                None
            } else {
                Some(self@ / other@)
            }),
    {
        match self.0.checked_div(other.0) {
            Some(v) => Some(TokenAmount(v)),
            None => None,
        }
    }

    /// Subtraction that the caller has shown cannot go below zero.
    pub fn safe_sub(self, other: Self) -> (r: Self)
        requires
            other@ <= self@,
        ensures
            r@ == self@ - other@,
    {
        TokenAmount(self.0 - other.0)
    }

    pub fn is_zero(&self) -> (r: bool)
        ensures
            r == (self@ == 0),
    {
        self.0 == 0
    }

    pub fn into_wad(self) -> (r: Wad)
        ensures
            r@ == self@,
    {
        Wad(self.0 as u128)
    }

    pub fn into_ray(self) -> (r: Ray)
        ensures
            r@ == self@,
    {
        Ray(self.0 as u128)
    }

    pub fn into_inner(self) -> (r: u64)
        ensures
            r == self@,
    {
        self.0
    }
}

/// A per-second rate at scale 1e27: a `Ray` times `RAY_RATIO`.
#[derive(Debug, Default, Clone, Copy, PartialEq, Eq, Structural)]
pub struct Rate(pub u128);

impl View for Rate {
    type V = int;

    open spec fn view(&self) -> int {
        self.0 as int
    }
}

impl Rate {
    pub fn new(inner: u128) -> (r: Self)
        ensures
            r@ == inner,
    {
        Rate(inner)
    }

    /// The rate at the scale of a `Ray`, truncated.
    pub fn into_ray(self) -> (r: Ray)
        ensures
            r@ == self@ / (RAY_RATIO as int),
    {
        Ray(self.0 / RAY_RATIO)
    }

    pub fn into_inner(self) -> (r: u128)
        ensures
            r == self@,
    {
        self.0
    }
}

/// A percentage at scale `FACTOR` (one unit is 0.01%); values above 100%
/// are allowed.
#[derive(Debug, Default, Clone, Copy, PartialEq, Eq, Structural)]
pub struct Factor(pub u64);

impl View for Factor {
    type V = int;

    open spec fn view(&self) -> int {
        self.0 as int
    }
}

impl Factor {
    pub fn new(inner: u64) -> (r: Self)
        ensures
            r@ == inner,
    {
        Factor(inner)
    }

    /// 100%.
    pub fn one() -> (r: Self)
        ensures
            r@ == FACTOR,
    {
        Factor(FACTOR)
    }

    pub fn checked_add(self, other: Self) -> (r: Option<Self>)
        ensures
            opt_factor(r) == (if self@ + other@ <= u64::MAX {
                Some(self@ + other@)
            } else {
                None
            }),
    {
        match self.0.checked_add(other.0) {
            Some(v) => Some(Factor(v)),
            None => None,
        }
    }

    pub fn checked_sub(self, other: Self) -> (r: Option<Self>)
        ensures
            opt_factor(r) == (if self@ >= other@ {
                Some(self@ - other@)
            } else {
                None
            }),
    {
        match self.0.checked_sub(other.0) {
            Some(v) => Some(Factor(v)),
            None => None,
        }
    }

    pub fn checked_mul(self, other: Self) -> (r: Option<Self>)
        ensures
            opt_factor(r) == (if self@ * other@ <= u64::MAX {
                Some(self@ * other@)
            } else {
                None
            }),
    {
        match self.0.checked_mul(other.0) {
            Some(v) => Some(Factor(v)),
            None => None,
        }
    }

    pub fn checked_div(self, other: Self) -> (r: Option<Self>)
        ensures
            opt_factor(r) == (if other@ != 0 {
                Some(self@ / other@)
            } else {
                None
            }),
    {
        match self.0.checked_div(other.0) {
            Some(v) => Some(Factor(v)),
            None => None,
        }
    }

    /// `value` scaled by this percentage, rounded half up.
    pub fn percentage_mul(self, value: u128) -> (r: Option<u128>)
        ensures
            opt_u128(r) == percentage_spec(self@ as int, value as int),
            r matches Some(v) ==> is_nearest(value * self@, FACTOR as int, v as int),
    {
        match value.checked_mul(self.0 as u128) {
            Some(p) => match p.checked_add((FACTOR / 2) as u128) {
                Some(q) => {
                    proof {
                        lemma_round_div_is_nearest(p as int, FACTOR as int);
                    }
                    Some(q / (FACTOR as u128))
                },
                None => None,
            },
            None => None,
        }
    }

    /// `100% - self`; `None` above 100%.
    pub fn invert(self) -> (r: Option<Self>)
        ensures
            opt_factor(r) == (if self@ <= FACTOR {
                Some(FACTOR - self@)
            } else {
                None
            }),
    {
        Factor::one().checked_sub(self)
    }
}

/// A ratio at scale `WAD` (1e9).
#[derive(Debug, Clone, Copy, PartialEq, Eq, Structural)]
pub struct Wad(pub u128);

impl View for Wad {
    type V = int;

    open spec fn view(&self) -> int {
        self.0 as int
    }
}

impl Wad {
    pub fn new(inner: u128) -> (r: Self)
        ensures
            r@ == inner,
    {
        Wad(inner)
    }

    /// 1.0.
    pub fn one() -> (r: Self)
        ensures
            r@ == WAD,
    {
        Wad(WAD)
    }

    pub fn from_u64(value: u64) -> (r: Self)
        ensures
            r@ == value,
    {
        Wad(value as u128)
    }

    pub fn checked_add(self, other: Self) -> (r: Option<Self>)
        ensures
            opt_wad(r) == (if self@ + other@ <= u128::MAX {
                Some(self@ + other@)
            } else {
                None
            }),
    {
        match self.0.checked_add(other.0) {
            Some(v) => Some(Wad(v)),
            None => None,
        }
    }

    pub fn checked_mul(self, other: Self) -> (r: Option<Self>)
        ensures
            opt_wad(r) == (if self@ * other@ <= u128::MAX {
                Some(self@ * other@)
            } else {
                None
            }),
    {
        match self.0.checked_mul(other.0) {
            Some(v) => Some(Wad(v)),
            None => None,
        }
    }

    pub fn checked_div(self, other: Self) -> (r: Option<Self>)
        ensures
            opt_wad(r) == (if other@ != 0 {
                Some(self@ / other@)
            } else {
                None
            }),
    {
        match self.0.checked_div(other.0) {
            Some(v) => Some(Wad(v)),
            None => None,
        }
    }

    pub fn is_zero(&self) -> (r: bool)
        ensures
            r == (self@ == 0),
    {
        self.0 == 0
    }

    /// `(a * b + WAD / 2) / WAD`.
    pub fn wad_mul(self, other: Self) -> (r: Option<Self>)
        ensures
            opt_wad(r) == wad_mul_spec(self@ as int, other@ as int),
            r matches Some(v) ==> is_nearest(self@ * other@, WAD as int, v@ as int),
    {
        match self.0.checked_mul(other.0) {
            Some(p) => match p.checked_add(WAD / 2) {
                Some(q) => {
                    proof {
                        lemma_round_div_is_nearest(p as int, WAD as int);
                    }
                    Some(Wad(q / WAD))
                },
                None => None,
            },
            None => None,
        }
    }

    /// `(a * WAD + b / 2) / b`.
    pub fn wad_div(self, other: Self) -> (r: Option<Self>)
        ensures
            opt_wad(r) == wad_div_spec(self@ as int, other@ as int),
            r matches Some(v) ==> is_nearest(self@ * WAD, other@ as int, v@ as int),
    {
        if other.0 == 0 {
            return None;
        }
        match self.0.checked_mul(WAD) {
            Some(p) => match p.checked_add(other.0 / 2) {
                Some(q) => {
                    proof {
                        lemma_round_div_is_nearest(p as int, other@ as int);
                    }
                    Some(Wad(q / other.0))
                },
                None => None,
            },
            None => None,
        }
    }

    /// The same ratio at the scale of a `Ray`.
    pub fn into_ray(self) -> (r: Option<Ray>)
        ensures
            opt_ray(r) == rate_spec(self@ as int),
    {
        match self.0.checked_mul(RAY_RATIO) {
            Some(v) => Some(Ray(v)),
            None => None,
        }
    }

    pub fn as_token_amount(self) -> (r: Option<TokenAmount>)
        ensures
            opt_amount(r) == amount_spec(self@ as int),
    {
        TokenAmount::from_u128(self.0)
    }
}

/// A ratio at scale `RAY` (1e18).
#[derive(Debug, Clone, Copy, PartialEq, Eq, Structural)]
pub struct Ray(pub u128);

impl View for Ray {
    type V = int;

    open spec fn view(&self) -> int {
        self.0 as int
    }
}

impl Ray {
    pub fn new(inner: u128) -> (r: Self)
        ensures
            r@ == inner,
    {
        Ray(inner)
    }

    /// 1.0.
    pub fn one() -> (r: Self)
        ensures
            r@ == RAY,
    {
        Ray(RAY)
    }

    pub fn from_u64(value: u64) -> (r: Self)
        ensures
            r@ == value,
    {
        Ray(value as u128)
    }

    pub fn checked_add(self, other: Self) -> (r: Option<Self>)
        ensures
            opt_ray(r) == (if self@ + other@ <= u128::MAX {
                Some(self@ + other@)
            } else {
                None
            }),
    {
        match self.0.checked_add(other.0) {
            Some(v) => Some(Ray(v)),
            None => None,
        }
    }

    pub fn checked_sub(self, other: Self) -> (r: Option<Self>)
        ensures
            opt_ray(r) == (if self@ >= other@ {
                Some(self@ - other@)
            } else {
                None
            }),
    {
        match self.0.checked_sub(other.0) {
            Some(v) => Some(Ray(v)),
            None => None,
        }
    }

    pub fn checked_mul(self, other: Self) -> (r: Option<Self>)
        ensures
            opt_ray(r) == (if self@ * other@ <= u128::MAX {
                Some(self@ * other@)
            } else {
                None
            }),
    {
        match self.0.checked_mul(other.0) {
            Some(v) => Some(Ray(v)),
            None => None,
        }
    }

    pub fn checked_div(self, other: Self) -> (r: Option<Self>)
        ensures
            opt_ray(r) == (if other@ != 0 {
                Some(self@ / other@)
            } else {
                None
            }),
    {
        match self.0.checked_div(other.0) {
            Some(v) => Some(Ray(v)),
            None => None,
        }
    }

    pub fn is_zero(&self) -> (r: bool)
        ensures
            r == (self@ == 0),
    {
        self.0 == 0
    }

    /// `(a * b + RAY / 2) / RAY`.
    pub fn ray_mul(self, other: Self) -> (r: Option<Self>)
        ensures
            opt_ray(r) == ray_mul_spec(self@ as int, other@ as int),
            r matches Some(v) ==> is_nearest(self@ * other@, RAY as int, v@ as int),
    {
        match self.0.checked_mul(other.0) {
            Some(p) => match p.checked_add(RAY / 2) {
                Some(q) => {
                    proof {
                        lemma_round_div_is_nearest(p as int, RAY as int);
                    }
                    Some(Ray(q / RAY))
                },
                None => None,
            },
            None => None,
        }
    }

    /// `(a * RAY + b / 2) / b`.
    pub fn ray_div(self, other: Self) -> (r: Option<Self>)
        ensures
            opt_ray(r) == ray_div_spec(self@ as int, other@ as int),
            r matches Some(v) ==> is_nearest(self@ * RAY, other@ as int, v@ as int),
    {
        if other.0 == 0 {
            return None;
        }
        match self.0.checked_mul(RAY) {
            Some(p) => match p.checked_add(other.0 / 2) {
                Some(q) => {
                    proof {
                        lemma_round_div_is_nearest(p as int, other@ as int);
                    }
                    Some(Ray(q / other.0))
                },
                None => None,
            },
            None => None,
        }
    }

    /// `1.0 - self`; `None` above 1.0.
    pub fn invert(self) -> (r: Option<Self>)
        ensures
            opt_ray(r) == (if self@ <= RAY {
                Some(RAY - self@)
            } else {
                None
            }),
    {
        Ray::one().checked_sub(self)
    }

    pub fn as_token_amount(self) -> (r: Option<TokenAmount>)
        ensures
            opt_amount(r) == amount_spec(self@ as int),
    {
        TokenAmount::from_u128(self.0)
    }

    pub fn as_rate(self) -> (r: Option<Rate>)
        ensures
            opt_rate(r) == rate_spec(self@ as int),
    {
        match self.0.checked_mul(RAY_RATIO) {
            Some(v) => Some(Rate(v)),
            None => None,
        }
    }

    pub fn into_inner(self) -> (r: u128)
        ensures
            r == self@,
    {
        self.0
    }
}

} // verus!
