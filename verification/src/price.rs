//! Fee & price engine: the fixed-point price and the fee/tolerance bounds in
//! exact integer arithmetic.
//!
//! An order's real price is `price / PRICE_PARAM` (the `price` field is
//! fixed-point, set at order creation and always read from the *input*
//! snapshot). The matcher's fee rate is `FEE_NUM / FEE_DEN` = 0.3%, and
//! every price comparison carries an absolute tolerance of
//! `EPS_NUM / EPS_DEN` = 0.001: a deliberate acceptance band that absorbs
//! the rounding of amounts quoted against an in-general irrational price
//! ratio. Each bound below is that rational inequality with every
//! (positive) denominator cleared, so the comparisons are exact — no
//! floating point, no rounding.

use vstd::prelude::*;

use crate::wide::wide_le;
use crate::wide::wide_mul;
use crate::wide::wide_add_small;
use crate::wide::wide_val;

verus! {

/// Fixed-point price denominator: real price = `price` / 10^10.
pub const PRICE_PARAM: u64 = 10_000_000_000;

/// Fee rate numerator: the fee is 3/1000 = 0.3%.
pub const FEE_NUM: u64 = 3;

/// Fee rate denominator.
pub const FEE_DEN: u64 = 1000;

/// Tolerance numerator: the acceptance band is 1/1000 = 0.001.
pub const EPS_NUM: u64 = 1;

/// Tolerance denominator.
pub const EPS_DEN: u64 = 1000;

/// Buy-side swap bound:
/// `d_undealt - d_capacity / (1 + fee) / (price / PRICE_PARAM) <= eps`,
/// with `1 + fee = (FEE_DEN + FEE_NUM) / FEE_DEN` and `eps = EPS_NUM /
/// EPS_DEN`, multiplied through by the positive quantity
/// `EPS_DEN * (FEE_DEN + FEE_NUM) * price`: the token gained may not exceed
/// what the capacity paid justifies at the fee-adjusted price, within the
/// tolerance.
pub open spec fn spec_buy_swap_ok(d_undealt: int, d_capacity: int, price: int) -> bool {
    EPS_DEN * (FEE_DEN + FEE_NUM) * price * d_undealt <= EPS_DEN * FEE_DEN * PRICE_PARAM
        * d_capacity + EPS_NUM * (FEE_DEN + FEE_NUM) * price
}

/// Sell-side fee bound:
/// `d_sudt - d_undealt * (1 + fee) <= eps`, multiplied through by
/// `EPS_DEN * FEE_DEN`: the seller's token spend may not exceed the dealt
/// amount plus the fee charged on it, within the tolerance.
pub open spec fn spec_sell_fee_ok(d_sudt: int, d_undealt: int) -> bool {
    EPS_DEN * FEE_DEN * d_sudt <= EPS_DEN * (FEE_DEN + FEE_NUM) * d_undealt + EPS_NUM * FEE_DEN
}

/// Sell-side capacity bound:
/// `d_capacity >= d_sudt / (1 + fee) / (price / PRICE_PARAM)`, multiplied
/// through by `(FEE_DEN + FEE_NUM) * price`: the seller must receive at
/// least the fee-adjusted fair value of the token spent.
pub open spec fn spec_sell_capacity_ok(d_sudt: int, d_capacity: int, price: int) -> bool {
    FEE_DEN * PRICE_PARAM * d_sudt <= (FEE_DEN + FEE_NUM) * price * d_capacity
}

/// Decides the buy-side swap bound exactly. The left product spans up to
/// 192 bits, so it is compared as a wide value; the right side fits `u128`.
pub fn buy_swap_ok(d_undealt: u128, d_capacity: u64, price: u64) -> (r: bool)
    ensures
        r == spec_buy_swap_ok(d_undealt as int, d_capacity as int, price as int),
{
    let m: u64 = EPS_DEN * (FEE_DEN + FEE_NUM);
    let (h1, l1) = wide_mul(d_undealt, m);
    let (h2, l2) = wide_mul(l1, price);
    proof {
        assert(h1 * (price as u128) + h2 < crate::wide::pow2_128()) by (nonlinear_arith)
            requires
                0 <= h1 < crate::wide::TWO_POW_64,
                0 <= h2 < crate::wide::TWO_POW_64,
                price < crate::wide::TWO_POW_64,
                crate::wide::pow2_128() == crate::wide::TWO_POW_64 * crate::wide::TWO_POW_64,
        ;
    }
    let hi: u128 = h1 * (price as u128) + h2;
    proof {
        assert(wide_val(hi, l2) == EPS_DEN * (FEE_DEN + FEE_NUM) * (price as int) * (
        d_undealt as int)) by (nonlinear_arith)
            requires
                wide_val(h1, l1) == d_undealt * (EPS_DEN * (FEE_DEN + FEE_NUM)),
                wide_val(h2, l2) == l1 * price,
                hi == h1 * price + h2,
                wide_val(h1, l1) == h1 * crate::wide::pow2_128() + l1,
                wide_val(h2, l2) == h2 * crate::wide::pow2_128() + l2,
                wide_val(hi, l2) == hi * crate::wide::pow2_128() + l2,
        ;
    }
    proof {
        assert((EPS_DEN as int) * (FEE_DEN as int) <= u128::MAX && (EPS_DEN as int) * (
        FEE_DEN as int) * (PRICE_PARAM as int) <= u128::MAX && (EPS_DEN as int) * (FEE_DEN as int)
            * (PRICE_PARAM as int) * (d_capacity as int) + (EPS_NUM as int) * ((FEE_DEN
            + FEE_NUM) as int) * (price as int) <= u128::MAX) by (nonlinear_arith)
            requires
                EPS_DEN == 1000,
                FEE_DEN == 1000,
                FEE_NUM == 3,
                EPS_NUM == 1,
                PRICE_PARAM == 10_000_000_000,
                d_capacity <= 0xFFFF_FFFF_FFFF_FFFFu64,
                price <= 0xFFFF_FFFF_FFFF_FFFFu64,
        ;
    }
    let rhs: u128 = (EPS_DEN as u128) * (FEE_DEN as u128) * (PRICE_PARAM as u128) * (
    d_capacity as u128) + (EPS_NUM as u128) * ((FEE_DEN + FEE_NUM) as u128) * (price as u128);
    wide_le(hi, l2, 0, rhs)
}

/// Decides the sell-side fee bound exactly, both products carried wide.
pub fn sell_fee_ok(d_sudt: u128, d_undealt: u128) -> (r: bool)
    ensures
        r == spec_sell_fee_ok(d_sudt as int, d_undealt as int),
{
    let (lh, ll) = wide_mul(d_sudt, EPS_DEN * FEE_DEN);
    let (rh0, rl0) = wide_mul(d_undealt, EPS_DEN * (FEE_DEN + FEE_NUM));
    let (rh, rl) = wide_add_small(rh0, rl0, EPS_NUM * FEE_DEN);
    wide_le(lh, ll, rh, rl)
}

/// Decides the sell-side capacity bound exactly.
pub fn sell_capacity_ok(d_sudt: u128, d_capacity: u64, price: u64) -> (r: bool)
    ensures
        r == spec_sell_capacity_ok(d_sudt as int, d_capacity as int, price as int),
{
    let (lh, ll) = wide_mul(d_sudt, FEE_DEN * PRICE_PARAM);
    proof {
        assert(((FEE_DEN + FEE_NUM) as int) * (d_capacity as int) <= u128::MAX)
            by (nonlinear_arith)
            requires
                FEE_DEN == 1000,
                FEE_NUM == 3,
                d_capacity <= 0xFFFF_FFFF_FFFF_FFFFu64,
        ;
    }
    let t: u128 = ((FEE_DEN + FEE_NUM) as u128) * (d_capacity as u128);
    let (rh, rl) = wide_mul(t, price);
    proof {
        assert(wide_val(rh, rl) == (FEE_DEN + FEE_NUM) * (price as int) * (d_capacity as int))
            by (nonlinear_arith)
            requires
                wide_val(rh, rl) == t * price,
                t == (FEE_DEN + FEE_NUM) * d_capacity,
        ;
    }
    wide_le(lh, ll, rh, rl)
}

} // verus!
