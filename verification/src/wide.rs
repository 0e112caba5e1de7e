//! Exact comparison of products too wide for machine integers.
//!
//! The fee and price bounds compare products of a `u128` token amount with a
//! `u64` price and small rational constants; such a product needs up to 192
//! bits. A value here is carried as a pair `(hi, lo)` standing for the
//! integer `hi * 2^128 + lo`, so every bound can be decided exactly, with no
//! rounding anywhere.

use vstd::arithmetic::div_mod::lemma_fundamental_div_mod;
use vstd::prelude::*;

verus! {

/// 2^64: the split point for the partial products of a `u128` multiply.
pub const TWO_POW_64: u128 = 0x1_0000_0000_0000_0000;

/// 2^128, one past the largest `u128`.
pub open spec fn pow2_128() -> int {
    (TWO_POW_64 as int) * (TWO_POW_64 as int)
}

/// The integer a pair stands for: `hi * 2^128 + lo`.
pub open spec fn wide_val(hi: u128, lo: u128) -> int {
    hi * pow2_128() + lo
}

/// Full product of a `u128` by a `u64`, exact: the result pair stands for
/// `a * b`, and its high half always stays under 2^64.
pub fn wide_mul(a: u128, b: u64) -> (r: (u128, u128))
    ensures
        wide_val(r.0, r.1) == a * b,
        r.0 < TWO_POW_64,
{
    let ah: u128 = a / TWO_POW_64;
    let al: u128 = a % TWO_POW_64;
    let bw: u128 = b as u128;
    proof {
        lemma_fundamental_div_mod(a as int, TWO_POW_64 as int);
        assert(ah < TWO_POW_64 && al < TWO_POW_64) by (nonlinear_arith)
            requires
                a == TWO_POW_64 * ah + al,
                0 <= al < TWO_POW_64,
                0 <= ah,
                a < pow2_128(),
                pow2_128() == TWO_POW_64 * TWO_POW_64,
        ;
        assert(ah * bw < pow2_128() && al * bw < pow2_128()) by (nonlinear_arith)
            requires
                0 <= ah < TWO_POW_64,
                0 <= al < TWO_POW_64,
                0 <= bw < TWO_POW_64,
                pow2_128() == TWO_POW_64 * TWO_POW_64,
        ;
    }
    let p: u128 = ah * bw;
    let q: u128 = al * bw;
    let qh: u128 = q / TWO_POW_64;
    let ql: u128 = q % TWO_POW_64;
    proof {
        lemma_fundamental_div_mod(q as int, TWO_POW_64 as int);
        assert(qh < TWO_POW_64) by (nonlinear_arith)
            requires
                q == TWO_POW_64 * qh + ql,
                0 <= ql < TWO_POW_64,
                0 <= qh,
                q < pow2_128(),
                pow2_128() == TWO_POW_64 * TWO_POW_64,
        ;
        assert(p + qh < pow2_128()) by (nonlinear_arith)
            requires
                0 <= p,
                p == ah * bw,
                0 <= ah < TWO_POW_64,
                0 <= bw < TWO_POW_64,
                0 <= qh < TWO_POW_64,
                pow2_128() == TWO_POW_64 * TWO_POW_64,
        ;
    }
    let s: u128 = p + qh;
    let sh: u128 = s / TWO_POW_64;
    let sl: u128 = s % TWO_POW_64;
    proof {
        lemma_fundamental_div_mod(s as int, TWO_POW_64 as int);
        assert(sh < TWO_POW_64) by (nonlinear_arith)
            requires
                s == TWO_POW_64 * sh + sl,
                0 <= sl < TWO_POW_64,
                0 <= sh,
                s < pow2_128(),
                pow2_128() == TWO_POW_64 * TWO_POW_64,
        ;
    }
    let lo: u128 = sl * TWO_POW_64 + ql;
    proof {
        assert(wide_val(sh, lo) == a * bw) by (nonlinear_arith)
            requires
                a == TWO_POW_64 * ah + al,
                q == TWO_POW_64 * qh + ql,
                s == TWO_POW_64 * sh + sl,
                p == ah * bw,
                q == al * bw,
                s == p + qh,
                lo == sl * TWO_POW_64 + ql,
                wide_val(sh, lo) == sh * pow2_128() + lo,
                pow2_128() == TWO_POW_64 * TWO_POW_64,
        ;
    }
    (sh, lo)
}

/// Exact `<=` on two wide values, decided high half first.
pub fn wide_le(a_hi: u128, a_lo: u128, b_hi: u128, b_lo: u128) -> (r: bool)
    ensures
        r == (wide_val(a_hi, a_lo) <= wide_val(b_hi, b_lo)),
{
    if a_hi < b_hi {
        proof {
            assert((a_hi + 1) * pow2_128() <= b_hi * pow2_128()) by (nonlinear_arith)
                requires
                    a_hi + 1 <= b_hi,
                    pow2_128() > 0,
            ;
        }
        true
    } else if a_hi > b_hi {
        proof {
            assert((b_hi + 1) * pow2_128() <= a_hi * pow2_128()) by (nonlinear_arith)
                requires
                    b_hi + 1 <= a_hi,
                    pow2_128() > 0,
            ;
        }
        false
    } else {
        a_lo <= b_lo
    }
}

/// Adds a small constant to a wide value, carrying into the high half when
/// the low half wraps.
pub fn wide_add_small(hi: u128, lo: u128, c: u64) -> (r: (u128, u128))
    requires
        hi < TWO_POW_64,
    ensures
        wide_val(r.0, r.1) == wide_val(hi, lo) + c,
        r.0 <= TWO_POW_64,
{
    let cw: u128 = c as u128;
    if cw <= u128::MAX - lo {
        (hi, lo + cw)
    } else {
        // lo + c passes 2^128: carry one into the high half
        proof {
            assert((hi + 1) * pow2_128() == hi * pow2_128() + pow2_128()) by (nonlinear_arith);
        }
        (hi + 1, cw - (u128::MAX - lo) - 1)
    }
}

} // verus!
