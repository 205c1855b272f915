//! Numbers and the quadratic-residue test used by Cairo math tests.
use vstd::prelude::*;

use crate::math_utils::{big_div_floor, big_pow, is_quad_residue, spec_is_quad_residue, BigNat, MathError};
use crate::utils::{cairo_prime, spec_cairo_prime};
use vstd::arithmetic::power::pow;

verus! {

/// RC_BOUND = 2^128
pub fn rc_bound() -> (b: BigNat)
    ensures
        b.value() == pow(2, 128),
{
    let two = BigNat::from_u64(2);
    big_pow(&two, 128)
}

/// MAX_DIV = CAIRO_PRIME // RC_BOUND
pub fn max_div() -> (d: BigNat)
    ensures
        d.value() == spec_cairo_prime() / (pow(2, 128) as nat),
{
    let bound = rc_bound();
    proof {
        vstd::arithmetic::power::lemma_pow_positive(2, 128);
    }
    big_div_floor(&cairo_prime(), &bound)
}

/// Returns 1 if `a` is a quadratic residue modulo CAIRO_PRIME, 0 if not, and -1 on error.
pub fn is_quad_residue_mod_prime(a: &BigNat) -> (r: i64)
    ensures
        r == if spec_is_quad_residue(a.value(), spec_cairo_prime()) { 1i64 } else { 0i64 },
{
    match is_quad_residue(a, &cairo_prime()) {
        Ok(true) => 1,
        Ok(false) => 0,
        Err(MathError::IsQuadResidueZeroPrime) => -1,
    }
}

} // verus!
