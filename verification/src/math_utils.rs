//! Natural numbers of any size, and the quadratic-residue test over them.
//! The arithmetic itself is `num_bigint`'s; the library holds the numbers
//! as base 2^32 digits.
use vstd::prelude::*;

use num_bigint::BigUint;
use num_integer::Integer;
use vstd::arithmetic::power::pow;

verus! {

/// The value of base 2^32 digits, least significant first.
pub open spec fn digits_value(d: Seq<u32>) -> nat
    decreases d.len(),
{
    if d.len() == 0 {
        0
    } else {
        (d[0] + 0x1_0000_0000 * digits_value(d.drop_first())) as nat
    }
}

/// A natural number, as its base 2^32 digits, least significant first.
#[derive(Clone, Debug)]
pub struct BigNat {
    pub digits: Vec<u32>,
}

proof fn lemma_value_zero_iff_all_digits_zero(d: Seq<u32>)
    ensures
        digits_value(d) == 0 <==> forall|i: int| 0 <= i < d.len() ==> d[i] == 0,
    decreases d.len(),
{
    if d.len() > 0 {
        lemma_value_zero_iff_all_digits_zero(d.drop_first());
        if digits_value(d) == 0 {
            assert forall|i: int| 0 <= i < d.len() implies d[i] == 0 by {
                if i > 0 {
                    assert(d.drop_first()[i - 1] == d[i]);
                }
            }
        }
        if forall|i: int| 0 <= i < d.len() ==> d[i] == 0 {
            assert forall|i: int| 0 <= i < d.drop_first().len() implies d.drop_first()[i] == 0 by {
                assert(d.drop_first()[i] == d[i + 1]);
            }
        }
    }
}

impl BigNat {
    /// The number the digits stand for.
    pub open spec fn value(&self) -> nat {
        digits_value(self.digits@)
    }

    /// The number of a 64-bit integer.
    pub fn from_u64(v: u64) -> (n: BigNat)
        ensures
            n.value() == v,
    {
        let low = (v % 0x1_0000_0000) as u32;
        let high = (v / 0x1_0000_0000) as u32;
        let digits = vec![low, high];
        proof {
            let rest = digits@.drop_first();
            assert(rest.drop_first().len() == 0);
            assert(rest[0] == high);
            assert(digits_value(rest.drop_first()) == 0);
            assert(digits_value(rest) == high);
            assert(digits_value(digits@) == low + 0x1_0000_0000 * high);
        }
        BigNat { digits }
    }

    /// Whether the number is zero.
    pub fn is_zero(&self) -> (b: bool)
        ensures
            b == (self.value() == 0),
    {
        proof {
            lemma_value_zero_iff_all_digits_zero(self.digits@);
        }
        let n = self.digits.len();
        for i in 0..n
            invariant
                n == self.digits@.len(),
                forall|j: int| 0 <= j < i ==> self.digits@[j] == 0,
                digits_value(self.digits@) == 0 <==> forall|j: int| 0 <= j < self.digits@.len() ==> self.digits@[j] == 0,
        {
            if self.digits[i] != 0 {
                return false;
            }
        }
        true
    }

    /// Whether the number is one.
    pub fn is_one(&self) -> (b: bool)
        ensures
            b == (self.value() == 1),
    {
        let n = self.digits.len();
        if n == 0 || self.digits[0] != 1 {
            return false;
        }
        let ghost rest = self.digits@.drop_first();
        proof {
            lemma_value_zero_iff_all_digits_zero(rest);
        }
        for i in 1..n
            invariant
                n == self.digits@.len(),
                n >= 1,
                self.digits@[0] == 1,
                rest == self.digits@.drop_first(),
                forall|j: int| 0 <= j < i - 1 ==> rest[j] == 0,
                digits_value(rest) == 0 <==> forall|j: int| 0 <= j < rest.len() ==> rest[j] == 0,
                self.value() == 1 + 0x1_0000_0000 * digits_value(rest),
        {
            if self.digits[i] != 0 {
                assert(rest[i - 1] == self.digits@[i as int]);
                return false;
            }
            assert(rest[i - 1] == self.digits@[i as int]);
        }
        true
    }
}

/// Compares two numbers with `BigUint`'s `<`, which orders them by value.
#[verifier::external_body]
fn big_lt(a: &BigNat, b: &BigNat) -> (r: bool)
    ensures
        r == (a.value() < b.value()),
{
    BigUint::from_slice(&a.digits) < BigUint::from_slice(&b.digits)
}

/// The remainder of `a` by `m`, by `BigUint`'s `%`, which panics on a zero divisor.
#[verifier::external_body]
fn big_rem(a: &BigNat, m: &BigNat) -> (r: BigNat)
    requires
        m.value() > 0,
    ensures
        r.value() == a.value() % m.value(),
{
    BigNat { digits: (BigUint::from_slice(&a.digits) % BigUint::from_slice(&m.digits)).to_u32_digits() }
}

/// The floor of `a / b`, by `num_integer::Integer::div_floor`, which panics
/// on a zero divisor.
#[verifier::external_body]
pub(crate) fn big_div_floor(a: &BigNat, b: &BigNat) -> (r: BigNat)
    requires
        b.value() > 0,
    ensures
        r.value() == a.value() / b.value(),
{
    BigNat { digits: BigUint::from_slice(&a.digits).div_floor(&BigUint::from_slice(&b.digits)).to_u32_digits() }
}

/// `base` raised to `exponent`, by `BigUint::pow`.
#[verifier::external_body]
pub(crate) fn big_pow(base: &BigNat, exponent: u32) -> (r: BigNat)
    ensures
        r.value() == pow(base.value() as int, exponent as nat),
{
    BigNat { digits: BigUint::from_slice(&base.digits).pow(exponent).to_u32_digits() }
}

/// `(base ^ exponent) % modulus`, by `BigUint::modpow`, which panics on a zero modulus.
#[verifier::external_body]
fn big_modpow(base: &BigNat, exponent: &BigNat, modulus: &BigNat) -> (r: BigNat)
    requires
        modulus.value() > 0,
    ensures
        r.value() == pow(base.value() as int, exponent.value()) % (modulus.value() as int),
{
    let m = BigUint::from_slice(&modulus.digits);
    BigNat {
        digits: BigUint::from_slice(&base.digits).modpow(&BigUint::from_slice(&exponent.digits), &m).to_u32_digits(),
    }
}

/// Errors of the arithmetic helpers.
#[derive(Debug)]
pub enum MathError {
    /// The quadratic-residue test was asked modulo zero.
    IsQuadResidueZeroPrime,
}

/// Whether `a` passes Euler's test modulo `p`: it is 0 or 1, or `a mod p`
/// raised to `p / 2` is 1 modulo `p`.
pub open spec fn spec_is_quad_residue(a: nat, p: nat) -> bool {
    a == 0 || a == 1 || pow((a % p) as int, p / 2) % (p as int) == 1
}

/// Tests whether `a` is a quadratic residue modulo the prime `p` by Euler's
/// criterion; modulo zero it is an error.
pub fn is_quad_residue(a: &BigNat, p: &BigNat) -> (r: Result<bool, MathError>)
    ensures
        p.value() == 0 ==> r matches Err(MathError::IsQuadResidueZeroPrime),
        p.value() > 0 ==> (r matches Ok(b) && b == spec_is_quad_residue(a.value(), p.value())),
{
    if p.is_zero() {
        return Err(MathError::IsQuadResidueZeroPrime);
    }
    let two = BigNat::from_u64(2);
    if big_lt(a, p) {
        proof {
            vstd::arithmetic::div_mod::lemma_small_mod(a.value(), p.value());
        }
        Ok(a.is_zero() || a.is_one() || big_modpow(a, &big_div_floor(p, &two), p).is_one())
    } else {
        Ok(a.is_zero() || a.is_one() || big_modpow(&big_rem(a, p), &big_div_floor(p, &two), p).is_one())
    }
}

} // verus!
