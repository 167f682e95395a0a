//! The trusted boundary around `num_bigint::BigUint`.
//!
//! A `BigUint` is opaque to the verifier; the uninterpreted function
//! [`nat_of`] names the non-negative integer it holds. Each wrapper below
//! makes exactly one outside call and states, over `nat_of`, what the
//! crate's source shows of it. Everything else in this library is verified
//! against these contracts.

use vstd::prelude::*;
use num_bigint::BigUint;
use num_bigint::RandBigInt;
use crate::modmath::pow_mod;

verus! {

#[verifier::external_type_specification]
#[verifier::external_body]
pub struct ExBigUint(BigUint);

/// The non-negative integer that a `BigUint` holds. `num_bigint` keeps every
/// `BigUint` in normalized form (no leading zero digits), so the value is a
/// function of the representation and each representation holds one value.
pub uninterp spec fn nat_of(b: BigUint) -> nat;

/// Relies on `<BigUint as From<u64>>::from`: the digits of `v`, normalized.
#[verifier::external_body]
pub(crate) fn big_from_u64(v: u64) -> (r: BigUint)
    ensures
        nat_of(r) == v as nat,
{
    BigUint::from(v)
}

/// Relies on `<BigUint as PartialEq>::eq`, which compares the normalized
/// digit vectors; those are equal exactly when the values are.
#[verifier::external_body]
pub(crate) fn big_eq(a: &BigUint, b: &BigUint) -> (r: bool)
    ensures
        r <==> nat_of(*a) == nat_of(*b),
{
    a == b
}

/// Relies on `<BigUint as Ord>::cmp`, which orders by magnitude.
#[verifier::external_body]
pub(crate) fn big_ge(a: &BigUint, b: &BigUint) -> (r: bool)
    ensures
        r <==> nat_of(*a) >= nat_of(*b),
{
    a >= b
}

/// Relies on `<&BigUint as Mul<&BigUint>>::mul`: the product of the values.
#[verifier::external_body]
pub(crate) fn big_mul(a: &BigUint, b: &BigUint) -> (r: BigUint)
    ensures
        nat_of(r) == nat_of(*a) * nat_of(*b),
{
    a * b
}

/// Relies on `<&BigUint as Sub<&BigUint>>::sub`: the difference of the
/// values. It panics when the subtrahend is larger, so that case is
/// excluded here.
#[verifier::external_body]
pub(crate) fn big_sub(a: &BigUint, b: &BigUint) -> (r: BigUint)
    requires
        nat_of(*b) <= nat_of(*a),
    ensures
        nat_of(r) == nat_of(*a) - nat_of(*b),
{
    a - b
}

/// Relies on `<&BigUint as Rem<&BigUint>>::rem`: the remainder of the
/// division of non-negative values, in `[0, m)`. It panics on a zero
/// divisor, so that case is excluded here.
#[verifier::external_body]
pub(crate) fn big_mod(a: &BigUint, m: &BigUint) -> (r: BigUint)
    requires
        nat_of(*m) >= 1,
    ensures
        nat_of(r) == nat_of(*a) % nat_of(*m),
{
    a % m
}

/// Relies on `BigUint::modpow`, documented as `(self ^ exponent) % modulus`.
/// It panics when the modulus is zero, so that case is excluded here.
#[verifier::external_body]
pub(crate) fn big_modpow(base: &BigUint, exponent: &BigUint, modulus: &BigUint) -> (r: BigUint)
    requires
        nat_of(*modulus) >= 1,
    ensures
        nat_of(r) == pow_mod(nat_of(*base), nat_of(*exponent), nat_of(*modulus)),
{
    base.modpow(exponent, modulus)
}

/// Relies on `RandBigInt::gen_biguint_below` on `rand::thread_rng()`: a
/// random value strictly below `bound`, from the thread-local
/// cryptographically secure generator. It panics on a zero bound, so that
/// case is excluded here. Nothing more than the range is stated: the result
/// depends on the entropy source, not on the arguments.
#[verifier::external_body]
pub(crate) fn big_random_below(bound: &BigUint) -> (r: BigUint)
    requires
        nat_of(*bound) >= 1,
    ensures
        nat_of(r) < nat_of(*bound),
{
    let mut rng = rand::thread_rng();
    rng.gen_biguint_below(bound)
}

} // verus!
