//! The protocol itself: an immutable parameter-holding type, [`ZKP`], and
//! stateless free functions that take every parameter explicitly. Each
//! operation is verified against the model in [`crate::modmath`].

use vstd::prelude::*;
use vstd::arithmetic::power::pow;
use vstd::arithmetic::div_mod::lemma_mul_mod_noop_general;
use num_bigint::BigUint;
use crate::bigint::nat_of;
use crate::bigint::big_eq;
use crate::bigint::big_from_u64;
use crate::bigint::big_ge;
use crate::bigint::big_mod;
use crate::bigint::big_modpow;
use crate::bigint::big_mul;
use crate::bigint::big_random_below;
use crate::bigint::big_sub;
use crate::modmath::pow_mod;
use crate::modmath::solve_spec;
use crate::modmath::verify_spec;
use crate::modmath::lemma_neg_mod;
use crate::modmath::lemma_solve_in_range;
use vstd::arithmetic::div_mod::lemma_mod_division_less_than_divisor;

verus! {

/// The public group parameters, immutable once constructed: a prime modulus
/// `p`, the order `q` of the subgroup, and two generators `alpha` and `beta`
/// of that subgroup. The library does not validate the parameters; supplying
/// well-formed ones is the caller's responsibility.
pub struct ZKP {
    pub p: BigUint,
    pub q: BigUint,
    pub alpha: BigUint,
    pub beta: BigUint,
}

/// `n^exponent mod modulus` by fast modular exponentiation.
pub fn exponentiate(n: &BigUint, exponent: &BigUint, modulus: &BigUint) -> (r: BigUint)
    requires
        nat_of(*modulus) >= 1,
    ensures
        nat_of(r) == pow_mod(nat_of(*n), nat_of(*exponent), nat_of(*modulus)),
{
    big_modpow(n, exponent, modulus)
}

/// The prover's response `s = (k - c*x) mod q`, always in `[0, q)`.
///
/// The subtraction branches on the sign, because the arithmetic type holds
/// no negative values; both branches produce the canonical residue of the
/// true integer difference.
pub fn solve(k: &BigUint, c: &BigUint, x: &BigUint, q: &BigUint) -> (s: BigUint)
    requires
        nat_of(*q) >= 1,
    ensures
        nat_of(s) == solve_spec(nat_of(*k), nat_of(*c), nat_of(*x), nat_of(*q)),
        nat_of(s) < nat_of(*q),
{
    proof {
        lemma_solve_in_range(nat_of(*k), nat_of(*c), nat_of(*x), nat_of(*q));
    }
    let cx = big_mul(c, x);
    if big_ge(k, &cx) {
        let d = big_sub(k, &cx);
        big_mod(&d, q)
    } else {
        let d = big_sub(&cx, k);
        let rem = big_mod(&d, q);
        proof {
            lemma_mod_division_less_than_divisor(nat_of(d) as int, nat_of(*q) as int);
            lemma_neg_mod(nat_of(d) as int, nat_of(*q) as int);
        }
        let zero = big_from_u64(0);
        if big_eq(&rem, &zero) {
            zero
        } else {
            big_sub(q, &rem)
        }
    }
}

/// The verifier's acceptance predicate: true exactly when
/// `r1 == alpha^s * y1^c mod p` and `r2 == beta^s * y2^c mod p`, each
/// product fully reduced modulo `p` before the comparison.
pub fn verify(
    p: &BigUint,
    alpha: &BigUint,
    beta: &BigUint,
    r1: &BigUint,
    r2: &BigUint,
    y1: &BigUint,
    y2: &BigUint,
    c: &BigUint,
    s: &BigUint,
) -> (ok: bool)
    requires
        nat_of(*p) >= 1,
    ensures
        ok == verify_spec(
            nat_of(*p),
            nat_of(*alpha),
            nat_of(*beta),
            nat_of(*r1),
            nat_of(*r2),
            nat_of(*y1),
            nat_of(*y2),
            nat_of(*c),
            nat_of(*s),
        ),
{
    let u1 = big_modpow(alpha, s, p);
    let v1 = big_modpow(y1, c, p);
    let m1 = big_mul(&u1, &v1);
    let w1 = big_mod(&m1, p);
    proof {
        lemma_mul_mod_noop_general(
            pow(nat_of(*alpha) as int, nat_of(*s)),
            pow(nat_of(*y1) as int, nat_of(*c)),
            nat_of(*p) as int,
        );
    }
    let cond1 = big_eq(r1, &w1);
    let u2 = big_modpow(beta, s, p);
    let v2 = big_modpow(y2, c, p);
    let m2 = big_mul(&u2, &v2);
    let w2 = big_mod(&m2, p);
    proof {
        lemma_mul_mod_noop_general(
            pow(nat_of(*beta) as int, nat_of(*s)),
            pow(nat_of(*y2) as int, nat_of(*c)),
            nat_of(*p) as int,
        );
    }
    let cond2 = big_eq(r2, &w2);
    cond1 && cond2
}

/// A uniformly random value in `[0, bound)` from a cryptographically secure
/// generator.
pub fn generate_random_below(bound: &BigUint) -> (r: BigUint)
    requires
        nat_of(*bound) >= 1,
    ensures
        nat_of(r) < nat_of(*bound),
        nat_of(*bound) == 1 ==> nat_of(r) == 0,
{
    big_random_below(bound)
}

impl ZKP {
    /// Bundles the group parameters for prover and verifier to share.
    pub fn new(p: BigUint, q: BigUint, alpha: BigUint, beta: BigUint) -> (z: ZKP)
        ensures
            z.p == p,
            z.q == q,
            z.alpha == alpha,
            z.beta == beta,
    {
        ZKP { p, q, alpha, beta }
    }

    /// `n^exponent mod modulus` by fast modular exponentiation.
    pub fn exponentiate(n: &BigUint, exponent: &BigUint, modulus: &BigUint) -> (r: BigUint)
        requires
            nat_of(*modulus) >= 1,
        ensures
            nat_of(r) == pow_mod(nat_of(*n), nat_of(*exponent), nat_of(*modulus)),
    {
        exponentiate(n, exponent, modulus)
    }

    /// The prover's response `s = (k - c*x) mod q` for the stored order `q`,
    /// always in `[0, q)`.
    pub fn solve(&self, k: &BigUint, c: &BigUint, x: &BigUint) -> (s: BigUint)
        requires
            nat_of(self.q) >= 1,
        ensures
            nat_of(s) == solve_spec(nat_of(*k), nat_of(*c), nat_of(*x), nat_of(self.q)),
            nat_of(s) < nat_of(self.q),
    {
        solve(k, c, x, &self.q)
    }

    /// The verifier's acceptance predicate over the stored parameters: true
    /// exactly when `r1 == alpha^s * y1^c mod p` and
    /// `r2 == beta^s * y2^c mod p`, each product fully reduced modulo `p`
    /// before the comparison.
    pub fn verify(
        &self,
        r1: &BigUint,
        r2: &BigUint,
        y1: &BigUint,
        y2: &BigUint,
        c: &BigUint,
        s: &BigUint,
    ) -> (ok: bool)
        requires
            nat_of(self.p) >= 1,
        ensures
            ok == verify_spec(
                nat_of(self.p),
                nat_of(self.alpha),
                nat_of(self.beta),
                nat_of(*r1),
                nat_of(*r2),
                nat_of(*y1),
                nat_of(*y2),
                nat_of(*c),
                nat_of(*s),
            ),
    {
        verify(&self.p, &self.alpha, &self.beta, r1, r2, y1, y2, c, s)
    }

    /// A uniformly random value in `[0, bound)` from a cryptographically
    /// secure generator.
    pub fn generate_random_below(bound: &BigUint) -> (r: BigUint)
        requires
            nat_of(*bound) >= 1,
        ensures
            nat_of(r) < nat_of(*bound),
            nat_of(*bound) == 1 ==> nat_of(r) == 0,
    {
        generate_random_below(bound)
    }
}

} // verus!
