//! The mathematical model of the protocol: modular exponentiation, the
//! prover's response, and the verifier's acceptance predicate, all stated
//! over unbounded integers.

use vstd::prelude::*;
use vstd::arithmetic::power::pow;
use vstd::arithmetic::power::lemma_pow0;
use vstd::arithmetic::power::lemma_pow_adds;
use vstd::arithmetic::power::lemma_pow_multiplies;
use vstd::arithmetic::power::lemma_pow_mod_noop;
use vstd::arithmetic::div_mod::lemma_fundamental_div_mod;
use vstd::arithmetic::div_mod::lemma_fundamental_div_mod_converse_mod;
use vstd::arithmetic::div_mod::lemma_mod_division_less_than_divisor;
use vstd::arithmetic::div_mod::lemma_mod_twice;
use vstd::arithmetic::div_mod::lemma_add_mod_noop;
use vstd::arithmetic::div_mod::lemma_mul_mod_noop_general;
use vstd::arithmetic::div_mod::lemma_small_mod;
use vstd::arithmetic::div_mod::lemma_div_pos_is_pos;

verus! {

/// `base^exp mod m`, the canonical residue in `[0, m)` when `m >= 1`.
pub open spec fn pow_mod(base: nat, exp: nat, m: nat) -> nat
    recommends
        m >= 1,
{
    (pow(base as int, exp) % (m as int)) as nat
}

/// The prover's response `(k - c*x) mod q`, computed over the true integers,
/// so the result is the canonical residue in `[0, q)` when `q >= 1`.
pub open spec fn solve_spec(k: nat, c: nat, x: nat, q: nat) -> nat
    recommends
        q >= 1,
{
    ((k - c * x) % (q as int)) as nat
}

/// The verifier's acceptance predicate: both commitments must equal the
/// fully reduced products `alpha^s * y1^c mod p` and `beta^s * y2^c mod p`.
pub open spec fn verify_spec(
    p: nat,
    alpha: nat,
    beta: nat,
    r1: nat,
    r2: nat,
    y1: nat,
    y2: nat,
    c: nat,
    s: nat,
) -> bool
    recommends
        p >= 1,
{
    &&& r1 == (pow(alpha as int, s) * pow(y1 as int, c)) % (p as int)
    &&& r2 == (pow(beta as int, s) * pow(y2 as int, c)) % (p as int)
}

/// How negation interacts with the Euclidean remainder: for `m >= 1`,
/// `(-a) % m` is `0` when `a` is a multiple of `m` and `m - a % m`
/// otherwise. This is the fact behind the sign branch of the response
/// computation over non-negative arithmetic.
pub proof fn lemma_neg_mod(a: int, m: int)
    requires
        m >= 1,
    ensures
        a % m == 0 ==> (-a) % m == 0,
        a % m != 0 ==> (-a) % m == m - a % m,
{
    let t: int = a / m;
    let r: int = a % m;
    lemma_fundamental_div_mod(a, m);
    lemma_mod_division_less_than_divisor(a, m);
    if r == 0 {
        assert((-t) * m + 0 == -a) by (nonlinear_arith)
            requires
                a == m * t + r,
                r == 0,
        ;
        lemma_fundamental_div_mod_converse_mod(-a, m, -t, 0);
    } else {
        assert((-t - 1) * m + (m - r) == -a) by (nonlinear_arith)
            requires
                a == m * t + r,
        ;
        lemma_fundamental_div_mod_converse_mod(-a, m, -t - 1, m - r);
    }
}

/// The response is always a canonical residue: `solve_spec` lands in
/// `[0, q)` for every `k`, `c` and `x`.
pub proof fn lemma_solve_in_range(k: nat, c: nat, x: nat, q: nat)
    requires
        q >= 1,
    ensures
        solve_spec(k, c, x, q) < q,
{
    lemma_mod_division_less_than_divisor(k - c * x, q as int);
}

/// When `g^q mod p == 1`, adding any multiple of `q` to an exponent leaves
/// the residue of the power unchanged.
pub proof fn lemma_pow_period(g: nat, q: nat, p: nat, e: nat, j: nat)
    requires
        p >= 1,
        pow(g as int, q) % (p as int) == 1,
    ensures
        pow(g as int, (e + q * j) as nat) % (p as int) == pow(g as int, e) % (p as int),
    decreases j,
{
    if j > 0 {
        let e1: nat = (e + q * (j - 1)) as nat;
        lemma_pow_period(g, q, p, e, (j - 1) as nat);
        assert(e + q * j == e1 + q) by (nonlinear_arith)
            requires
                j >= 1,
                e1 == e + q * (j - 1),
        ;
        lemma_pow_adds(g as int, e1, q);
        lemma_mul_mod_noop_general(pow(g as int, e1), pow(g as int, q), p as int);
        lemma_mod_twice(pow(g as int, e1), p as int);
    }
}

/// Exponents that agree modulo `q` give the same residue of the power when
/// `g^q mod p == 1`.
pub proof fn lemma_pow_congruent(g: nat, q: nat, p: nat, e1: nat, e2: nat)
    requires
        p >= 1,
        q >= 1,
        pow(g as int, q) % (p as int) == 1,
        e1 % q == e2 % q,
    ensures
        pow(g as int, e1) % (p as int) == pow(g as int, e2) % (p as int),
{
    let r: nat = e1 % q;
    let j1: int = e1 as int / q as int;
    let j2: int = e2 as int / q as int;
    lemma_fundamental_div_mod(e1 as int, q as int);
    lemma_fundamental_div_mod(e2 as int, q as int);
    lemma_div_pos_is_pos(e1 as int, q as int);
    lemma_div_pos_is_pos(e2 as int, q as int);
    assert(e1 == r + q * j1);
    assert(e2 == r + q * j2);
    lemma_pow_period(g, q, p, r, j1 as nat);
    lemma_pow_period(g, q, p, r, j2 as nat);
}

/// BOUNDARY: when the nonce equals `c*x` exactly, the response is zero.
pub proof fn lemma_solve_at_balance(k: nat, c: nat, x: nat, q: nat)
    requires
        q >= 1,
        k == c * x,
    ensures
        solve_spec(k, c, x, q) == 0,
{
    lemma_small_mod(0, q);
}

/// BOUNDARY: a zero challenge reduces the response to `k mod q`.
pub proof fn lemma_solve_zero_challenge(k: nat, x: nat, q: nat)
    requires
        q >= 1,
    ensures
        solve_spec(k, 0, x, q) == k % q,
{
    assert(0 * x == 0);
}

/// BOUNDARY: with a zero challenge the acceptance predicate degenerates to
/// `r1 == alpha^s mod p` and `r2 == beta^s mod p`.
pub proof fn lemma_verify_zero_challenge(
    p: nat,
    alpha: nat,
    beta: nat,
    r1: nat,
    r2: nat,
    y1: nat,
    y2: nat,
    s: nat,
)
    requires
        p >= 1,
    ensures
        verify_spec(p, alpha, beta, r1, r2, y1, y2, 0, s) <==> (r1 == pow_mod(alpha, s, p)
            && r2 == pow_mod(beta, s, p)),
{
    lemma_pow0(y1 as int);
    lemma_pow0(y2 as int);
}

/// One generator's half of the completeness law: for an honest prover the
/// product the verifier recomputes, `g^s * (g^x mod p)^c mod p`, equals the
/// commitment `g^k mod p`.
pub proof fn lemma_honest_prover_side(p: nat, q: nat, g: nat, x: nat, k: nat, c: nat)
    requires
        p >= 1,
        q >= 1,
        pow(g as int, q) % (p as int) == 1,
    ensures
        (pow(g as int, solve_spec(k, c, x, q)) * pow(pow_mod(g, x, p) as int, c)) % (p as int)
            == pow(g as int, k) % (p as int),
{
    let pi: int = p as int;
    let qi: int = q as int;
    let gi: int = g as int;
    let s: nat = solve_spec(k, c, x, q);
    let y: nat = pow_mod(g, x, p);
    let d: int = k - c * x;
    let xc: nat = (x * c) as nat;

    // The response is a residue: 0 <= s < q, and s == d % q.
    lemma_mod_division_less_than_divisor(d, qi);

    // Step 1: pow(y, c) % p == pow(g, x*c) % p.
    lemma_pow_mod_noop(pow(gi, x), c, pi);
    lemma_pow_multiplies(gi, x, c);
    assert(pow(y as int, c) % pi == pow(gi, xc) % pi);

    // Step 2: (pow(g,s) * pow(y,c)) % p == pow(g, s + x*c) % p.
    lemma_mul_mod_noop_general(pow(gi, s), pow(y as int, c), pi);
    lemma_mul_mod_noop_general(pow(gi, s), pow(gi, xc), pi);
    lemma_pow_adds(gi, s, xc);
    assert((pow(gi, s) * pow(y as int, c)) % pi == pow(gi, (s + xc) as nat) % pi);

    // Step 3: (s + x*c) % q == k % q, because s == (k - c*x) % q.
    assert(x * c == c * x) by (nonlinear_arith);
    lemma_mod_twice(d, qi);
    lemma_add_mod_noop(s as int, (c * x) as int, qi);
    lemma_add_mod_noop(d, (c * x) as int, qi);
    assert((s + xc) % q == k % q);

    // Step 4: congruent exponents give the same residue.
    lemma_pow_congruent(g, q, p, (s + xc) as nat, k);
}

/// COMPLETENESS: for all group parameters whose generators `alpha` and
/// `beta` have `alpha^q mod p == 1` and `beta^q mod p == 1`, every secret
/// `x`, nonce `k` and challenge `c`, the honestly computed transcript
/// `y1 = alpha^x mod p`, `y2 = beta^x mod p`, `r1 = alpha^k mod p`,
/// `r2 = beta^k mod p`, `s = (k - c*x) mod q` passes the verification
/// predicate.
pub proof fn lemma_completeness(p: nat, q: nat, alpha: nat, beta: nat, x: nat, k: nat, c: nat)
    requires
        p >= 1,
        q >= 1,
        pow(alpha as int, q) % (p as int) == 1,
        pow(beta as int, q) % (p as int) == 1,
    ensures
        verify_spec(
            p,
            alpha,
            beta,
            pow_mod(alpha, k, p),
            pow_mod(beta, k, p),
            pow_mod(alpha, x, p),
            pow_mod(beta, x, p),
            c,
            solve_spec(k, c, x, q),
        ),
{
    lemma_honest_prover_side(p, q, alpha, x, k, c);
    lemma_honest_prover_side(p, q, beta, x, k, c);
}

} // verus!
