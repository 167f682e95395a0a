use num_bigint::BigUint;
use zkp_auth_chaum_pedersen::protocol::{exponentiate, generate_random_below, solve, verify};
use zkp_auth_chaum_pedersen::ZKP;

fn big(v: u64) -> BigUint {
    BigUint::from(v)
}

/// The fixed group used throughout: p = 23, q = 11, alpha = 4, beta = 9.
/// Both generators have order 11 modulo 23.
fn example_group() -> ZKP {
    ZKP {
        p: big(23),
        q: big(11),
        alpha: big(4),
        beta: big(9),
    }
}

#[test]
fn test_example_with_random_numbers() {
    let alpha = BigUint::from(4u32);
    let beta = BigUint::from(9u32);
    let p = BigUint::from(23u32);
    let q = BigUint::from(11u32);
    let zkp = ZKP {
        p: p.clone(),
        q: q.clone(),
        alpha: alpha.clone(),
        beta: beta.clone(),
    };

    let x = BigUint::from(6u32);
    let k = ZKP::generate_random_below(&q);

    let c = ZKP::generate_random_below(&q);

    let y1 = ZKP::exponentiate(&alpha, &x, &p);
    let y2 = ZKP::exponentiate(&beta, &x, &p);
    assert_eq!(y1, BigUint::from(2u32));
    assert_eq!(y2, BigUint::from(3u32));

    let r1 = ZKP::exponentiate(&alpha, &k, &p);
    let r2 = ZKP::exponentiate(&beta, &k, &p);

    let s = zkp.solve(&k, &c, &x);

    let result = zkp.verify(&r1, &r2, &y1, &y2, &c, &s);
    assert!(result);
}

#[test]
fn regression_vector() {
    // alpha=4, beta=9, p=23, q=11, x=6 give y1=2, y2=3; with k=7, c=4
    // the transcript is r1=8, r2=4, s=5 and it verifies.
    let zkp = example_group();
    let x = big(6);
    let k = big(7);
    let c = big(4);

    let y1 = ZKP::exponentiate(&zkp.alpha, &x, &zkp.p);
    let y2 = ZKP::exponentiate(&zkp.beta, &x, &zkp.p);
    assert_eq!(y1, big(2));
    assert_eq!(y2, big(3));

    let r1 = ZKP::exponentiate(&zkp.alpha, &k, &zkp.p);
    let r2 = ZKP::exponentiate(&zkp.beta, &k, &zkp.p);
    assert_eq!(r1, big(8));
    assert_eq!(r2, big(4));

    let s = zkp.solve(&k, &c, &x);
    assert_eq!(s, big(5));

    assert!(zkp.verify(&r1, &r2, &y1, &y2, &c, &s));
}

#[test]
fn completeness_over_all_small_inputs() {
    // For every x, k, c in [0, 11) the honestly computed transcript verifies.
    let zkp = example_group();
    for x in 0..11u64 {
        let xb = big(x);
        let y1 = ZKP::exponentiate(&zkp.alpha, &xb, &zkp.p);
        let y2 = ZKP::exponentiate(&zkp.beta, &xb, &zkp.p);
        for k in 0..11u64 {
            let kb = big(k);
            let r1 = ZKP::exponentiate(&zkp.alpha, &kb, &zkp.p);
            let r2 = ZKP::exponentiate(&zkp.beta, &kb, &zkp.p);
            for c in 0..11u64 {
                let cb = big(c);
                let s = zkp.solve(&kb, &cb, &xb);
                assert!(
                    zkp.verify(&r1, &r2, &y1, &y2, &cb, &s),
                    "honest transcript rejected at x={x} k={k} c={c}"
                );
            }
        }
    }
}

#[test]
fn soundness_tampered_response_rejected() {
    // With the regression vector, the correct response is s=5; every other
    // residue modulo q must be rejected.
    let zkp = example_group();
    let y1 = big(2);
    let y2 = big(3);
    let r1 = big(8);
    let r2 = big(4);
    let c = big(4);
    for s in 0..11u64 {
        let accepted = zkp.verify(&r1, &r2, &y1, &y2, &c, &big(s));
        assert_eq!(accepted, s == 5, "verify gave the wrong answer for s={s}");
    }
}

#[test]
fn solve_is_deterministic_and_in_range() {
    let zkp = example_group();
    for k in 0..11u64 {
        for c in 0..11u64 {
            for x in 0..11u64 {
                let first = zkp.solve(&big(k), &big(c), &big(x));
                let second = zkp.solve(&big(k), &big(c), &big(x));
                assert_eq!(first, second);
                assert!(first < big(11));
            }
        }
    }
}

#[test]
fn solve_boundary_exact_balance() {
    // k == c*x exactly gives s == 0, in both subtraction branches.
    let q = big(11);
    assert_eq!(solve(&big(8), &big(4), &big(2), &q), big(0));
    assert_eq!(solve(&big(35), &big(5), &big(7), &q), big(0));
    assert_eq!(solve(&big(0), &big(0), &big(9), &q), big(0));
}

#[test]
fn solve_boundary_product_multiple_of_order() {
    // When c*x exceeds k by an exact multiple of q, the response is k mod q.
    let q = big(11);
    // c*x = 22, k = 0: difference 22 is a multiple of 11, so s = 0.
    assert_eq!(solve(&big(0), &big(2), &big(11), &q), big(0));
    // c*x = 22, k = 3: s = (3 - 22) mod 11 = 3.
    assert_eq!(solve(&big(3), &big(2), &big(11), &q), big(3));
}

#[test]
fn solve_with_trivial_order() {
    // q == 1 has a single residue: the response is always 0.
    let q = big(1);
    assert_eq!(solve(&big(5), &big(3), &big(2), &q), big(0));
    assert_eq!(solve(&big(9), &big(0), &big(0), &q), big(0));
}

#[test]
fn solve_boundary_zero_challenge() {
    // c == 0 reduces the response to k mod q.
    let q = big(11);
    assert_eq!(solve(&big(7), &big(0), &big(6), &q), big(7));
    assert_eq!(solve(&big(25), &big(0), &big(6), &q), big(3));
}

#[test]
fn verify_degenerates_at_zero_challenge() {
    // With c == 0 the predicate checks r1 == alpha^s mod p and
    // r2 == beta^s mod p, whatever y1 and y2 hold.
    let zkp = example_group();
    let c = big(0);
    let s = big(7);
    let r1 = ZKP::exponentiate(&zkp.alpha, &s, &zkp.p);
    let r2 = ZKP::exponentiate(&zkp.beta, &s, &zkp.p);
    for y in 0..5u64 {
        assert!(zkp.verify(&r1, &r2, &big(y), &big(y + 1), &c, &s));
    }
    assert!(!zkp.verify(&big(1), &r2, &big(2), &big(3), &c, &s));
    assert!(!zkp.verify(&r1, &big(1), &big(2), &big(3), &c, &s));
}

#[test]
fn random_below_stays_in_range() {
    let bound = big(11);
    for _ in 0..500 {
        let r = ZKP::generate_random_below(&bound);
        assert!(r < bound);
    }
}

#[test]
fn random_below_one_is_always_zero() {
    let one = big(1);
    for _ in 0..100 {
        assert_eq!(generate_random_below(&one), big(0));
    }
}

#[test]
fn verify_reduces_the_product_before_comparing() {
    // In the regression vector, alpha^s mod p = 12 and y1^c mod p = 16, so
    // the product before the final reduction is 192 > p. The reduced value 8
    // must be accepted and the unreduced 192 rejected.
    let zkp = example_group();
    let y1 = big(2);
    let y2 = big(3);
    let c = big(4);
    let s = big(5);
    assert_eq!(ZKP::exponentiate(&zkp.alpha, &s, &zkp.p), big(12));
    assert_eq!(ZKP::exponentiate(&y1, &c, &zkp.p), big(16));
    assert!(zkp.verify(&big(8), &big(4), &y1, &y2, &c, &s));
    assert!(!zkp.verify(&big(192), &big(4), &y1, &y2, &c, &s));
}

#[test]
fn exponentiate_matches_known_powers() {
    let p = big(23);
    assert_eq!(exponentiate(&big(4), &big(0), &p), big(1));
    assert_eq!(exponentiate(&big(4), &big(1), &p), big(4));
    assert_eq!(exponentiate(&big(4), &big(6), &p), big(2));
    assert_eq!(exponentiate(&big(9), &big(6), &p), big(3));
    assert_eq!(exponentiate(&big(4), &big(7), &p), big(8));
    assert_eq!(exponentiate(&big(9), &big(7), &p), big(4));
    // Both generators have order q = 11.
    assert_eq!(exponentiate(&big(4), &big(11), &p), big(1));
    assert_eq!(exponentiate(&big(9), &big(11), &p), big(1));
    // Zero base and zero exponent: 0^0 is the empty product, 1.
    assert_eq!(exponentiate(&big(0), &big(0), &p), big(1));
    assert_eq!(exponentiate(&big(0), &big(5), &p), big(0));
    // The modulus 1 maps everything to zero, even with a zero exponent.
    assert_eq!(exponentiate(&big(9), &big(7), &big(1)), big(0));
    assert_eq!(exponentiate(&big(9), &big(0), &big(1)), big(0));
}

#[test]
fn free_functions_agree_with_methods() {
    let zkp = example_group();
    let k = big(7);
    let c = big(4);
    let x = big(6);
    let s_free = solve(&k, &c, &x, &zkp.q);
    let s_method = zkp.solve(&k, &c, &x);
    assert_eq!(s_free, s_method);
    let y1 = big(2);
    let y2 = big(3);
    let r1 = big(8);
    let r2 = big(4);
    assert_eq!(
        verify(&zkp.p, &zkp.alpha, &zkp.beta, &r1, &r2, &y1, &y2, &c, &s_free),
        zkp.verify(&r1, &r2, &y1, &y2, &c, &s_method)
    );
}

#[test]
fn constructor_stores_the_parameters() {
    let zkp = ZKP::new(big(23), big(11), big(4), big(9));
    assert_eq!(zkp.p, big(23));
    assert_eq!(zkp.q, big(11));
    assert_eq!(zkp.alpha, big(4));
    assert_eq!(zkp.beta, big(9));
}
