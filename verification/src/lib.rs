//! Chaum-Pedersen zero-knowledge proof of knowledge of a discrete logarithm
//! shared between two generators.
//!
//! A prover who knows a secret exponent `x` with `y1 = alpha^x mod p` and
//! `y2 = beta^x mod p` can convince a verifier of that knowledge without
//! revealing `x`: the prover publishes commitments `r1 = alpha^k mod p` and
//! `r2 = beta^k mod p` for a fresh random nonce `k`, receives a challenge
//! `c`, and answers with the response `s = (k - c*x) mod q`. The verifier
//! accepts when `r1 == alpha^s * y1^c mod p` and `r2 == beta^s * y2^c mod p`.
//!
//! The arithmetic runs on `num_bigint::BigUint`; its operations stand behind
//! a small trusted boundary in [`bigint`], and everything above that boundary
//! is verified against the mathematical model in [`modmath`].

use vstd::prelude::*;

pub mod bigint;
pub mod modmath;
pub mod protocol;

verus! {

pub use crate::protocol::ZKP;

} // verus!
