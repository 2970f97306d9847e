//! Probabilistic certifier: a probable-primality verdict for a candidate.

use crate::bignum::big_value;
use crate::digits::is_prime_nat;
use num_bigint::BigUint;
use num_prime::nt_funcs::is_prime;
use num_prime::{Primality, PrimalityTestConfig};
use vstd::prelude::*;

verus! {

/// Relies on `num_prime::nt_funcs::is_prime` under its strict configuration,
/// widened by `extra_rounds` random-base strong-probable-prime trials. A
/// value that fits in 64 bits is dispatched to the deterministic
/// `is_prime64`, so its verdict is exact. Of a larger value nothing is
/// promised: acceptance there is only probabilistic, and rejection can even
/// hit a true prime, since a random witness of zero fails every
/// strong-probable-prime round.
#[verifier::external_body]
fn probable_prime_raw(candidate: &BigUint, extra_rounds: usize) -> (r: bool)
    ensures
        big_value(*candidate) <= u64::MAX ==> r == is_prime_nat(big_value(*candidate)),
{
    let mut config = PrimalityTestConfig::strict();
    config.sprp_random_trials = extra_rounds;
    match is_prime(candidate, Some(config)) {
        Primality::Yes => true,
        Primality::No => false,
        Primality::Probable(_) => true,
    }
}

/// Probable-primality test with `rounds` random-base Miller-Rabin rounds on
/// top of a strict base check. A value small enough for a deterministic
/// check is decided exactly. For larger values the verdict is probabilistic
/// on both sides and no contract pins it: a composite slips through a single
/// random round with probability at most 1/4, so at most `4^-rounds`
/// survives all of them — a bound of the witness argument, not modeled here —
/// and a prime is rejected only on the vanishing chance of a zero witness.
/// `rounds` trades confidence for latency.
pub fn probable_prime_check(candidate: &BigUint, rounds: usize) -> (r: bool)
    ensures
        big_value(*candidate) <= u64::MAX ==> r == is_prime_nat(big_value(*candidate)),
{
    probable_prime_raw(candidate, rounds)
}

} // verus!
