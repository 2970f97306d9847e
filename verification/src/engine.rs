//! Entry point: structural kinds, the error taxonomy, and the safe-prime
//! constructor wrapped around the base search.

use crate::bignum::{big_add_u32, big_digits, big_mul_u32, big_to_digits, big_value};
use crate::certify::probable_prime_check;
use crate::digits::digits_to_nat;
use crate::parallel::parallel_search;
use crate::sample::candidate_ok;
use crate::digits::is_prime_nat;
use crate::search::{
    accepted_ok, lemma_accepted_small_prime, sequential_search, SearchState,
};
use crate::sieve::sieve_check;
use num_bigint::BigUint;
use vstd::arithmetic::div_mod::lemma_mod_multiples_vanish;
use vstd::prelude::*;

verus! {

/// Which pipeline wraps the base generator.
#[derive(Clone, Copy, PartialEq, Eq, Structural, Debug)]
pub enum StructuralKind {
    /// A plain certified prime.
    Random,
    /// A safe prime p, with (p-1)/2 prime as well.
    Safe,
    /// Unsupported: requesting it fails fast, before any sampling.
    Mersenne,
}

/// Configuration errors are surfaced to the caller before any sampling; all
/// per-candidate failures are recovered inside the search instead.
#[derive(Clone, Copy, PartialEq, Eq, Structural, Debug)]
pub enum PrimeError {
    /// The digit count is zero, or too small for the requested kind.
    InvalidSize,
    /// The Mersenne pipeline is not implemented.
    UnsupportedStructuralKind,
    /// The caller-supplied retry budget ran out before a candidate survived
    /// every stage; retrying is the caller's decision.
    Exhausted,
}

/// Digit sizes at or above this threshold are searched in parallel.
pub const PARALLEL_THRESHOLD: usize = 50;

/// A safe prime of `d` digits: itself accepted by the pipeline — so prime
/// whenever it fits the deterministic check — and one more than twice a
/// value the pipeline accepted at `d - 1` digits, so (p - 1) / 2 carries the
/// same guarantee.
pub open spec fn safe_prime_ok(ds: Seq<u8>, d: nat) -> bool {
    &&& accepted_ok(ds, d)
    &&& exists|qs: Seq<u8>|
        accepted_ok(qs, (d - 1) as nat) && digits_to_nat(ds) == 2 * digits_to_nat(qs) + 1
}

/// For sizes within the deterministic check's reach, a safe prime is prime
/// and so is (p - 1) / 2.
pub proof fn lemma_safe_small_primes(ds: Seq<u8>, d: nat)
    requires
        safe_prime_ok(ds, d),
        2 <= d <= 19,
    ensures
        is_prime_nat(digits_to_nat(ds)),
        is_prime_nat((digits_to_nat(ds) - 1) as nat / 2),
{
    lemma_accepted_small_prime(ds, d);
    let qs = choose|qs: Seq<u8>|
        accepted_ok(qs, (d - 1) as nat) && digits_to_nat(ds) == 2 * digits_to_nat(qs) + 1;
    lemma_accepted_small_prime(qs, (d - 1) as nat);
    assert((digits_to_nat(ds) - 1) as nat / 2 == digits_to_nat(qs));
}

/// Base search for a certified prime of exactly `d` digits: sequential for
/// small sizes, a parallel race above the threshold.
pub fn search_prime(d: usize, rounds: usize, budget: u64) -> (r: Option<BigUint>)
    requires
        1 <= d < usize::MAX,
    ensures
        r matches Some(p) ==> accepted_ok(big_digits(p), d as nat),
{
    if d >= PARALLEL_THRESHOLD {
        parallel_search(d, rounds, budget)
    } else {
        sequential_search(d, rounds, budget)
    }
}

/// One full safe-prime derivation attempt: generates a certified prime q of
/// `d - 1` digits, forms p = 2q + 1, and keeps p only when it has exactly
/// `d` digits and itself passes sieving and the probabilistic certifier.
/// With `use_oracle` the surviving p then waits for the deterministic
/// verdict, applied through `oracle_step`; without it, p is accepted
/// outright. Any failure yields Sampling: the next attempt restarts the
/// whole derivation from a fresh q.
pub fn safe_prime_attempt(d: usize, rounds: usize, budget: u64, use_oracle: bool) -> (next:
    SearchState)
    requires
        2 <= d < usize::MAX,
    ensures
        next matches SearchState::AwaitingOracle(p) ==> use_oracle && safe_prime_ok(
            big_digits(p),
            d as nat,
        ),
        next matches SearchState::Accepted(p) ==> !use_oracle && safe_prime_ok(
            big_digits(p),
            d as nat,
        ),
        !(next is AwaitingOracle) && !(next is Accepted) ==> next == SearchState::Sampling,
{
    match search_prime(d - 1, rounds, budget) {
        None => SearchState::Sampling,
        Some(q) => {
            let doubled = big_mul_u32(&q, 2);
            let p = big_add_u32(&doubled, 1);
            let pd = big_to_digits(&p);
            if pd.len() == d {
                if sieve_check(&p) {
                    if probable_prime_check(&p, rounds) {
                        proof {
                            lemma_mod_multiples_vanish(big_value(q) as int, 1, 2);
                            assert(big_value(p) % 2 == 1);
                            assert(candidate_ok(big_digits(p), d as nat));
                            assert(accepted_ok(big_digits(q), (d - 1) as nat));
                        }
                        if use_oracle {
                            SearchState::AwaitingOracle(p)
                        } else {
                            SearchState::Accepted(p)
                        }
                    } else {
                        SearchState::Sampling
                    }
                } else {
                    SearchState::Sampling
                }
            } else {
                SearchState::Sampling
            }
        },
    }
}

/// Safe-prime search without the deterministic stage: repeats whole
/// derivation attempts, at most `budget` times.
fn derive_safe_prime(d: usize, rounds: usize, budget: u64) -> (r: Option<BigUint>)
    requires
        2 <= d < usize::MAX,
    ensures
        r matches Some(p) ==> safe_prime_ok(big_digits(p), d as nat),
{
    let mut tries = budget;
    while tries > 0
        invariant
            2 <= d < usize::MAX,
        decreases tries,
    {
        tries = tries - 1;
        match safe_prime_attempt(d, rounds, budget, false) {
            SearchState::Accepted(p) => {
                return Some(p);
            },
            _ => {},
        }
    }
    None
}

/// Generates a numerically certified prime with exactly `digits` decimal
/// digits for the requested structural kind. Configuration errors come back
/// at once, before any sampling: a Mersenne request is unsupported, and the
/// digit count must be positive — at least two for a safe prime. The search
/// itself retries freshly sampled candidates, giving up only when the
/// caller-supplied `budget` of attempts is spent; `rounds` is the number of
/// extra random-base Miller-Rabin rounds per candidate.
pub fn generate_prime(kind: StructuralKind, digits: usize, rounds: usize, budget: u64) -> (r:
    Result<BigUint, PrimeError>)
    requires
        digits < usize::MAX,
    ensures
        (r == Err::<BigUint, PrimeError>(PrimeError::UnsupportedStructuralKind)) <==> kind
            is Mersenne,
        (r == Err::<BigUint, PrimeError>(PrimeError::InvalidSize)) <==> (!(kind is Mersenne) && (
        digits == 0 || (kind is Safe && digits < 2))),
        r matches Ok(p) ==> (kind is Random && accepted_ok(big_digits(p), digits as nat) || kind
            is Safe && safe_prime_ok(big_digits(p), digits as nat)),
{
    match kind {
        StructuralKind::Mersenne => Err(PrimeError::UnsupportedStructuralKind),
        StructuralKind::Random => {
            if digits == 0 {
                Err(PrimeError::InvalidSize)
            } else {
                match search_prime(digits, rounds, budget) {
                    Some(p) => Ok(p),
                    None => Err(PrimeError::Exhausted),
                }
            }
        },
        StructuralKind::Safe => {
            if digits < 2 {
                Err(PrimeError::InvalidSize)
            } else {
                match derive_safe_prime(digits, rounds, budget) {
                    Some(p) => Ok(p),
                    None => Err(PrimeError::Exhausted),
                }
            }
        },
    }
}

} // verus!
