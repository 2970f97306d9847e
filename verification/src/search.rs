//! Sequential search: the sampling/sieving/certifying cycle made an explicit
//! state machine, plus the loop that drives it.

use crate::bignum::{big_digits, big_value};
use crate::certify::probable_prime_check;
use crate::digits::{
    digits_to_nat, is_prime_nat, lemma_digits_lower, lemma_digits_upper, lemma_pow10_increases,
    pow10,
};
use crate::sample::{candidate_ok, sample_candidate};
use crate::sieve::{sieve_check, sieve_ok};
use num_bigint::BigUint;
use vstd::prelude::*;

verus! {

/// One generation request's position in the pipeline. A candidate is carried
/// from the stage that produced it to the stage that consumes it; no other
/// state persists between requests.
pub enum SearchState {
    /// No live candidate; the next step draws one.
    Sampling,
    /// A fresh candidate awaiting trial division.
    Sieving(BigUint),
    /// A sieve survivor awaiting the probabilistic certifier.
    Certifying(BigUint),
    /// A probabilistically certified candidate awaiting the deterministic
    /// oracle's verdict, which the caller must obtain out of band.
    AwaitingOracle(BigUint),
    /// A fully certified result.
    Accepted(BigUint),
}

/// Verdict of the deterministic certification oracle, as reported by the
/// collaborator that invoked it.
pub enum OracleVerdict {
    /// The oracle confirmed primality.
    Prime,
    /// The oracle proved the candidate composite.
    Composite,
    /// The oracle could not be invoked or its output could not be read;
    /// the candidate is discarded and the search continues.
    Inconclusive,
}

/// What the pipeline guarantees of a value it has let past the sieve:
/// exactly `d` digits, odd, and no small odd prime divides it nontrivially.
pub open spec fn sieved_ok(ds: Seq<u8>, d: nat) -> bool {
    &&& candidate_ok(ds, d)
    &&& sieve_ok(digits_to_nat(ds))
}

/// What the pipeline guarantees of a value it has accepted: sieved, and —
/// whenever the value is small enough that the certifier's verdict is
/// deterministic — prime. For larger values the probabilistic verdict rests
/// on random witnesses, so no contract can pin it.
pub open spec fn accepted_ok(ds: Seq<u8>, d: nat) -> bool {
    &&& sieved_ok(ds, d)
    &&& (digits_to_nat(ds) <= u64::MAX ==> is_prime_nat(digits_to_nat(ds)))
}

/// What "exactly d digits" means for the value itself: anything the pipeline
/// accepts lies in the d-digit decade and is odd.
pub proof fn lemma_accepted_value(ds: Seq<u8>, d: nat)
    requires
        sieved_ok(ds, d),
        d >= 1,
    ensures
        pow10((d - 1) as nat) <= digits_to_nat(ds) < pow10(d),
        digits_to_nat(ds) % 2 == 1,
{
    lemma_digits_upper(ds);
    if ds.len() > 1 {
        lemma_digits_lower(ds);
    } else {
        assert(digits_to_nat(ds) == digits_to_nat(ds.drop_last()) * 10 + ds.last() as nat);
        assert(digits_to_nat(ds) == ds[0] as nat);
        assert(ds[0] != 0);
    }
}

/// A value of at most nineteen digits fits the deterministic check, so an
/// accepted result of such a size is prime outright.
pub proof fn lemma_accepted_small_prime(ds: Seq<u8>, d: nat)
    requires
        accepted_ok(ds, d),
        d <= 19,
    ensures
        is_prime_nat(digits_to_nat(ds)),
{
    lemma_digits_upper(ds);
    lemma_pow10_increases(d, 19);
    assert(pow10(19) == 10_000_000_000_000_000_000) by {
        reveal_with_fuel(pow10, 20);
    }
}

/// Each stage holds of its candidate what the stages before it established.
pub open spec fn state_inv(st: SearchState, d: nat) -> bool {
    match st {
        SearchState::Sampling => true,
        SearchState::Sieving(c) => candidate_ok(big_digits(c), d),
        SearchState::Certifying(c) => sieved_ok(big_digits(c), d),
        SearchState::AwaitingOracle(c) => accepted_ok(big_digits(c), d),
        SearchState::Accepted(c) => accepted_ok(big_digits(c), d),
    }
}

/// One transition of the search cycle: Sampling draws, Sieving filters,
/// Certifying runs the probabilistic test and then either accepts directly
/// or defers to the oracle; every rejection resumes sampling. A state
/// waiting on the oracle only moves through `oracle_step`.
pub fn search_step(st: SearchState, d: usize, rounds: usize, use_oracle: bool) -> (next:
    SearchState)
    requires
        1 <= d < usize::MAX,
        state_inv(st, d as nat),
    ensures
        state_inv(next, d as nat),
        st is Sampling ==> next is Sieving,
        st matches SearchState::Sieving(c) ==> if sieve_ok(big_value(c)) {
            next == SearchState::Certifying(c)
        } else {
            next == SearchState::Sampling
        },
        st matches SearchState::Certifying(c) ==> {
            ||| next == if use_oracle {
                SearchState::AwaitingOracle(c)
            } else {
                SearchState::Accepted(c)
            }
            ||| next == SearchState::Sampling
        },
        st matches SearchState::Certifying(c) ==> ((!(next is Sampling) && big_value(c)
            <= u64::MAX) ==> is_prime_nat(big_value(c))),
        st matches SearchState::Certifying(c) ==> ((big_value(c) <= u64::MAX && is_prime_nat(
            big_value(c),
        )) ==> !(next is Sampling)),
        st is AwaitingOracle ==> next == st,
        st is Accepted ==> next == st,
{
    match st {
        SearchState::Sampling => SearchState::Sieving(sample_candidate(d)),
        SearchState::Sieving(c) => {
            if sieve_check(&c) {
                SearchState::Certifying(c)
            } else {
                SearchState::Sampling
            }
        },
        SearchState::Certifying(c) => {
            if probable_prime_check(&c, rounds) {
                if use_oracle {
                    SearchState::AwaitingOracle(c)
                } else {
                    SearchState::Accepted(c)
                }
            } else {
                SearchState::Sampling
            }
        },
        other => other,
    }
}

/// Applies the oracle's verdict to a state waiting on it: only a definitive
/// Prime verdict accepts; Composite rejects and Inconclusive is recovered by
/// discarding the candidate, so both resume sampling. Any other state is
/// left untouched.
pub fn oracle_step(st: SearchState, verdict: OracleVerdict) -> (next: SearchState)
    ensures
        st matches SearchState::AwaitingOracle(c) ==> if verdict is Prime {
            next == SearchState::Accepted(c)
        } else {
            next == SearchState::Sampling
        },
        !(st is AwaitingOracle) ==> next == st,
{
    match st {
        SearchState::AwaitingOracle(c) => match verdict {
            OracleVerdict::Prime => SearchState::Accepted(c),
            OracleVerdict::Composite => SearchState::Sampling,
            OracleVerdict::Inconclusive => SearchState::Sampling,
        },
        other => other,
    }
}

/// Sequential generate-sieve-certify retry loop, for small sizes. Runs at
/// most `steps` transitions of the cycle and accepts on probabilistic
/// certification; any accepted value has exactly `d` digits, is odd and has
/// no small odd prime factor.
pub fn sequential_search(d: usize, rounds: usize, steps: u64) -> (r: Option<BigUint>)
    requires
        1 <= d < usize::MAX,
    ensures
        r matches Some(p) ==> accepted_ok(big_digits(p), d as nat),
{
    let mut st = SearchState::Sampling;
    let mut budget = steps;
    while budget > 0
        invariant
            1 <= d < usize::MAX,
            state_inv(st, d as nat),
            !(st is Accepted),
            !(st is AwaitingOracle),
        decreases budget,
    {
        budget = budget - 1;
        let next = search_step(st, d, rounds, false);
        match next {
            SearchState::Accepted(c) => {
                return Some(c);
            },
            other => {
                st = other;
            },
        }
    }
    None
}

} // verus!
