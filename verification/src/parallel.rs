//! Parallel race search: candidate generation, sieving and certification
//! fanned out across worker threads, with a shared cancellation flag.

use crate::bignum::{big_digits, big_value};
use crate::certify::probable_prime_check;
use crate::digits::is_prime_nat;
use crate::sample::{candidate_ok, sample_candidate};
use crate::search::accepted_ok;
use crate::sieve::{sieve_check, sieve_ok};
use core::sync::atomic::{AtomicBool, Ordering};
use num_bigint::BigUint;
use rayon::iter::{IntoParallelIterator, IntoParallelRefIterator, ParallelIterator};
use vstd::prelude::*;

verus! {

/// Relies on `num_cpus::get`: the number of logical cores available to this
/// process, always at least one.
#[verifier::external_body]
fn cpu_count() -> (r: usize)
    ensures
        1 <= r,
{
    num_cpus::get()
}

/// One worker's certification attempt on its own candidate. The shared flag
/// is polled before the expensive test begins — once a peer has won, no new
/// certification work starts — and set once this worker wins. The flag
/// carries no verified meaning: whatever its value, the worker only ever
/// commits its own candidate, and only when the certifier accepted it — so a
/// committed value small enough for the deterministic check is prime.
fn race_certify(c: &BigUint, rounds: usize, flag: &AtomicBool) -> (r: Option<BigUint>)
    ensures
        r matches Some(x) ==> {
            &&& x == *c
            &&& (big_value(*c) <= u64::MAX ==> is_prime_nat(big_value(*c)))
        },
{
    if flag.load(Ordering::Relaxed) {
        return None;
    }
    if probable_prime_check(c, rounds) {
        flag.store(true, Ordering::Relaxed);
        Some(c.clone())
    } else {
        None
    }
}

/// Relies on rayon's parallel map over an index range with `collect`: the
/// result holds exactly one image of the verified sampler per index, and the
/// samplers share no state.
#[verifier::external_body]
fn par_sample(count: usize, d: usize) -> (r: Vec<BigUint>)
    requires
        1 <= d < usize::MAX,
    ensures
        r@.len() == count,
        forall|i: int|
            0 <= i < r@.len() ==> candidate_ok(big_digits(#[trigger] r@[i]), d as nat),
{
    (0..count).into_par_iter().map(|_| sample_candidate(d)).collect()
}

/// Relies on rayon's parallel filter with `collect`: every kept item is one
/// of the inputs and was accepted by the verified sieve.
#[verifier::external_body]
fn par_sieve(cands: Vec<BigUint>) -> (r: Vec<BigUint>)
    ensures
        forall|i: int|
            0 <= i < r@.len() ==> exists|j: int|
                0 <= j < cands@.len() && #[trigger] r@[i] == cands@[j],
        forall|i: int| 0 <= i < r@.len() ==> sieve_ok(big_value(#[trigger] r@[i])),
{
    cands.into_par_iter().filter(|c| sieve_check(c)).collect()
}

/// Relies on rayon's `find_map_first`: at most one result is committed per
/// round, and it is a value `race_certify` returned for one of the inputs —
/// by that function's contract, the worker's own candidate, certified, and
/// therefore prime whenever it fits the deterministic check.
#[verifier::external_body]
fn par_race(cands: &Vec<BigUint>, rounds: usize, flag: &AtomicBool) -> (r: Option<BigUint>)
    ensures
        r matches Some(x) ==> {
            &&& exists|j: int| 0 <= j < cands@.len() && x == cands@[j]
            &&& (big_value(x) <= u64::MAX ==> is_prime_nat(big_value(x)))
        },
{
    cands.par_iter().find_map_first(|c| race_certify(c, rounds, flag))
}

/// Parallel search coordinator. Each round independently samples a batch of
/// candidates sized from the hardware parallelism, sieves them in parallel,
/// and races the probabilistic certifier over the survivors; the shared
/// cancellation flag is reset before every round and set by the first worker
/// to certify, and at most one winning candidate per round is committed.
/// Runs at most `max_rounds` rounds.
pub fn parallel_search(d: usize, rounds: usize, max_rounds: u64) -> (r: Option<BigUint>)
    requires
        1 <= d < usize::MAX,
    ensures
        r matches Some(p) ==> accepted_ok(big_digits(p), d as nat),
{
    let cpus = cpu_count();
    let batch = if cpus <= 1024 {
        cpus * 4
    } else {
        4096
    };
    let flag = AtomicBool::new(false);
    let mut round = max_rounds;
    while round > 0
        invariant
            1 <= d < usize::MAX,
        decreases round,
    {
        round = round - 1;
        flag.store(false, Ordering::Relaxed);
        let cands = par_sample(batch, d);
        let sieved = par_sieve(cands);
        match par_race(&sieved, rounds, &flag) {
            Some(p) => {
                return Some(p);
            },
            None => {},
        }
    }
    None
}

} // verus!
