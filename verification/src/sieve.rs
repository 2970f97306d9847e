//! Trial-division prefilter against the small-prime table.

use crate::bignum::{big_eq_u32, big_mod_u32, big_value};
use crate::digits::is_prime_nat;
use crate::table::{lemma_table_entries, small_primes_seq, SMALL_PRIMES};
use num_bigint::BigUint;
use vstd::arithmetic::div_mod::{lemma_mod_multiples_basic, lemma_small_mod};
use vstd::arithmetic::mul::lemma_mul_inequality;
use vstd::prelude::*;

verus! {

/// A value survives the sieve when no odd table prime divides it
/// nontrivially. The first entry, 2, is skipped: candidates are odd.
pub open spec fn sieve_ok(v: nat) -> bool {
    forall|i: int|
        1 <= i < small_primes_seq().len() ==> v % (#[trigger] small_primes_seq()[i]) as nat != 0
            || v == small_primes_seq()[i] as nat
}

/// Rejects a candidate with a small odd prime factor; never asserts
/// primality, only compositeness for small factors.
pub fn sieve_check(candidate: &BigUint) -> (r: bool)
    ensures
        r == sieve_ok(big_value(*candidate)),
{
    proof {
        lemma_table_entries();
    }
    let ghost v = big_value(*candidate);
    let mut i: usize = 1;
    while i < 201
        invariant
            1 <= i <= 201,
            v == big_value(*candidate),
            small_primes_seq().len() == 201,
            forall|j: int|
                0 <= j < small_primes_seq().len() ==> #[trigger] small_primes_seq()[j] >= 2,
            forall|j: int|
                1 <= j < i ==> v % (#[trigger] small_primes_seq()[j]) as nat != 0 || v
                    == small_primes_seq()[j] as nat,
        decreases 201 - i,
    {
        let p = SMALL_PRIMES[i];
        let m = big_mod_u32(candidate, p);
        if m == 0 && !big_eq_u32(candidate, p) {
            assert(!sieve_ok(v));
            return false;
        }
        i += 1;
    }
    true
}

/// A nontrivial multiple of an odd table prime never survives the sieve.
pub proof fn lemma_sieve_rejects_multiples(k: nat, i: int)
    requires
        1 <= i < small_primes_seq().len(),
        k >= 2,
    ensures
        !sieve_ok(k * small_primes_seq()[i] as nat),
{
    lemma_table_entries();
    let q = small_primes_seq()[i] as nat;
    lemma_mod_multiples_basic(k as int, q as int);
    lemma_mul_inequality(2, k as int, q as int);
    assert((k * q) % q == 0);
    assert(k * q >= 2 * q);
}

/// A table member that is prime always survives the sieve.
pub proof fn lemma_sieve_keeps_members(i: int)
    requires
        0 <= i < small_primes_seq().len(),
        is_prime_nat(small_primes_seq()[i] as nat),
    ensures
        sieve_ok(small_primes_seq()[i] as nat),
{
    lemma_table_entries();
    let q = small_primes_seq()[i] as nat;
    assert forall|j: int|
        1 <= j < small_primes_seq().len() implies q % (#[trigger] small_primes_seq()[j]) as nat
        != 0 || q == small_primes_seq()[j] as nat by {
        let p = small_primes_seq()[j] as nat;
        if q != p {
            if p < q {
                assert(q % p != 0);
            } else {
                lemma_small_mod(q, p);
            }
        }
    }
}

} // verus!
