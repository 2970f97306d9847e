//! Candidate sampler: a uniformly random odd integer with an exact decimal
//! digit count.

use crate::bignum::{
    big_add_u32, big_digits, big_from_digits, big_random_range, big_to_digits, big_value,
};
use crate::digits::{
    digits_to_nat, lemma_digit_count, lemma_digits_parity, lemma_one_zeros_value, lemma_pow10_even,
    lemma_pow10_pos, pow10, valid_digits,
};
use num_bigint::BigUint;
use vstd::arithmetic::div_mod::lemma_add_mod_noop;
use vstd::prelude::*;

verus! {

/// An acceptable candidate for digit size `d`: a canonical representation
/// with exactly `d` digits and an odd value.
pub open spec fn candidate_ok(ds: Seq<u8>, d: nat) -> bool {
    &&& valid_digits(ds)
    &&& ds.len() == d
    &&& digits_to_nat(ds) % 2 == 1
}

/// The digit string of ten to the power `e`: a one followed by `e` zeros.
fn pow10_digits(e: usize) -> (r: Vec<u8>)
    requires
        e < usize::MAX,
    ensures
        valid_digits(r@),
        r@.len() == e + 1,
        digits_to_nat(r@) == pow10(e as nat),
{
    let mut v: Vec<u8> = Vec::new();
    v.push(1);
    let mut i: usize = 0;
    while i < e
        invariant
            i <= e,
            v@.len() == i + 1,
            v@[0] == 1,
            forall|j: int| 1 <= j < v@.len() ==> v@[j] == 0,
        decreases e - i,
    {
        v.push(0);
        i += 1;
    }
    proof {
        lemma_one_zeros_value(v@);
    }
    v
}

/// An even draw within the digit range stays within it after the increment:
/// for base-10 bounds the resample-on-overflow branch can never fire, since
/// the top of the range is even.
pub proof fn lemma_increment_stays_in_range(v: nat, d: nat)
    requires
        d >= 1,
        pow10((d - 1) as nat) <= v < pow10(d),
        v % 2 == 0,
    ensures
        pow10((d - 1) as nat) <= v + 1 < pow10(d),
{
    lemma_pow10_even(d);
    lemma_add_mod_noop(v as int, 1, 2);
    assert((v + 1) % 2 == 1);
}

/// Draws a uniformly random integer with exactly `d` decimal digits; an even
/// draw is nudged to the next odd value, which provably stays in range.
pub fn sample_candidate(d: usize) -> (c: BigUint)
    requires
        1 <= d < usize::MAX,
    ensures
        candidate_ok(big_digits(c), d as nat),
        pow10((d - 1) as nat) <= big_value(c) < pow10(d as nat),
{
    let lower = big_from_digits(&pow10_digits(d - 1));
    let upper = big_from_digits(&pow10_digits(d));
    proof {
        lemma_pow10_pos((d - 1) as nat);
        assert(pow10(d as nat) == 10 * pow10((d - 1) as nat));
    }
    let num = big_random_range(&lower, &upper);
    let ds = big_to_digits(&num);
    proof {
        lemma_digits_parity(ds@);
    }
    if ds[ds.len() - 1] % 2 == 0 {
        let odd = big_add_u32(&num, 1);
        proof {
            lemma_increment_stays_in_range(big_value(num), d as nat);
            lemma_digit_count(big_digits(odd), d as nat);
        }
        odd
    } else {
        proof {
            lemma_digit_count(big_digits(num), d as nat);
        }
        num
    }
}

} // verus!
