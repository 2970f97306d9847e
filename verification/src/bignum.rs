//! Trusted boundary to the arbitrary-precision integer type.
//!
//! A `BigUint` is opaque to the verifier; its mathematical content is its
//! canonical base-10 digit sequence, named by `big_digits`. Every operation
//! the engine needs is wrapped here with a contract over that sequence.

use crate::digits::{digits_to_nat, valid_digits};
use num_bigint::{BigUint, RandBigInt};
use num_traits::ToPrimitive;
use vstd::prelude::*;

verus! {

#[verifier::external_type_specification]
#[verifier::external_body]
pub struct ExBigUint(BigUint);

/// The canonical big-endian base-10 digit sequence a big integer holds:
/// nonempty, digits below ten, no leading zero except for zero itself.
pub uninterp spec fn big_digits(b: BigUint) -> Seq<u8>;

/// The numeric value of a big integer, through its digit sequence.
pub open spec fn big_value(b: BigUint) -> nat {
    digits_to_nat(big_digits(b))
}

/// Relies on `BigUint::from_radix_be` with radix ten: digits below the radix
/// parse to exactly the number they denote, and a canonical digit string
/// round-trips unchanged.
#[verifier::external_body]
pub(crate) fn big_from_digits(ds: &Vec<u8>) -> (r: BigUint)
    requires
        valid_digits(ds@),
    ensures
        big_digits(r) == ds@,
{
    BigUint::from_radix_be(ds, 10).unwrap()
}

/// Relies on `BigUint::to_radix_be` with radix ten: it renders the canonical
/// big-endian decimal digit string of the value.
#[verifier::external_body]
pub(crate) fn big_to_digits(b: &BigUint) -> (r: Vec<u8>)
    ensures
        r@ == big_digits(*b),
        valid_digits(r@),
{
    b.to_radix_be(10)
}

/// Relies on `RandBigInt::gen_biguint_range`: a value in `[lo, hi)`, drawn
/// from the thread-local random source. It panics unless `lo < hi`, and
/// nothing beyond the range holds of any one outcome.
#[verifier::external_body]
pub(crate) fn big_random_range(lo: &BigUint, hi: &BigUint) -> (r: BigUint)
    requires
        big_value(*lo) < big_value(*hi),
    ensures
        valid_digits(big_digits(r)),
        big_value(*lo) <= big_value(r) < big_value(*hi),
{
    let mut rng = rand::thread_rng();
    rng.gen_biguint_range(lo, hi)
}

/// Relies on `BigUint`'s addition with a machine-word summand.
#[verifier::external_body]
pub(crate) fn big_add_u32(b: &BigUint, k: u32) -> (r: BigUint)
    ensures
        valid_digits(big_digits(r)),
        big_value(r) == big_value(*b) + k,
{
    b.clone() + k
}

/// Relies on `BigUint`'s multiplication by a machine-word factor.
#[verifier::external_body]
pub(crate) fn big_mul_u32(b: &BigUint, k: u32) -> (r: BigUint)
    ensures
        valid_digits(big_digits(r)),
        big_value(r) == big_value(*b) * k,
{
    b.clone() * k
}

/// Relies on `BigUint`'s remainder by a machine-word modulus, which panics
/// on a zero modulus and otherwise returns a value below the modulus.
#[verifier::external_body]
pub(crate) fn big_mod_u32(b: &BigUint, m: u32) -> (r: u32)
    requires
        m >= 1,
    ensures
        r as nat == big_value(*b) % m as nat,
{
    (b % m).to_u32().unwrap()
}

/// Relies on `BigUint`'s equality, which compares by numeric value.
#[verifier::external_body]
pub(crate) fn big_eq_u32(b: &BigUint, k: u32) -> (r: bool)
    ensures
        r == (big_value(*b) == k as nat),
{
    b == &BigUint::from(k)
}

/// Relies on `BigUint`'s `Clone`: the copy is the same value.
pub assume_specification[ <BigUint as Clone>::clone ](b: &BigUint) -> (r: BigUint)
    ensures
        r == *b,
;

} // verus!
