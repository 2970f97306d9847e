use vstd::arithmetic::div_mod::{lemma_mod_multiples_vanish, lemma_mod_multiples_basic};
use vstd::prelude::*;

verus! {

/// The numeric value of a big-endian sequence of decimal digits.
pub open spec fn digits_to_nat(s: Seq<u8>) -> nat
    decreases s.len(),
{
    if s.len() == 0 {
        0
    } else {
        digits_to_nat(s.drop_last()) * 10 + s.last() as nat
    }
}

/// A canonical decimal representation: nonempty, every digit below ten,
/// and no leading zero unless the value is zero itself.
pub open spec fn valid_digits(s: Seq<u8>) -> bool {
    &&& s.len() >= 1
    &&& (forall|i: int| 0 <= i < s.len() ==> s[i] < 10)
    &&& (s.len() > 1 ==> s[0] != 0)
}

/// Primality of a natural number.
pub open spec fn is_prime_nat(n: nat) -> bool {
    n >= 2 && forall|k: nat| 2 <= k < n ==> #[trigger] (n % k) != 0
}

/// Ten raised to the power `e`.
pub open spec fn pow10(e: nat) -> nat
    decreases e,
{
    if e == 0 {
        1
    } else {
        10 * pow10((e - 1) as nat)
    }
}

pub proof fn lemma_pow10_pos(e: nat)
    ensures
        pow10(e) >= 1,
    decreases e,
{
    if e > 0 {
        lemma_pow10_pos((e - 1) as nat);
    }
}

pub proof fn lemma_pow10_increases(a: nat, b: nat)
    requires
        a <= b,
    ensures
        pow10(a) <= pow10(b),
    decreases b,
{
    if a < b {
        lemma_pow10_increases(a, (b - 1) as nat);
        lemma_pow10_pos((b - 1) as nat);
    }
}

pub proof fn lemma_pow10_even(e: nat)
    requires
        e >= 1,
    ensures
        pow10(e) % 2 == 0,
{
    lemma_pow10_pos((e - 1) as nat);
    assert(pow10(e) == 2 * (5 * pow10((e - 1) as nat))) by {
        assert(pow10(e) == 10 * pow10((e - 1) as nat));
    }
    lemma_mod_multiples_basic(5 * pow10((e - 1) as nat) as int, 2);
}

/// Any sequence of decimal digits denotes a value below ten to its length.
pub proof fn lemma_digits_upper(s: Seq<u8>)
    requires
        forall|i: int| 0 <= i < s.len() ==> s[i] < 10,
    ensures
        digits_to_nat(s) < pow10(s.len() as nat),
    decreases s.len(),
{
    if s.len() > 0 {
        lemma_digits_upper(s.drop_last());
    }
}

/// A digit sequence with a nonzero leading digit denotes at least ten to
/// the power of one less than its length.
pub proof fn lemma_digits_lower(s: Seq<u8>)
    requires
        s.len() >= 1,
        s[0] != 0,
    ensures
        digits_to_nat(s) >= pow10((s.len() - 1) as nat),
    decreases s.len(),
{
    if s.len() > 1 {
        assert(s.drop_last()[0] == s[0]);
        lemma_digits_lower(s.drop_last());
    }
}

/// Exact digit count is the same thing as a value in `[10^(d-1), 10^d)`.
pub proof fn lemma_digit_count(s: Seq<u8>, d: nat)
    requires
        valid_digits(s),
        d >= 1,
        pow10((d - 1) as nat) <= digits_to_nat(s) < pow10(d),
    ensures
        s.len() == d,
{
    lemma_digits_upper(s);
    if s.len() > 1 {
        lemma_digits_lower(s);
    } else {
        assert(digits_to_nat(s) == digits_to_nat(s.drop_last()) * 10 + s.last() as nat);
        assert(digits_to_nat(s) == s[0] as nat);
        lemma_pow10_pos((s.len() - 1) as nat);
    }
    if s.len() < d {
        lemma_pow10_increases(s.len() as nat, (d - 1) as nat);
        assert(false);
    }
    if s.len() > d {
        lemma_pow10_increases(d, (s.len() - 1) as nat);
        assert(false);
    }
}

/// A decimal number has the parity of its last digit.
pub proof fn lemma_digits_parity(s: Seq<u8>)
    requires
        s.len() >= 1,
    ensures
        digits_to_nat(s) % 2 == s.last() as nat % 2,
{
    let prefix = digits_to_nat(s.drop_last());
    assert(digits_to_nat(s) == prefix * 10 + s.last() as nat);
    assert(prefix * 10 + s.last() as nat == 2 * (5 * prefix) + s.last() as nat) by {
        assert(prefix * 10 == 2 * (5 * prefix));
    }
    lemma_mod_multiples_vanish(5 * prefix as int, s.last() as int, 2);
}

/// The value of a one followed by `e` zeros is ten to the power `e`.
pub proof fn lemma_one_zeros_value(s: Seq<u8>)
    requires
        s.len() >= 1,
        s[0] == 1,
        forall|i: int| 1 <= i < s.len() ==> s[i] == 0,
    ensures
        digits_to_nat(s) == pow10((s.len() - 1) as nat),
    decreases s.len(),
{
    if s.len() > 1 {
        assert(s.drop_last()[0] == s[0]);
        lemma_one_zeros_value(s.drop_last());
        assert(s.last() == 0);
        assert(digits_to_nat(s) == digits_to_nat(s.drop_last()) * 10);
        assert(pow10((s.len() - 1) as nat) == 10 * pow10((s.len() - 2) as nat));
    } else {
        assert(digits_to_nat(s.drop_last()) == 0);
        assert(digits_to_nat(s) == s[0] as nat);
    }
}

} // verus!
