use num_bigint::BigUint;
use num_prime::nt_funcs::{is_prime, is_prime64};
use num_traits::ToPrimitive;
use primegen::engine::{generate_prime, PrimeError, StructuralKind};

fn reference_prime(p: &BigUint) -> bool {
    match p.to_u64() {
        Some(v) => is_prime64(v),
        None => is_prime(p, None).probably(),
    }
}

#[test]
fn random_prime_ten_digits() {
    let p = generate_prime(StructuralKind::Random, 10, 20, 1_000_000).unwrap();
    let rendered = p.to_str_radix(10);
    assert_eq!(rendered.len(), 10);
    assert!(!rendered.starts_with('0'));
    assert_eq!((&p % 2u32).to_u32().unwrap(), 1);
    assert!(reference_prime(&p));
}

#[test]
fn safe_prime_three_digits() {
    let p = generate_prime(StructuralKind::Safe, 3, 20, 100_000).unwrap();
    assert_eq!(p.to_str_radix(10).len(), 3);
    assert!(reference_prime(&p));
    let q = (&p - 1u32) / 2u32;
    assert_eq!(q.to_str_radix(10).len(), 2);
    assert!(reference_prime(&q));
}

#[test]
fn mersenne_fails_fast() {
    assert_eq!(
        generate_prime(StructuralKind::Mersenne, 10, 20, 1_000),
        Err(PrimeError::UnsupportedStructuralKind)
    );
    assert_eq!(
        generate_prime(StructuralKind::Mersenne, 0, 20, 1_000),
        Err(PrimeError::UnsupportedStructuralKind)
    );
}

#[test]
fn invalid_sizes_are_rejected() {
    assert_eq!(
        generate_prime(StructuralKind::Random, 0, 20, 1_000),
        Err(PrimeError::InvalidSize)
    );
    assert_eq!(
        generate_prime(StructuralKind::Safe, 0, 20, 1_000),
        Err(PrimeError::InvalidSize)
    );
    assert_eq!(
        generate_prime(StructuralKind::Safe, 1, 20, 1_000),
        Err(PrimeError::InvalidSize)
    );
}

#[test]
fn zero_budget_exhausts() {
    assert_eq!(
        generate_prime(StructuralKind::Random, 10, 20, 0),
        Err(PrimeError::Exhausted)
    );
    assert_eq!(
        generate_prime(StructuralKind::Safe, 3, 20, 0),
        Err(PrimeError::Exhausted)
    );
}

#[test]
fn single_digit_primes() {
    for _ in 0..10 {
        let p = generate_prime(StructuralKind::Random, 1, 20, 1_000_000).unwrap();
        let v = p.to_u32().unwrap();
        assert!(v == 3 || v == 5 || v == 7);
    }
}

#[test]
fn parallel_path_fifty_digits() {
    let p = generate_prime(StructuralKind::Random, 50, 2, 200).unwrap();
    let rendered = p.to_str_radix(10);
    assert_eq!(rendered.len(), 50);
    assert_eq!((&p % 2u32).to_u32().unwrap(), 1);
    assert!(reference_prime(&p));
}
