use num_bigint::BigUint;
use num_prime::nt_funcs::is_prime64;
use num_traits::ToPrimitive;
use primegen::certify::probable_prime_check;
use primegen::engine::safe_prime_attempt;
use primegen::parallel::parallel_search;
use primegen::sample::sample_candidate;
use primegen::search::{oracle_step, search_step, sequential_search, OracleVerdict, SearchState};
use primegen::sieve::sieve_check;

#[test]
fn sieve_rejects_nontrivial_multiples() {
    assert!(!sieve_check(&BigUint::from(3u32 * 1229)));
    assert!(!sieve_check(&BigUint::from(7u32 * 7)));
    assert!(!sieve_check(&BigUint::from(21u32)));
    assert!(!sieve_check(&BigUint::from(1229u32 * 1229)));
}

#[test]
fn sieve_keeps_table_members() {
    assert!(sieve_check(&BigUint::from(2u32)));
    assert!(sieve_check(&BigUint::from(3u32)));
    assert!(sieve_check(&BigUint::from(7u32)));
    assert!(sieve_check(&BigUint::from(1229u32)));
}

#[test]
fn sieve_passes_large_primes() {
    assert!(sieve_check(&BigUint::from(104729u32)));
}

#[test]
fn certifier_rejects_carmichael_composite() {
    // 561 = 3 * 11 * 17 is the smallest Carmichael number.
    assert!(!probable_prime_check(&BigUint::from(561u32), 20));
    // 1729 = 7 * 13 * 19 is Carmichael as well.
    assert!(!probable_prime_check(&BigUint::from(1729u32), 20));
}

#[test]
fn certifier_accepts_known_primes() {
    assert!(probable_prime_check(&BigUint::from(104729u32), 20));
    // 2^89 - 1 is prime and exceeds 64 bits.
    let big = (BigUint::from(1u32) << 89) - 1u32;
    assert!(probable_prime_check(&big, 20));
}

#[test]
fn sampler_digit_count_and_parity() {
    for d in [1usize, 2, 5, 12] {
        for _ in 0..50 {
            let c = sample_candidate(d);
            let rendered = c.to_str_radix(10);
            assert_eq!(rendered.len(), d);
            assert!(!rendered.starts_with('0'));
            assert_eq!((&c % 2u32).to_u32().unwrap(), 1);
        }
    }
}

#[test]
fn sequential_search_accepts_certified_candidate() {
    let p = sequential_search(4, 20, 1_000_000).unwrap();
    let v = p.to_u64().unwrap();
    assert_eq!(p.to_str_radix(10).len(), 4);
    assert!(is_prime64(v));
}

#[test]
fn parallel_round_commits_at_most_one_result() {
    let found = parallel_search(12, 5, 10_000);
    let p = found.expect("a twelve-digit prime should be found");
    assert_eq!(p.to_str_radix(10).len(), 12);
    assert!(is_prime64(p.to_u64().unwrap()));
}

#[test]
fn search_step_walks_the_pipeline() {
    let mut st = search_step(SearchState::Sampling, 6, 20, false);
    assert!(matches!(st, SearchState::Sieving(_)));
    // Drive the machine until it accepts; every stage only ever hands on
    // the candidate it was given.
    let mut steps = 0u32;
    loop {
        st = search_step(st, 6, 20, false);
        if let SearchState::Accepted(p) = st {
            assert_eq!(p.to_str_radix(10).len(), 6);
            assert!(is_prime64(p.to_u64().unwrap()));
            break;
        }
        steps += 1;
        assert!(steps < 1_000_000);
    }
}

#[test]
fn search_step_defers_to_oracle() {
    let c = BigUint::from(104729u32);
    let st = search_step(SearchState::Certifying(c.clone()), 6, 20, true);
    match st {
        SearchState::AwaitingOracle(held) => assert_eq!(held, c),
        _ => panic!("a certified candidate must wait for the oracle"),
    }
}

#[test]
fn oracle_driven_search_finds_prime() {
    let mut st = SearchState::Sampling;
    let mut steps = 0u32;
    loop {
        st = search_step(st, 5, 20, true);
        st = match st {
            SearchState::AwaitingOracle(c) => {
                let verdict = if is_prime64(c.to_u64().unwrap()) {
                    OracleVerdict::Prime
                } else {
                    OracleVerdict::Composite
                };
                oracle_step(SearchState::AwaitingOracle(c), verdict)
            }
            SearchState::Accepted(p) => {
                assert_eq!(p.to_str_radix(10).len(), 5);
                assert!(is_prime64(p.to_u64().unwrap()));
                break;
            }
            other => other,
        };
        steps += 1;
        assert!(steps < 1_000_000);
    }
}

#[test]
fn safe_attempt_defers_to_oracle() {
    let mut attempts = 0u32;
    loop {
        match safe_prime_attempt(3, 20, 100_000, true) {
            SearchState::AwaitingOracle(p) => {
                let v = p.to_u64().unwrap();
                assert_eq!(p.to_str_radix(10).len(), 3);
                assert!(is_prime64(v));
                assert!(is_prime64((v - 1) / 2));
                let confirmed =
                    oracle_step(SearchState::AwaitingOracle(p), OracleVerdict::Prime);
                assert!(matches!(confirmed, SearchState::Accepted(_)));
                break;
            }
            SearchState::Sampling => {}
            _ => panic!("with the oracle enabled an attempt never accepts outright"),
        }
        attempts += 1;
        assert!(attempts < 10_000);
    }
}

#[test]
fn oracle_verdicts_drive_the_machine() {
    let c = BigUint::from(104729u32);
    match oracle_step(SearchState::AwaitingOracle(c.clone()), OracleVerdict::Prime) {
        SearchState::Accepted(p) => assert_eq!(p, c),
        _ => panic!("a prime verdict must accept"),
    }
    assert!(matches!(
        oracle_step(SearchState::AwaitingOracle(c.clone()), OracleVerdict::Composite),
        SearchState::Sampling
    ));
    assert!(matches!(
        oracle_step(SearchState::AwaitingOracle(c.clone()), OracleVerdict::Inconclusive),
        SearchState::Sampling
    ));
    assert!(matches!(
        oracle_step(SearchState::Sampling, OracleVerdict::Prime),
        SearchState::Sampling
    ));
}
