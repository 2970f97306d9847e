//! Randomized large-prime generation engine.
//!
//! Big integers are modeled by their base-10 digit sequences; the sampling,
//! sieving and certification pipeline is verified over that model.

pub mod bignum;
pub mod certify;
pub mod digits;
pub mod engine;
pub mod parallel;
pub mod sample;
pub mod search;
pub mod sieve;
pub mod table;
