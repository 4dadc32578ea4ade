//! Random numbers from the operating system's entropy.

use rand::rngs::{OsRng, StdRng};
use rand::{Rng, SeedableRng};
use vstd::prelude::*;

verus! {

/// The random number generator of the `rand` crate.
#[verifier::external_type_specification]
#[verifier::external_body]
pub struct ExStdRng(rand::rngs::StdRng);

/// The error with which `rand` reports that no entropy could be read.
#[verifier::external_type_specification]
#[verifier::external_body]
pub struct ExRandError(rand::Error);

/// The operating system gave no entropy.
#[derive(Clone, Copy, Debug, PartialEq, Eq)]
pub struct NoEntropy;

/// Calls `rand::SeedableRng::from_rng` for `StdRng` with `OsRng`: a generator
/// whose seed is filled from the operating system's entropy, or the error with
/// which reading the entropy ended. Which of the two comes, and the state of the
/// generator, rest on the machine, so nothing is claimed of them.
#[verifier::external_body]
fn std_rng_from_os() -> (rng: Result<StdRng, rand::Error>) {
    StdRng::from_rng(OsRng)
}

/// Calls `rand::Rng::gen` for `u128` on a generator: the next number that it
/// yields. The generator was seeded by chance, so nothing is claimed of the
/// number.
#[verifier::external_body]
fn gen_u128(rng: &mut StdRng) -> (n: u128) {
    rng.gen::<u128>()
}

/// Draws a number at random from a generator that is seeded for the purpose.
///
/// Every number may come back, and so may the error: both rest on chance and on
/// the machine. What is made of the generator is said by `number_from`.
pub(crate) fn random_number() -> (n: Result<u128, NoEntropy>) {
    number_from(std_rng_from_os())
}

/// The next number of a generator, where there is one.
fn number_from(rng: Result<StdRng, rand::Error>) -> (n: Result<u128, NoEntropy>)
    ensures
        rng is Ok <==> n is Ok,
        rng is Err <==> n == Err::<u128, NoEntropy>(NoEntropy),
{
    match rng {
        Ok(rng) => {
            let mut rng = rng;
            Ok(gen_u128(&mut rng))
        },
        Err(_) => Err(NoEntropy),
    }
}

} // verus!
