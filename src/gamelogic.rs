//! Outcomes of percentile checks.
use crate::rng::GameRng;
use vstd::prelude::*;

verus! {

/// How good or how bad an outcome is.
#[derive(PartialEq, Eq, Structural, Clone, Copy, Debug)]
pub enum RollResultType {
    Normal,
    Great,
    Extreme,
    Critical,
}

/// The outcome of a check.
#[derive(PartialEq, Eq, Structural, Clone, Copy, Debug)]
pub enum RollResult {
    Success(RollResultType),
    Failure(RollResultType),
}

/// Something that can be checked against a percentile roll.
pub trait Rollable {
    /// The outcome of `roll` against this.
    fn check(&self, roll: i32) -> RollResult;

    /// Rolls one die of a hundred and checks it.
    fn roll(&self, rng: &mut GameRng) -> RollResult;
}

} // verus!
