//! The options a game is started with.
use vstd::prelude::*;

verus! {

/// Start options: the seed of the random stream (0 for one taken from the
/// clock) and whether to print check statistics instead of playing.
#[derive(Clone, Copy, Debug, Default)]
pub struct CliArgs {
    pub seed: u64,
    pub stats: bool,
}

} // verus!
