//! The D21 plus-vote allowance.

use vstd::prelude::*;

verus! {

/// The most plus votes a single ballot may carry, by the D21 formula: the
/// golden-ratio-derived allowance `round(2 * w - (w - 2) * 0.618)` for `w`
/// winners, capped at one less than the candidate count. Computed exactly in
/// thousandths: the value is `(1382 * w + 1236) / 1000` rounded to the
/// nearest integer, i.e. `(1382 * w + 1736) / 1000` rounded down.
pub open spec fn max_plus_votes(num_winners: u8, num_candidates: u8) -> int {
    let base = (1382 * (num_winners as int) + 1736) / 1000;
    let cap = num_candidates - 1;
    if base <= cap {
        base
    } else {
        cap
    }
}

/// Computes the D21 plus-vote allowance for an election with `num_winners`
/// winners and `num_candidates` candidates. Deterministic, with no failure
/// modes: callers validate the counts beforehand.
pub fn calculate_max_plus_votes(num_winners: u8, num_candidates: u8) -> (r: u8)
    requires
        1 <= num_winners,
        2 <= num_candidates <= 50,
    ensures
        r as int == max_plus_votes(num_winners, num_candidates),
        r < num_candidates,
{
    let base: u32 = (1382 * (num_winners as u32) + 1736) / 1000;
    let cap: u32 = (num_candidates as u32) - 1;
    if base <= cap {
        base as u8
    } else {
        cap as u8
    }
}

} // verus!
