use vstd::prelude::*;
use crate::brick::{Brick, BrickKind, fresh_brick};

verus! {

/// Score multiplier for a combo of `combo` consecutive destructions:
/// ×1 up to combo 4, ×2 at 5–9, ×3 at 10–14, and so on.
pub open spec fn combo_multiplier(combo: u32) -> int {
    1 + combo / 5
}

/// Points awarded for destroying `brick` during a combo of `combo`.
pub open spec fn brick_score(brick: Brick, combo: u32) -> int {
    brick.points * combo_multiplier(combo)
}

/// Calculates score with the combo multiplier.
pub struct ScoringService;

impl ScoringService {
    /// Returns the score for destroying `brick`, given the current `combo` count.
    pub fn score_for_brick(&self, brick: &Brick, combo: u32) -> (score: u32)
        requires
            brick_score(*brick, combo) <= u32::MAX,
        ensures
            score == brick_score(*brick, combo),
    {
        let multiplier = 1 + combo / 5;
        brick.points * multiplier
    }
}

/// A longer combo never scores less for the same brick.
pub proof fn lemma_score_grows_with_combo(brick: Brick, c1: u32, c2: u32)
    requires
        c1 <= c2,
    ensures
        combo_multiplier(c1) <= combo_multiplier(c2),
        brick_score(brick, c1) <= brick_score(brick, c2),
{
    let m1 = combo_multiplier(c1);
    let m2 = combo_multiplier(c2);
    let p = brick.points as int;
    assert(c1 / 5 <= c2 / 5) by (nonlinear_arith)
        requires
            c1 <= c2,
    ;
    assert(p * m1 <= p * m2) by (nonlinear_arith)
        requires
            0 <= p,
            m1 <= m2,
    ;
}

/// The multiplier steps up by one exactly every five combo levels.
pub proof fn lemma_multiplier_steps_every_five(combo: u32)
    requires
        combo <= u32::MAX - 5,
    ensures
        combo_multiplier((combo + 5) as u32) == combo_multiplier(combo) + 1,
{
}

/// An indestructible brick is worth nothing, whatever the combo.
pub proof fn lemma_indestructible_scores_zero(combo: u32)
    ensures
        brick_score(fresh_brick(BrickKind::Indestructible), combo) == 0,
{
}

/// Every brick scores its points times one plus a fifth of the combo
/// (rounded down), whatever its kind and however many hits it has left.
pub proof fn lemma_score_is_points_times_multiplier(brick: Brick, combo: u32, hits: u8)
    ensures
        brick_score(brick, combo) == brick.points * (1 + combo / 5),
        brick_score(brick, combo) == brick_score(Brick { hits_remaining: hits, ..brick }, combo),
        combo < 5 ==> brick_score(brick, combo) == brick.points,
{
}

} // verus!
