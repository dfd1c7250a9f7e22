use vstd::prelude::*;
use crate::brick::Brick;

verus! {

/// Which world boundary the ball has touched.
///
/// `Bottom` means the ball fell below the paddle — life lost.
#[derive(Debug, Clone, Copy, PartialEq, Eq, Structural)]
pub enum WallCollision {
    /// No boundary touched.
    Clear,
    Left,
    Right,
    Top,
    Bottom,
}

/// From which side the ball entered a brick's bounding box.
#[derive(Debug, Clone, Copy, PartialEq, Eq, Structural)]
pub enum CollisionSide {
    Top,
    Bottom,
    Left,
    Right,
}

/// The wall reported when the ball touches the given boundaries: the left wall
/// takes precedence, then the right, the top and the bottom.
pub open spec fn wall_for_contacts(left: bool, right: bool, top: bool, bottom: bool) -> WallCollision {
    if left {
        WallCollision::Left
    } else if right {
        WallCollision::Right
    } else if top {
        WallCollision::Top
    } else if bottom {
        WallCollision::Bottom
    } else {
        WallCollision::Clear
    }
}

/// Collision decisions of the axis-aligned bounding-box detector.
///
/// The geometric tests (does the ball reach a wall, overlap a brick, which
/// face is penetrated least) are answered by the caller; this service turns
/// those answers into the reported collision.
pub struct CollisionService;

impl CollisionService {
    /// The wall collision for a ball whose left edge reached the left wall
    /// (`left`), right edge the right wall (`right`), top edge the ceiling
    /// (`top`) or bottom edge the floor (`bottom`).
    pub fn wall_from_contacts(&self, left: bool, right: bool, top: bool, bottom: bool) -> (w: WallCollision)
        ensures
            w == wall_for_contacts(left, right, top, bottom),
    {
        if left {
            return WallCollision::Left;
        }
        if right {
            return WallCollision::Right;
        }
        if top {
            return WallCollision::Top;
        }
        if bottom {
            return WallCollision::Bottom;
        }
        WallCollision::Clear
    }

    /// The side from which the ball hits `brick`, given whether their boxes
    /// overlap and the face of least penetration. A destroyed brick is never hit.
    pub fn brick_contact(&self, brick: &Brick, overlapping: bool, entry_side: CollisionSide) -> (c: Option<CollisionSide>)
        ensures
            c == (if brick.spec_is_destroyed() || !overlapping { None } else { Some(entry_side) }),
    {
        if brick.is_destroyed() {
            return None;
        }
        if !overlapping {
            return None;
        }
        Some(entry_side)
    }
}

/// The reported wall follows the contacts: the left wall whenever it is
/// touched; otherwise the right wall whenever it is touched; otherwise the
/// ceiling whenever it is touched, floor or not; otherwise the floor when it
/// is touched; and no wall when none is touched.
pub proof fn lemma_wall_priority(left: bool, right: bool, top: bool, bottom: bool)
    ensures
        left ==> wall_for_contacts(left, right, top, bottom) == WallCollision::Left,
        !left && right ==> wall_for_contacts(left, right, top, bottom) == WallCollision::Right,
        !left && !right && top ==> wall_for_contacts(left, right, top, bottom) == WallCollision::Top,
        !left && !right && !top && bottom ==> wall_for_contacts(left, right, top, bottom)
            == WallCollision::Bottom,
        !left && !right && !top && !bottom ==> wall_for_contacts(left, right, top, bottom)
            == WallCollision::Clear,
        wall_for_contacts(left, right, top, bottom) == WallCollision::Clear <==> !(left || right || top
            || bottom),
{
}

/// A brick is reported hit exactly when it overlaps the ball and is still on
/// the field (indestructible, or with hits left), and then from the entry side.
pub proof fn lemma_brick_contact_rule(brick: Brick, overlapping: bool, entry_side: CollisionSide)
    ensures
        (if brick.spec_is_destroyed() || !overlapping { None } else { Some(entry_side) }) == (if overlapping
            && (brick.kind == crate::brick::BrickKind::Indestructible || brick.hits_remaining > 0) {
            Some(entry_side)
        } else {
            None
        }),
{
}

} // verus!
