use vstd::prelude::*;

verus! {

/// The type of a brick, determining its durability and point value.
#[derive(Debug, Clone, Copy, PartialEq, Eq, Structural)]
pub enum BrickKind {
    /// Destroyed by one hit. Worth 10 points.
    Normal,
    /// Destroyed by two hits. Worth 25 points.
    Tough,
    /// Never destroyed. Worth 0 points.
    Indestructible,
}

/// Number of hits a fresh brick of `kind` can take.
pub open spec fn initial_hits(kind: BrickKind) -> u8 {
    match kind {
        BrickKind::Normal => 1,
        BrickKind::Tough => 2,
        BrickKind::Indestructible => u8::MAX,
    }
}

/// Points a brick of `kind` is worth.
pub open spec fn kind_points(kind: BrickKind) -> u32 {
    match kind {
        BrickKind::Normal => 10,
        BrickKind::Tough => 25,
        BrickKind::Indestructible => 0,
    }
}

/// The durability state of a brick on the playing field.
///
/// `hit()` returns a new brick with one hit fewer remaining; indestructible
/// bricks ignore hits.
#[derive(Debug, Clone, Copy, PartialEq, Eq, Structural)]
pub struct Brick {
    pub kind: BrickKind,
    pub hits_remaining: u8,
    pub points: u32,
}

/// A brick of `kind` as it is placed at the start of a level.
pub open spec fn fresh_brick(kind: BrickKind) -> Brick {
    Brick { kind, hits_remaining: initial_hits(kind), points: kind_points(kind) }
}

/// The brick after `n` hits.
pub open spec fn hit_times(b: Brick, n: nat) -> Brick
    decreases n,
{
    if n == 0 {
        b
    } else {
        hit_times(b, (n - 1) as nat).spec_hit()
    }
}

impl Brick {
    /// What one hit leaves of this brick.
    pub open spec fn spec_hit(self) -> Brick {
        if self.kind == BrickKind::Indestructible {
            self
        } else {
            Brick {
                hits_remaining: if self.hits_remaining == 0 { 0 } else { (self.hits_remaining - 1) as u8 },
                ..self
            }
        }
    }

    /// A brick is gone once it is destroyable and has no hits left.
    pub open spec fn spec_is_destroyed(&self) -> bool {
        self.kind != BrickKind::Indestructible && self.hits_remaining == 0
    }

    /// Creates a fresh brick of the given kind.
    pub fn new(kind: BrickKind) -> (b: Brick)
        ensures
            b == fresh_brick(kind),
    {
        let (hits, points): (u8, u32) = match kind {
            BrickKind::Normal => (1, 10),
            BrickKind::Tough => (2, 25),
            BrickKind::Indestructible => (u8::MAX, 0),
        };
        Brick { kind, hits_remaining: hits, points }
    }

    /// Applies one hit. Indestructible bricks are unaffected.
    pub fn hit(&self) -> (b: Brick)
        ensures
            b == self.spec_hit(),
    {
        if self.kind == BrickKind::Indestructible {
            return *self;
        }
        Brick { hits_remaining: self.hits_remaining.saturating_sub(1), ..*self }
    }

    /// Returns true when the brick has been hit enough times to be removed.
    #[verifier::when_used_as_spec(spec_is_destroyed)]
    pub fn is_destroyed(&self) -> (r: bool)
        ensures
            r == self.spec_is_destroyed(),
    {
        self.kind != BrickKind::Indestructible && self.hits_remaining == 0
    }
}

/// A hit never changes what kind of brick it is, nor what it is worth.
pub proof fn lemma_hit_keeps_kind_and_points(b: Brick, n: nat)
    ensures
        hit_times(b, n).kind == b.kind,
        hit_times(b, n).points == b.points,
    decreases n,
{
    if n > 0 {
        lemma_hit_keeps_kind_and_points(b, (n - 1) as nat);
    }
}

/// Hitting an indestructible brick leaves it exactly as it was, so it is never destroyed.
pub proof fn lemma_indestructible_is_unaffected(b: Brick, n: nat)
    requires
        b.kind == BrickKind::Indestructible,
    ensures
        hit_times(b, n) == b,
        !hit_times(b, n).spec_is_destroyed(),
    decreases n,
{
    if n > 0 {
        lemma_indestructible_is_unaffected(b, (n - 1) as nat);
    }
}

/// A destroyable brick with `h` hits remaining has `h - n` left after `n` hits
/// (never less than zero), so it is destroyed exactly once `n >= h`.
pub proof fn lemma_hits_until_destroyed(b: Brick, n: nat)
    requires
        b.kind != BrickKind::Indestructible,
    ensures
        hit_times(b, n).hits_remaining == if n >= b.hits_remaining { 0 } else { b.hits_remaining - n },
        hit_times(b, n).spec_is_destroyed() <==> n >= b.hits_remaining,
    decreases n,
{
    if n > 0 {
        lemma_hits_until_destroyed(b, (n - 1) as nat);
        lemma_hit_keeps_kind_and_points(b, (n - 1) as nat);
    }
}

/// A destroyed brick stays destroyed, and further hits leave it unchanged.
pub proof fn lemma_destroyed_is_final(b: Brick)
    requires
        b.spec_is_destroyed(),
    ensures
        b.spec_hit() == b,
        b.spec_hit().spec_is_destroyed(),
{
}

/// A fresh normal brick breaks on the first hit; a fresh tough brick survives
/// one hit and breaks on the second.
pub proof fn lemma_fresh_brick_durability()
    ensures
        !fresh_brick(BrickKind::Normal).spec_is_destroyed(),
        hit_times(fresh_brick(BrickKind::Normal), 1).spec_is_destroyed(),
        !hit_times(fresh_brick(BrickKind::Tough), 1).spec_is_destroyed(),
        hit_times(fresh_brick(BrickKind::Tough), 2).spec_is_destroyed(),
{
    lemma_hits_until_destroyed(fresh_brick(BrickKind::Normal), 1);
    lemma_hits_until_destroyed(fresh_brick(BrickKind::Tough), 1);
    lemma_hits_until_destroyed(fresh_brick(BrickKind::Tough), 2);
}

/// Fresh bricks: a normal brick takes 1 hit and is worth 10 points, a tough
/// one takes 2 and is worth 25, an indestructible one has the most hits a
/// brick can have and is worth nothing. A fresh brick is never destroyed.
pub proof fn lemma_fresh_bricks(kind: BrickKind)
    ensures
        fresh_brick(BrickKind::Normal) == (Brick { kind: BrickKind::Normal, hits_remaining: 1, points: 10 }),
        fresh_brick(BrickKind::Tough) == (Brick { kind: BrickKind::Tough, hits_remaining: 2, points: 25 }),
        fresh_brick(BrickKind::Indestructible) == (Brick {
            kind: BrickKind::Indestructible,
            hits_remaining: 255,
            points: 0,
        }),
        !fresh_brick(kind).spec_is_destroyed(),
{
}

/// A brick is destroyed exactly when it is destroyable and has no hit left;
/// one hit takes one hit off a destroyable brick (none below zero) and
/// leaves an indestructible brick as it is.
pub proof fn lemma_hit_and_destroyed(b: Brick)
    ensures
        b.spec_is_destroyed() <==> (b.kind != BrickKind::Indestructible && b.hits_remaining == 0),
        b.kind == BrickKind::Indestructible ==> b.spec_hit() == b,
        b.kind != BrickKind::Indestructible && b.hits_remaining > 0 ==> b.spec_hit() == (Brick {
            hits_remaining: (b.hits_remaining - 1) as u8,
            ..b
        }),
        b.kind != BrickKind::Indestructible && b.hits_remaining == 0 ==> b.spec_hit() == b,
{
}

} // verus!
