use brickbreaker::brick::{Brick, BrickKind};

fn normal_brick() -> Brick {
    Brick::new(BrickKind::Normal)
}

fn tough_brick() -> Brick {
    Brick::new(BrickKind::Tough)
}

fn indestructible_brick() -> Brick {
    Brick::new(BrickKind::Indestructible)
}

#[test]
fn test_normal_brick_has_one_hit() {
    assert_eq!(normal_brick().hits_remaining, 1);
}

#[test]
fn test_normal_brick_destroyed_after_one_hit() {
    let b = normal_brick().hit();
    assert!(b.is_destroyed());
}

#[test]
fn test_normal_brick_not_destroyed_before_hit() {
    assert!(!normal_brick().is_destroyed());
}

#[test]
fn test_tough_brick_has_two_hits() {
    assert_eq!(tough_brick().hits_remaining, 2);
}

#[test]
fn test_tough_brick_not_destroyed_after_one_hit() {
    let b = tough_brick().hit();
    assert!(!b.is_destroyed());
    assert_eq!(b.hits_remaining, 1);
}

#[test]
fn test_tough_brick_destroyed_after_two_hits() {
    let b = tough_brick().hit().hit();
    assert!(b.is_destroyed());
}

#[test]
fn test_indestructible_never_destroyed() {
    let b = indestructible_brick().hit().hit().hit();
    assert!(!b.is_destroyed());
}

#[test]
fn test_normal_brick_worth_10_points() {
    assert_eq!(normal_brick().points, 10);
}

#[test]
fn test_tough_brick_worth_25_points() {
    assert_eq!(tough_brick().points, 25);
}

#[test]
fn test_indestructible_worth_zero_points() {
    assert_eq!(indestructible_brick().points, 0);
}

#[test]
fn test_hit_does_not_mutate_original() {
    let b = normal_brick();
    let _ = b.hit();
    assert_eq!(b.hits_remaining, 1);
}

#[test]
fn indestructible_brick_is_unchanged_by_hits() {
    let b = indestructible_brick();
    assert_eq!(b.hits_remaining, u8::MAX);
    assert_eq!(b.hit(), b);
    let mut c = b;
    for _ in 0..1000 {
        c = c.hit();
    }
    assert_eq!(c, b);
}

#[test]
fn destroyed_brick_stays_destroyed_and_unchanged() {
    let dead = normal_brick().hit();
    assert_eq!(dead.hits_remaining, 0);
    assert_eq!(dead.hit(), dead);
    assert!(dead.hit().is_destroyed());
}

#[test]
fn hits_keep_kind_and_points() {
    let b = tough_brick().hit().hit().hit();
    assert_eq!(b.kind, BrickKind::Tough);
    assert_eq!(b.points, 25);
    assert_eq!(b.hits_remaining, 0);
}
