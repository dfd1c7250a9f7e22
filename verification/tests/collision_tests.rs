use brickbreaker::brick::{Brick, BrickKind};
use brickbreaker::collision::{CollisionService, CollisionSide, WallCollision};

const SVC: CollisionService = CollisionService;

#[test]
fn test_no_collision_with_destroyed_brick() {
    let brick = Brick::new(BrickKind::Normal).hit();
    assert_eq!(SVC.brick_contact(&brick, true, CollisionSide::Top), None);
}

#[test]
fn live_overlapping_brick_is_hit_from_entry_side() {
    let brick = Brick::new(BrickKind::Tough);
    assert_eq!(SVC.brick_contact(&brick, true, CollisionSide::Left), Some(CollisionSide::Left));
    assert_eq!(SVC.brick_contact(&brick, false, CollisionSide::Left), None);
}

#[test]
fn indestructible_brick_can_always_be_hit() {
    let brick = Brick::new(BrickKind::Indestructible).hit().hit();
    assert_eq!(SVC.brick_contact(&brick, true, CollisionSide::Bottom), Some(CollisionSide::Bottom));
}

#[test]
fn wall_contacts_follow_priority() {
    assert_eq!(SVC.wall_from_contacts(false, false, false, false), WallCollision::Clear);
    assert_eq!(SVC.wall_from_contacts(true, true, true, true), WallCollision::Left);
    assert_eq!(SVC.wall_from_contacts(false, true, true, true), WallCollision::Right);
    assert_eq!(SVC.wall_from_contacts(false, false, true, true), WallCollision::Top);
    assert_eq!(SVC.wall_from_contacts(false, false, false, true), WallCollision::Bottom);
    assert_eq!(SVC.wall_from_contacts(true, false, false, true), WallCollision::Left);
}
