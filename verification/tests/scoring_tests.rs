use brickbreaker::brick::{Brick, BrickKind};
use brickbreaker::scoring::ScoringService;

const SVC: ScoringService = ScoringService;

fn normal_brick() -> Brick {
    Brick::new(BrickKind::Normal)
}

fn tough_brick() -> Brick {
    Brick::new(BrickKind::Tough)
}

#[test]
fn test_normal_brick_no_combo_gives_10() {
    assert_eq!(SVC.score_for_brick(&normal_brick(), 0), 10);
}

#[test]
fn test_tough_brick_no_combo_gives_25() {
    assert_eq!(SVC.score_for_brick(&tough_brick(), 0), 25);
}

#[test]
fn test_combo_multiplier_activates_at_5() {
    assert_eq!(SVC.score_for_brick(&normal_brick(), 4), 10);
    assert_eq!(SVC.score_for_brick(&normal_brick(), 5), 20);
}

#[test]
fn test_combo_10_gives_triple_multiplier() {
    assert_eq!(SVC.score_for_brick(&normal_brick(), 10), 30);
}

#[test]
fn test_combo_multiplier_increases_every_5() {
    for combo in 0u32..=20 {
        let expected_multiplier = 1 + combo / 5;
        let score = SVC.score_for_brick(&normal_brick(), combo);
        assert_eq!(score, 10 * expected_multiplier, "Failed at combo={combo}");
    }
}

#[test]
fn test_indestructible_brick_always_zero() {
    let b = Brick::new(BrickKind::Indestructible);
    assert_eq!(SVC.score_for_brick(&b, 99), 0);
}

#[test]
fn tough_brick_scores_grow_with_combo() {
    assert_eq!(SVC.score_for_brick(&tough_brick(), 9), 50);
    assert_eq!(SVC.score_for_brick(&tough_brick(), 14), 75);
    let mut last = 0;
    for combo in 0u32..100 {
        let s = SVC.score_for_brick(&tough_brick(), combo);
        assert!(s >= last);
        last = s;
    }
}

#[test]
fn indestructible_brick_scores_zero_even_at_huge_combo() {
    let b = Brick::new(BrickKind::Indestructible);
    assert_eq!(SVC.score_for_brick(&b, u32::MAX), 0);
}
