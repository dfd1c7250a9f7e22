use brickbreaker::brick::{Brick, BrickKind};
use brickbreaker::level::{create_level, LEVEL_COLUMNS};

#[test]
fn test_level_1_has_40_bricks() {
    let lvl = create_level(1);
    assert_eq!(lvl.bricks.len(), 40);
}

#[test]
fn test_level_1_all_normal_bricks() {
    let lvl = create_level(1);
    assert!(lvl.bricks.iter().all(|b| b.kind == BrickKind::Normal));
}

#[test]
fn test_level_2_has_50_bricks() {
    let lvl = create_level(2);
    assert_eq!(lvl.bricks.len(), 50);
}

#[test]
fn test_level_2_first_row_is_indestructible() {
    let lvl = create_level(2);
    let first_row: Vec<_> = lvl.bricks.iter().take(10).collect();
    assert!(first_row.iter().all(|b| b.kind == BrickKind::Indestructible));
}

#[test]
fn test_level_3_has_60_bricks() {
    let lvl = create_level(3);
    assert_eq!(lvl.bricks.len(), 60);
}

#[test]
fn test_endless_level_grows_rows() {
    let lvl4 = create_level(4).bricks.len();
    let lvl5 = create_level(5).bricks.len();
    assert!(lvl5 >= lvl4);
}

fn kinds_of_row(bricks: &[Brick], row: usize) -> Vec<BrickKind> {
    bricks[row * LEVEL_COLUMNS..(row + 1) * LEVEL_COLUMNS].iter().map(|b| b.kind).collect()
}

#[test]
fn level_2_rows_by_kind() {
    let lvl = create_level(2);
    assert_eq!(kinds_of_row(&lvl.bricks, 0), vec![BrickKind::Indestructible; 10]);
    assert_eq!(kinds_of_row(&lvl.bricks, 1), vec![BrickKind::Tough; 10]);
    assert_eq!(kinds_of_row(&lvl.bricks, 2), vec![BrickKind::Tough; 10]);
    assert_eq!(kinds_of_row(&lvl.bricks, 3), vec![BrickKind::Normal; 10]);
    assert_eq!(kinds_of_row(&lvl.bricks, 4), vec![BrickKind::Normal; 10]);
}

#[test]
fn level_3_is_a_checkerboard() {
    let lvl = create_level(3);
    for (i, b) in lvl.bricks.iter().enumerate() {
        let (row, col) = (i / 10, i % 10);
        let expected = if (row + col) % 2 == 0 { BrickKind::Tough } else { BrickKind::Normal };
        assert_eq!(b.kind, expected);
    }
}

#[test]
fn endless_level_sizes() {
    assert_eq!(create_level(0).bricks.len(), 20);
    assert_eq!(create_level(4).bricks.len(), 60);
    assert_eq!(create_level(5).bricks.len(), 70);
    assert_eq!(create_level(8).bricks.len(), 100);
    assert_eq!(create_level(1000).bricks.len(), 100);
    assert_eq!(create_level(u32::MAX - 2).bricks.len(), 100);
}

#[test]
fn endless_level_rows_by_kind() {
    let lvl = create_level(6);
    assert_eq!(lvl.bricks.len(), 80);
    assert_eq!(kinds_of_row(&lvl.bricks, 0), vec![BrickKind::Indestructible; 10]);
    assert_eq!(kinds_of_row(&lvl.bricks, 1), vec![BrickKind::Tough; 10]);
    assert_eq!(kinds_of_row(&lvl.bricks, 2), vec![BrickKind::Tough; 10]);
    for row in 3..8 {
        assert_eq!(kinds_of_row(&lvl.bricks, row), vec![BrickKind::Normal; 10]);
    }
}

#[test]
fn fresh_levels_are_fresh_bricks() {
    for n in 0..12u32 {
        for b in create_level(n).bricks {
            assert_eq!(b, Brick::new(b.kind));
        }
    }
}
