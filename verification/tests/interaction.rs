use game_of_life::cell::Cell;
use game_of_life::game::{Applied, Config, GameOfLife, TieBreak};
use game_of_life::interaction::{is_in_cell_bounds, locate};

fn small_game(tie_break: TieBreak) -> GameOfLife {
    GameOfLife::new(Config { width: 4, height: 3, half_cell: 16, tie_break }).unwrap()
}

#[test]
fn cell_box_holds_its_lower_bounds_only() {
    assert!(is_in_cell_bounds((-16, -16), (0, 0), (16, 16)));
    assert!(is_in_cell_bounds((15, 15), (0, 0), (16, 16)));
    assert!(!is_in_cell_bounds((16, 0), (0, 0), (16, 16)));
    assert!(!is_in_cell_bounds((0, 16), (0, 0), (16, 16)));
    assert!(!is_in_cell_bounds((-17, 0), (0, 0), (16, 16)));
    assert!(!is_in_cell_bounds((0, -17), (0, 0), (16, 16)));
    assert!(is_in_cell_bounds((48, 80), (64, 96), (16, 16)));
    assert!(!is_in_cell_bounds((80, 96), (64, 96), (16, 16)));
}

#[test]
fn cell_box_survives_extreme_values() {
    assert!(!is_in_cell_bounds((i64::MAX, i64::MAX), (i64::MIN, i64::MIN), (i64::MAX, i64::MAX)));
    assert!(is_in_cell_bounds((i64::MIN, i64::MIN), (i64::MIN, i64::MIN), (1, 1)));
    assert!(!is_in_cell_bounds((0, 0), (0, 0), (0, 0)));
    assert!(!is_in_cell_bounds((0, 0), (0, 0), (-1, -1)));
}

#[test]
fn locate_finds_the_column() {
    assert_eq!(locate(-16, 16, 100), Some(0));
    assert_eq!(locate(0, 16, 100), Some(0));
    assert_eq!(locate(15, 16, 100), Some(0));
    assert_eq!(locate(16, 16, 100), Some(1));
    assert_eq!(locate(47, 16, 100), Some(1));
    assert_eq!(locate(48, 16, 100), Some(2));
    assert_eq!(locate(3183, 16, 100), Some(99));
}

#[test]
fn locate_finds_nothing_outside() {
    assert_eq!(locate(-17, 16, 100), None);
    assert_eq!(locate(3184, 16, 100), None);
    assert_eq!(locate(i64::MIN, 16, 100), None);
    assert_eq!(locate(i64::MAX, 16, 100), None);
    assert_eq!(locate(0, 16, 0), None);
    assert_eq!(locate(0, 0, 100), None);
}

#[test]
fn locate_agrees_with_the_cell_boxes() {
    for w in -40..200 {
        let mut holders = Vec::new();
        for x in 0..5i64 {
            if is_in_cell_bounds((w, 0), (x * 14, 0), (7, 7)) {
                holders.push(x as usize);
            }
        }
        assert!(holders.len() <= 1);
        assert_eq!(locate(w, 7, 5), holders.first().copied());
    }
}

#[test]
fn cell_at_maps_world_points_to_cells() {
    let game = small_game(TieBreak::EraseWins);
    assert_eq!(game.cell_at(0, 0), Some((0, 0)));
    assert_eq!(game.cell_at(-16, -16), Some((0, 0)));
    assert_eq!(game.cell_at(16, 15), Some((1, 0)));
    assert_eq!(game.cell_at(111, 79), Some((3, 2)));
    assert_eq!(game.cell_at(112, 79), None);
    assert_eq!(game.cell_at(111, 80), None);
    assert_eq!(game.cell_at(-17, 0), None);
    assert_eq!(game.cell_at(0, -17), None);
}

#[test]
fn paint_makes_the_cell_alive() {
    let mut game = small_game(TieBreak::EraseWins);
    game.paint_at(64, 32);
    assert_eq!(game.pending_draw(), Some((64, 32)));
    assert_eq!(game.grid().get(2, 1), Ok(Cell::Empty));
    let report = game.apply();
    assert_eq!(report, Applied { painted: Some((2, 1)), erased: None });
    assert_eq!(game.grid().get(2, 1), Ok(Cell::Alive));
    assert_eq!(game.pending_draw(), None);
}

#[test]
fn erase_makes_the_cell_empty() {
    let mut game = small_game(TieBreak::EraseWins);
    game.load_seed(&vec![(2, 1), (0, 0)]);
    game.erase_at(70, 40);
    assert_eq!(game.pending_erase(), Some((70, 40)));
    let report = game.apply();
    assert_eq!(report, Applied { painted: None, erased: Some((2, 1)) });
    assert_eq!(game.grid().get(2, 1), Ok(Cell::Empty));
    assert_eq!(game.grid().get(0, 0), Ok(Cell::Alive));
    assert_eq!(game.pending_erase(), None);
}

#[test]
fn erase_turns_a_dead_cell_empty() {
    let mut game = small_game(TieBreak::EraseWins);
    game.load_seed(&vec![(1, 1)]);
    game.start();
    game.tick();
    game.stop();
    assert_eq!(game.grid().get(1, 1), Ok(Cell::Dead));
    game.erase_at(32, 32);
    game.apply();
    assert_eq!(game.grid().get(1, 1), Ok(Cell::Empty));
}

#[test]
fn paint_and_erase_on_different_cells_both_happen() {
    for tie_break in [TieBreak::EraseWins, TieBreak::DrawWins] {
        let mut game = small_game(tie_break);
        game.load_seed(&vec![(3, 2)]);
        game.paint_at(0, 0);
        game.erase_at(96, 64);
        let report = game.apply();
        assert_eq!(report, Applied { painted: Some((0, 0)), erased: Some((3, 2)) });
        assert_eq!(game.grid().get(0, 0), Ok(Cell::Alive));
        assert_eq!(game.grid().get(3, 2), Ok(Cell::Empty));
    }
}

#[test]
fn erase_wins_on_the_same_cell_when_set_so() {
    let mut game = small_game(TieBreak::EraseWins);
    game.set_target(32, 32, true, true);
    let report = game.apply();
    assert_eq!(report, Applied { painted: Some((1, 1)), erased: Some((1, 1)) });
    assert_eq!(game.grid().get(1, 1), Ok(Cell::Empty));
}

#[test]
fn draw_wins_on_the_same_cell_when_set_so() {
    let mut game = small_game(TieBreak::DrawWins);
    game.set_target(32, 32, true, true);
    let report = game.apply();
    assert_eq!(report, Applied { painted: Some((1, 1)), erased: Some((1, 1)) });
    assert_eq!(game.grid().get(1, 1), Ok(Cell::Alive));
}

#[test]
fn point_under_no_cell_is_dropped() {
    let mut game = small_game(TieBreak::EraseWins);
    game.paint_at(-100, 5);
    game.erase_at(5, 1000);
    let report = game.apply();
    assert_eq!(report, Applied { painted: None, erased: None });
    assert!(game.grid().iter().iter().all(|e| e.2 == Cell::Empty));
    assert_eq!(game.pending_draw(), None);
    assert_eq!(game.pending_erase(), None);
}

#[test]
fn slot_keeps_the_latest_point_only() {
    let mut game = small_game(TieBreak::EraseWins);
    game.paint_at(0, 0);
    game.paint_at(32, 0);
    game.paint_at(64, 0);
    assert_eq!(game.pending_draw(), Some((64, 0)));
    game.apply();
    assert_eq!(game.grid().get(0, 0), Ok(Cell::Empty));
    assert_eq!(game.grid().get(1, 0), Ok(Cell::Empty));
    assert_eq!(game.grid().get(2, 0), Ok(Cell::Alive));
}

#[test]
fn set_target_without_a_button_changes_nothing() {
    let mut game = small_game(TieBreak::EraseWins);
    game.set_target(0, 0, false, false);
    assert_eq!(game.pending_draw(), None);
    assert_eq!(game.pending_erase(), None);
}

#[test]
fn set_target_fills_the_slot_of_each_button() {
    let mut game = small_game(TieBreak::EraseWins);
    game.set_target(1, 2, true, false);
    assert_eq!(game.pending_draw(), Some((1, 2)));
    assert_eq!(game.pending_erase(), None);
    game.set_target(3, 4, false, true);
    assert_eq!(game.pending_draw(), Some((1, 2)));
    assert_eq!(game.pending_erase(), Some((3, 4)));
}

#[test]
fn apply_with_nothing_pending_changes_nothing() {
    let mut game = small_game(TieBreak::EraseWins);
    game.load_seed(&vec![(1, 1)]);
    let before = game.grid().iter();
    assert_eq!(game.apply(), Applied { painted: None, erased: None });
    assert_eq!(game.grid().iter(), before);
}

#[test]
fn edits_are_ignored_while_running() {
    let mut game = small_game(TieBreak::EraseWins);
    game.load_seed(&vec![(0, 0), (1, 0), (0, 1), (1, 1)]);
    game.start();
    let before = game.grid().iter();
    game.paint_at(96, 64);
    game.erase_at(0, 0);
    game.set_target(64, 64, true, true);
    assert_eq!(game.pending_draw(), None);
    assert_eq!(game.pending_erase(), None);
    assert_eq!(game.apply(), Applied { painted: None, erased: None });
    assert_eq!(game.grid().iter(), before);
}

#[test]
fn edits_pending_at_start_are_discarded_not_applied() {
    let mut game = small_game(TieBreak::EraseWins);
    game.paint_at(0, 0);
    game.start();
    let before = game.grid().iter();
    assert_eq!(game.apply(), Applied { painted: None, erased: None });
    assert_eq!(game.grid().iter(), before);
    assert_eq!(game.pending_draw(), None);
    game.stop();
    assert_eq!(game.apply(), Applied { painted: None, erased: None });
    assert_eq!(game.grid().iter(), before);
}
