use tictactoe::{
    square_position, MouseButton, PointerEvent, SquareChoice, TicTacToeGrid, TicTacToeSquare,
    RESET_DELAY_MS,
};

fn marks(g: &TicTacToeGrid) -> Vec<SquareChoice> {
    let mut v = Vec::new();
    for r in 0..3 {
        for c in 0..3 {
            v.push(g.square(r, c).choice);
        }
    }
    v
}

fn flags(g: &TicTacToeGrid) -> Vec<bool> {
    let mut v = Vec::new();
    for r in 0..3 {
        for c in 0..3 {
            v.push(g.square(r, c).is_part_of_solution);
        }
    }
    v
}

fn play(g: &mut TicTacToeGrid, moves: &[(usize, usize, MouseButton)], now: u64) {
    for &(r, c, b) in moves {
        assert!(g.on_input_event(r, c, b));
        g.process(now);
    }
}

#[test]
fn fresh_board_is_empty() {
    let g = TicTacToeGrid::new();
    assert_eq!(g.turn(), SquareChoice::Empty);
    assert_eq!(g.game_over_time(), None);
    assert!(!g.is_dirty());
    assert!(marks(&g).iter().all(|m| *m == SquareChoice::Empty));
    assert!(flags(&g).iter().all(|f| !*f));
    assert!(!g.all_are_filled());
}

#[test]
fn o_cannot_open_the_game() {
    let mut g = TicTacToeGrid::new();
    assert!(!g.on_input_event(1, 1, MouseButton::Right));
    assert_eq!(g.turn(), SquareChoice::Empty);
    assert_eq!(g.square(1, 1).choice, SquareChoice::Empty);
    assert!(!g.is_dirty());
    assert!(marks(&g).iter().all(|m| *m == SquareChoice::Empty));
}

#[test]
fn turn_alternates_after_each_placement() {
    let mut g = TicTacToeGrid::new();
    assert!(g.on_input_event(0, 0, MouseButton::Left));
    assert_eq!(g.turn(), SquareChoice::O);
    assert!(g.is_dirty());
    assert!(g.on_input_event(1, 1, MouseButton::Right));
    assert_eq!(g.turn(), SquareChoice::X);
    assert!(g.on_input_event(2, 2, MouseButton::Left));
    assert_eq!(g.turn(), SquareChoice::O);
}

#[test]
fn occupied_square_is_kept() {
    let mut g = TicTacToeGrid::new();
    assert!(g.on_input_event(0, 0, MouseButton::Left));
    g.process(0);
    assert!(!g.is_dirty());
    assert!(!g.on_input_event(0, 0, MouseButton::Right));
    assert_eq!(g.square(0, 0).choice, SquareChoice::X);
    assert_eq!(g.turn(), SquareChoice::O);
    assert!(!g.is_dirty());
}

#[test]
fn wrong_turn_is_rejected_without_effect() {
    let mut g = TicTacToeGrid::new();
    assert!(g.on_input_event(0, 0, MouseButton::Left));
    assert!(!g.on_input_event(0, 1, MouseButton::Left));
    assert_eq!(g.square(0, 1).choice, SquareChoice::Empty);
    assert_eq!(g.turn(), SquareChoice::O);
    assert!(g.is_dirty());
}

#[test]
fn rejected_click_keeps_pending_flag() {
    let mut g = TicTacToeGrid::new();
    assert!(g.on_input_event(0, 0, MouseButton::Left));
    assert!(!g.on_input_event(0, 0, MouseButton::Right));
    assert!(g.is_dirty());
}

#[test]
fn top_row_win_scenario() {
    let mut g = TicTacToeGrid::new();
    play(
        &mut g,
        &[
            (0, 0, MouseButton::Left),
            (1, 0, MouseButton::Right),
            (0, 1, MouseButton::Left),
            (1, 1, MouseButton::Right),
        ],
        100,
    );
    assert_eq!(g.game_over_time(), None);
    assert!(g.on_input_event(0, 2, MouseButton::Left));
    g.process(250);
    assert_eq!(g.game_over_time(), Some(250));
    assert!(g.square(0, 0).is_part_of_solution);
    assert!(g.square(0, 1).is_part_of_solution);
    assert!(g.square(0, 2).is_part_of_solution);
    assert!(!g.square(1, 0).is_part_of_solution);
    assert!(!g.square(1, 1).is_part_of_solution);
    assert_eq!(flags(&g).iter().filter(|f| **f).count(), 3);
}

#[test]
fn clicks_ignored_while_game_over() {
    let mut g = TicTacToeGrid::new();
    play(
        &mut g,
        &[
            (0, 0, MouseButton::Left),
            (1, 0, MouseButton::Right),
            (0, 1, MouseButton::Left),
            (1, 1, MouseButton::Right),
            (0, 2, MouseButton::Left),
        ],
        10,
    );
    assert!(g.game_over_time().is_some());
    assert!(!g.on_input_event(2, 2, MouseButton::Right));
    assert_eq!(g.square(2, 2).choice, SquareChoice::Empty);
}

#[test]
fn double_line_flags_union() {
    // X completes the top row and the left column with one move at (0,0).
    let mut g = TicTacToeGrid::new();
    play(
        &mut g,
        &[
            (0, 1, MouseButton::Left),
            (1, 1, MouseButton::Right),
            (0, 2, MouseButton::Left),
            (2, 2, MouseButton::Right),
            (1, 0, MouseButton::Left),
            (1, 2, MouseButton::Right),
            (2, 0, MouseButton::Left),
            (2, 1, MouseButton::Right),
        ],
        0,
    );
    assert_eq!(g.game_over_time(), None);
    assert!(g.on_input_event(0, 0, MouseButton::Left));
    assert!(g.check_game_over(7));
    assert_eq!(g.game_over_time(), Some(7));
    assert_eq!(
        flags(&g),
        vec![true, true, true, true, false, false, true, false, false]
    );
}

#[test]
fn full_board_without_line_is_draw() {
    // X O X / X O O / O X X
    let mut g = TicTacToeGrid::new();
    play(
        &mut g,
        &[
            (0, 0, MouseButton::Left),
            (0, 1, MouseButton::Right),
            (0, 2, MouseButton::Left),
            (1, 1, MouseButton::Right),
            (1, 0, MouseButton::Left),
            (1, 2, MouseButton::Right),
            (2, 1, MouseButton::Left),
            (2, 0, MouseButton::Right),
        ],
        3,
    );
    assert_eq!(g.game_over_time(), None);
    assert!(g.on_input_event(2, 2, MouseButton::Left));
    g.process(40);
    assert!(g.all_are_filled());
    assert_eq!(g.game_over_time(), Some(40));
    assert!(flags(&g).iter().all(|f| !*f));
}

#[test]
fn reset_waits_for_dead_zone() {
    let mut g = TicTacToeGrid::new();
    play(
        &mut g,
        &[
            (0, 0, MouseButton::Left),
            (1, 0, MouseButton::Right),
            (0, 1, MouseButton::Left),
            (1, 1, MouseButton::Right),
            (0, 2, MouseButton::Left),
        ],
        5000,
    );
    assert_eq!(g.game_over_time(), Some(5000));
    let before = marks(&g);
    g.check_game_reset(5000 + RESET_DELAY_MS - 1);
    assert_eq!(marks(&g), before);
    assert_eq!(g.game_over_time(), Some(5000));
    assert!(g.square(0, 0).is_part_of_solution);
    g.process(5999);
    assert_eq!(g.game_over_time(), Some(5000));
    g.process(4000);
    assert_eq!(g.game_over_time(), Some(5000));
    g.check_game_reset(6000);
    assert_eq!(g.game_over_time(), None);
    assert_eq!(g.turn(), SquareChoice::Empty);
    assert!(marks(&g).iter().all(|m| *m == SquareChoice::Empty));
    assert!(flags(&g).iter().all(|f| !*f));
    assert!(g.on_input_event(1, 1, MouseButton::Left));
}

#[test]
fn tick_resets_after_dead_zone() {
    let mut g = TicTacToeGrid::new();
    play(
        &mut g,
        &[
            (0, 0, MouseButton::Left),
            (1, 0, MouseButton::Right),
            (0, 1, MouseButton::Left),
            (1, 1, MouseButton::Right),
            (0, 2, MouseButton::Left),
        ],
        0,
    );
    g.process(1000);
    assert_eq!(g.game_over_time(), None);
    assert_eq!(g.turn(), SquareChoice::Empty);
}

#[test]
fn reset_keeps_hover() {
    let mut g = TicTacToeGrid::new();
    g.set_hovered(2, 2, true);
    play(
        &mut g,
        &[
            (0, 0, MouseButton::Left),
            (1, 0, MouseButton::Right),
            (0, 1, MouseButton::Left),
            (1, 1, MouseButton::Right),
            (0, 2, MouseButton::Left),
        ],
        0,
    );
    g.process(2000);
    assert!(g.square(2, 2).is_hovered_over);
}

#[test]
fn route_input_dispatches() {
    let mut g = TicTacToeGrid::new();
    assert!(!g.route_input(1, 2, PointerEvent::Enter));
    assert!(g.square(1, 2).is_hovered_over);
    assert!(!g.route_input(1, 2, PointerEvent::Exit));
    assert!(!g.square(1, 2).is_hovered_over);
    assert!(!g.route_input(1, 2, PointerEvent::Click(MouseButton::Right)));
    assert!(g.route_input(1, 2, PointerEvent::Click(MouseButton::Left)));
    assert_eq!(g.square(1, 2).choice, SquareChoice::X);
    assert_eq!(g.turn(), SquareChoice::O);
}

#[test]
fn square_placement_rules() {
    let mut s = TicTacToeSquare::new();
    let r = s.attempt_place(SquareChoice::O, SquareChoice::Empty);
    assert!(!r.accepted);
    assert_eq!(r.new_turn, SquareChoice::Empty);
    assert_eq!(s.choice, SquareChoice::Empty);
    let r = s.attempt_place(SquareChoice::X, SquareChoice::Empty);
    assert!(r.accepted);
    assert_eq!(r.new_turn, SquareChoice::O);
    assert_eq!(s.choice, SquareChoice::X);
    let r = s.attempt_place(SquareChoice::O, SquareChoice::O);
    assert!(!r.accepted);
    assert_eq!(s.choice, SquareChoice::X);
    let mut t = TicTacToeSquare::new();
    let r = t.attempt_place(SquareChoice::O, SquareChoice::O);
    assert!(r.accepted);
    assert_eq!(r.new_turn, SquareChoice::X);
    let mut u = TicTacToeSquare::new();
    assert!(!u.attempt_place(SquareChoice::X, SquareChoice::O).accepted);
}

#[test]
fn sprite_frames() {
    let mut s = TicTacToeSquare::new();
    assert_eq!(s.process_sprite(), (0, 0));
    s.on_mouse_entered();
    assert_eq!(s.process_sprite(), (1, 0));
    s.on_mouse_exited();
    s.attempt_place(SquareChoice::X, SquareChoice::Empty);
    assert_eq!(s.process_sprite(), (0, 1));
    s.is_part_of_solution = true;
    assert_eq!(s.process_sprite(), (1, 1));
    let mut o = TicTacToeSquare::new();
    o.attempt_place(SquareChoice::O, SquareChoice::O);
    assert_eq!(o.process_sprite(), (0, 2));
}

#[test]
fn square_positions() {
    assert_eq!(square_position(0, 0), (-16, -16));
    assert_eq!(square_position(1, 1), (0, 0));
    assert_eq!(square_position(2, 0), (-16, 16));
    assert_eq!(square_position(0, 2), (16, -16));
}

#[test]
fn o_wins_middle_column() {
    let mut g = TicTacToeGrid::new();
    play(
        &mut g,
        &[
            (0, 0, MouseButton::Left),
            (0, 1, MouseButton::Right),
            (2, 2, MouseButton::Left),
            (1, 1, MouseButton::Right),
            (1, 0, MouseButton::Left),
        ],
        0,
    );
    assert_eq!(g.game_over_time(), None);
    assert!(g.on_input_event(2, 1, MouseButton::Right));
    g.process(9);
    assert_eq!(g.game_over_time(), Some(9));
    assert_eq!(
        flags(&g),
        vec![false, true, false, false, true, false, false, true, false]
    );
}

#[test]
fn x_wins_anti_diagonal() {
    let mut g = TicTacToeGrid::new();
    play(
        &mut g,
        &[
            (0, 2, MouseButton::Left),
            (0, 0, MouseButton::Right),
            (1, 1, MouseButton::Left),
            (0, 1, MouseButton::Right),
        ],
        0,
    );
    assert!(g.on_input_event(2, 0, MouseButton::Left));
    assert!(g.check_game_over(3));
    assert_eq!(
        flags(&g),
        vec![false, false, true, false, true, false, true, false, false]
    );
}
