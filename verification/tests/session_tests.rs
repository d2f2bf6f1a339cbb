use rolling_cube::config::ConfigError;
use rolling_cube::grid::Grid;
use rolling_cube::session::{evaluate_end, move_limit_for, EndState, Session};

fn filled(size: i32, colours: i32, count: i32) -> Grid {
    Grid::from_counts(size, colours, vec![count; (size * size) as usize]).unwrap()
}

#[test]
fn won_when_nothing_remains_before_the_limit() {
    let clear = filled(7, 1, 0);
    assert_eq!(evaluate_end(&clear, 0, 98), EndState::Won);
    assert_eq!(evaluate_end(&clear, 97, 98), EndState::Won);
}

#[test]
fn lost_when_the_limit_is_reached_with_tiles_left() {
    let mut grid = filled(7, 1, 0);
    grid.toggle_at(2, -1);
    assert_eq!(evaluate_end(&grid, 98, 98), EndState::Lost);
    assert_eq!(evaluate_end(&grid, 99, 98), EndState::Lost);
    assert_eq!(evaluate_end(&filled(7, 1, 1), 98, 98), EndState::Lost);
}

#[test]
fn playing_otherwise() {
    let mut grid = filled(7, 1, 0);
    grid.toggle_at(0, 0);
    assert_eq!(evaluate_end(&grid, 0, 98), EndState::Playing);
    assert_eq!(evaluate_end(&grid, 97, 98), EndState::Playing);
    // Cleared on the very move that reached the limit: neither won nor lost.
    assert_eq!(evaluate_end(&filled(7, 1, 0), 98, 98), EndState::Playing);
    assert_eq!(evaluate_end(&filled(7, 1, 0), 0, 0), EndState::Playing);
}

#[test]
fn move_limit_is_twice_the_square_of_the_size_rounded_up_to_even() {
    assert_eq!(move_limit_for(1), 8);
    assert_eq!(move_limit_for(2), 8);
    assert_eq!(move_limit_for(6), 72);
    assert_eq!(move_limit_for(7), 128);
    assert_eq!(move_limit_for(20), 800);
    assert_eq!(move_limit_for(32766), 2147221512);
}

#[test]
fn new_session_has_no_moves_and_no_best_score() {
    let session = Session::new(98);
    assert_eq!(session.move_count(), 0);
    assert_eq!(session.high_score(), 0);
    assert_eq!(session.move_limit(), 98);
    assert_eq!(session.end_state(), EndState::Playing);
    assert!(!session.end_flag());
}

#[test]
fn record_move_completed_counts_one_move() {
    let mut session = Session::new(98);
    session.record_move_completed();
    session.record_move_completed();
    assert_eq!(session.move_count(), 2);
    assert!(!session.end_flag());
}

#[test]
fn win_sets_the_best_score_where_there_was_none() {
    let mut session = Session::new(10);
    for _ in 0..4 {
        session.record_move_completed();
    }
    assert_eq!(session.settle(&filled(2, 1, 0)), EndState::Won);
    assert!(session.end_flag());
    assert_eq!(session.high_score(), 4);
}

#[test]
fn win_lowers_the_best_score_but_never_raises_it() {
    let clear = filled(2, 1, 0);
    let mut session = Session::new(10);
    for _ in 0..4 {
        session.record_move_completed();
    }
    session.settle(&clear);
    session.reset();
    for _ in 0..6 {
        session.record_move_completed();
    }
    assert_eq!(session.settle(&clear), EndState::Won);
    assert_eq!(session.high_score(), 4);
    session.reset();
    for _ in 0..3 {
        session.record_move_completed();
    }
    assert_eq!(session.settle(&clear), EndState::Won);
    assert_eq!(session.high_score(), 3);
}

#[test]
fn loss_leaves_the_best_score_alone() {
    let mut session = Session::new(2);
    session.record_move_completed();
    session.settle(&filled(2, 1, 0));
    assert_eq!(session.high_score(), 1);
    session.reset();
    session.record_move_completed();
    session.record_move_completed();
    assert_eq!(session.settle(&filled(2, 1, 1)), EndState::Lost);
    assert!(session.end_flag());
    assert_eq!(session.high_score(), 1);
}

#[test]
fn settle_while_playing_changes_nothing() {
    let mut session = Session::new(5);
    session.record_move_completed();
    assert_eq!(session.settle(&filled(2, 1, 1)), EndState::Playing);
    assert!(!session.end_flag());
    assert_eq!(session.move_count(), 1);
    assert_eq!(session.high_score(), 0);
}

#[test]
fn ended_session_keeps_its_outcome() {
    let mut session = Session::new(5);
    assert_eq!(session.settle(&filled(2, 1, 0)), EndState::Won);
    assert_eq!(session.settle(&filled(2, 1, 1)), EndState::Won);
    assert_eq!(session.end_state(), EndState::Won);
}

#[test]
fn session_reset_clears_count_and_end_but_keeps_the_best_score() {
    let mut session = Session::new(10);
    for _ in 0..7 {
        session.record_move_completed();
    }
    session.settle(&filled(2, 1, 0));
    assert_eq!(session.high_score(), 7);
    session.reset();
    assert_eq!(session.move_count(), 0);
    assert!(!session.end_flag());
    assert_eq!(session.end_state(), EndState::Playing);
    assert_eq!(session.high_score(), 7);
    assert_eq!(session.move_limit(), 10);
}

#[test]
fn config_errors_describe_themselves() {
    assert_eq!(ConfigError::InvalidGridSize.message(), "grid size must be positive");
    assert_eq!(ConfigError::InvalidRollSpeed.message(), "roll speed must be positive");
}
