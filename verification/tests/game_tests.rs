use rolling_cube::arbiter::InputSignals;
use rolling_cube::config::ConfigError;
use rolling_cube::game::Game;
use rolling_cube::grid::Grid;
use rolling_cube::roll::{Direction, RollState};
use rolling_cube::session::EndState;

fn idle() -> InputSignals {
    InputSignals {
        up_down: false,
        down_down: false,
        right_down: false,
        left_down: false,
        reset_pressed: false,
    }
}

fn key(dir: Direction) -> InputSignals {
    let mut input = idle();
    match dir {
        Direction::Up => input.up_down = true,
        Direction::Down => input.down_down = true,
        Direction::Right => input.right_down = true,
        Direction::Left => input.left_down = true,
    }
    input
}

fn reset_key() -> InputSignals {
    let mut input = idle();
    input.reset_pressed = true;
    input
}

fn filled(size: i32, colours: i32, count: i32) -> Grid {
    Grid::from_counts(size, colours, vec![count; (size * size) as usize]).unwrap()
}

fn counts(game: &Game) -> Vec<i32> {
    game.grid().tiles().iter().map(|t| t.visit_count).collect()
}

/// Holds the key of `dir` until a move has ended, and says how many frames
/// that took.
fn roll(game: &mut Game, dir: Direction) -> i32 {
    let mut frames = 0;
    loop {
        let report = game.play_frame(key(dir));
        frames += 1;
        if report.completed {
            return frames;
        }
        assert!(frames < 1000);
    }
}

#[test]
fn new_game_refuses_a_grid_size_that_is_not_positive() {
    assert_eq!(Game::new(0, 1, 45, 1).unwrap_err(), ConfigError::InvalidGridSize);
    assert_eq!(Game::new(-7, 1, 45, 1).unwrap_err(), ConfigError::InvalidGridSize);
    assert_eq!(Game::new(0, 1, 0, 1).unwrap_err(), ConfigError::InvalidGridSize);
    assert_eq!(Game::new(0, -1, 45, 1).unwrap_err(), ConfigError::InvalidGridSize);
}

#[test]
fn new_game_refuses_a_roll_speed_that_is_not_positive() {
    assert_eq!(Game::new(7, 1, 0, 1).unwrap_err(), ConfigError::InvalidRollSpeed);
    assert_eq!(Game::new(7, 1, -1, 1).unwrap_err(), ConfigError::InvalidRollSpeed);
    assert_eq!(Game::new(7, -1, 0, 1).unwrap_err(), ConfigError::InvalidRollSpeed);
    assert_eq!(
        Game::with_grid(filled(7, 1, 1), 0, 98).unwrap_err(),
        ConfigError::InvalidRollSpeed
    );
}

#[test]
fn new_game_starts_at_rest_on_a_populated_grid() {
    let game = Game::new(7, 1, 45, 1).unwrap();
    assert_eq!(game.grid().size(), 7);
    assert_eq!(game.grid().colour_count(), 1);
    assert_eq!(game.grid().tile_count(), 49);
    assert_eq!(game.pose().state(), RollState::Idle);
    assert_eq!((game.pose().x_offset(), game.pose().z_offset()), (0, 0));
    assert_eq!(game.pose().roll_speed(), 45);
    assert_eq!(game.session().move_count(), 0);
    assert_eq!(game.session().move_limit(), 128);
    assert_eq!(game.session().high_score(), 0);
    for tile in game.grid().tiles() {
        assert!(tile.visit_count == 0 || tile.visit_count == 1);
    }
}

#[test]
fn game_on_a_cleared_grid_is_won_at_the_end_of_its_first_frame() {
    let mut game = Game::with_grid(filled(3, 1, 0), 2, 10).unwrap();
    assert_eq!(game.session().end_state(), EndState::Playing);
    let report = game.play_frame(idle());
    assert_eq!(report.started, None);
    assert!(!report.completed);
    assert_eq!(report.end, EndState::Won);
    assert!(game.session().end_flag());
    assert_eq!(game.session().high_score(), 0);
    let next = game.play_frame(key(Direction::Up));
    assert_eq!(next.started, None);
    assert_eq!(next.end, EndState::Won);
    assert!(game.pose().is_idle());
}

#[test]
fn tile_is_visited_in_the_frame_the_cube_comes_to_rest_and_in_no_other() {
    for dir in [Direction::Up, Direction::Down, Direction::Right, Direction::Left] {
        let mut game = Game::with_grid(filled(7, 2, 1), 5, 98).unwrap();
        let before = counts(&game);
        let first = game.play_frame(key(dir));
        assert_eq!(first.started, Some(dir));
        assert!(!first.completed);
        for _ in 0..3 {
            let report = game.play_frame(idle());
            assert_eq!(report.started, None);
            assert!(!report.completed);
            assert!(!game.pose().is_idle());
            assert_eq!(counts(&game), before);
            assert_eq!(game.session().move_count(), 0);
        }
        let last = game.play_frame(idle());
        assert!(last.completed);
        assert!(game.pose().is_idle());
        assert_eq!(game.session().move_count(), 1);
        let (x, z) = (game.pose().x_offset(), game.pose().z_offset());
        assert_eq!(game.grid().tile_at(x, z), Some(2));
        assert_eq!(counts(&game).iter().filter(|c| **c == 2).count(), 1);
        assert_eq!(counts(&game).iter().filter(|c| **c == 1).count(), 48);
        let after = counts(&game);
        for _ in 0..4 {
            let report = game.play_frame(idle());
            assert!(!report.completed);
            assert_eq!(counts(&game), after);
            assert_eq!(game.session().move_count(), 1);
        }
    }
}

#[test]
fn tile_under_the_cube_is_the_one_at_row_z_and_column_x() {
    // One lit tile in the far corner keeps the game from being won.
    let mut cells = vec![0; 36];
    cells[0] = 1;
    let mut game = Game::with_grid(Grid::from_counts(6, 1, cells).unwrap(), 1, 98).unwrap();
    roll(&mut game, Direction::Up);
    roll(&mut game, Direction::Right);
    assert_eq!((game.pose().x_offset(), game.pose().z_offset()), (1, -1));
    let lit: Vec<(i32, i32)> = game
        .grid()
        .tiles()
        .iter()
        .filter(|t| t.visit_count != 0)
        .map(|t| (t.row, t.col))
        .collect();
    assert_eq!(lit, vec![(-3, -2), (-1, 1), (0, 1)]);
}

#[test]
fn simultaneous_up_and_left_starts_up_and_left_is_not_kept() {
    let mut game = Game::with_grid(filled(7, 1, 1), 3, 98).unwrap();
    let mut both = key(Direction::Up);
    both.left_down = true;
    let report = game.play_frame(both);
    assert_eq!(report.started, Some(Direction::Up));
    assert_eq!(game.pose().state(), RollState::RollingUp);
    assert_eq!(game.pose().z_offset(), 0);
    game.play_frame(idle());
    let done = game.play_frame(idle());
    assert!(done.completed);
    assert_eq!((game.pose().x_offset(), game.pose().z_offset()), (1, 0));
    for _ in 0..5 {
        let report = game.play_frame(idle());
        assert_eq!(report.started, None);
        assert!(game.pose().is_idle());
    }
    assert_eq!((game.pose().x_offset(), game.pose().z_offset()), (1, 0));
    assert_eq!(game.session().move_count(), 1);
}

#[test]
fn key_held_through_a_move_starts_the_next_one_when_the_cube_rests() {
    let mut game = Game::with_grid(filled(7, 1, 1), 3, 98).unwrap();
    assert_eq!(roll(&mut game, Direction::Left), 3);
    let report = game.play_frame(key(Direction::Left));
    assert_eq!(report.started, Some(Direction::Left));
    assert_eq!(game.pose().z_offset(), 2);
}

#[test]
fn cube_stops_at_the_edge_of_the_grid() {
    let mut game = Game::with_grid(filled(6, 3, 1), 1, 1000).unwrap();
    for _ in 0..10 {
        game.play_frame(key(Direction::Up));
    }
    assert_eq!(game.pose().x_offset(), 3);
    for _ in 0..10 {
        game.play_frame(key(Direction::Down));
    }
    assert_eq!(game.pose().x_offset(), -2);
    for _ in 0..10 {
        game.play_frame(key(Direction::Left));
    }
    assert_eq!(game.pose().z_offset(), 2);
    for _ in 0..10 {
        game.play_frame(key(Direction::Right));
    }
    assert_eq!(game.pose().z_offset(), -3);
    assert_eq!(game.session().move_count(), 3 + 5 + 2 + 5);
}

#[test]
fn game_is_lost_after_ninety_eight_moves_with_a_tile_unvisited() {
    let mut game = Game::with_grid(filled(7, 1, 1), 4, 98).unwrap();
    for n in 0..98 {
        assert_eq!(game.session().end_state(), EndState::Playing);
        assert_eq!(game.session().move_count(), n);
        let dir = if n % 2 == 0 { Direction::Up } else { Direction::Down };
        assert_eq!(roll(&mut game, dir), 4);
    }
    assert_eq!(game.session().move_count(), 98);
    assert!(game.grid().remaining() > 0);
    assert_eq!(game.grid().tile_at(3, 3), Some(1));
    assert_eq!(game.session().end_state(), EndState::Lost);
    assert!(game.session().end_flag());
    let report = game.play_frame(key(Direction::Up));
    assert_eq!(report.started, None);
    assert_eq!(report.end, EndState::Lost);
    assert_eq!(game.session().move_count(), 98);
    assert_eq!(game.session().high_score(), 0);
}

#[test]
fn game_is_won_when_the_last_tile_is_cleared() {
    let mut cells = vec![0; 9];
    cells[5] = 1; // row 0, column 1
    let mut game = Game::with_grid(Grid::from_counts(3, 1, cells).unwrap(), 2, 18).unwrap();
    assert_eq!(game.session().end_state(), EndState::Playing);
    let first = game.play_frame(key(Direction::Up));
    assert_eq!(first.end, EndState::Playing);
    let second = game.play_frame(key(Direction::Up));
    assert!(second.completed);
    assert_eq!(second.end, EndState::Won);
    assert_eq!(game.grid().remaining(), 0);
    assert_eq!(game.session().high_score(), 1);
    assert_eq!(game.play_frame(key(Direction::Up)).started, None);
}

#[test]
fn reset_mid_session_clears_the_count_and_keeps_the_best_score() {
    let mut cells = vec![0; 9];
    cells[5] = 1;
    let mut game = Game::with_grid(Grid::from_counts(3, 1, cells).unwrap(), 2, 18).unwrap();
    roll(&mut game, Direction::Up);
    assert_eq!(game.session().high_score(), 1);
    game.reset_with(filled(3, 1, 1));
    roll(&mut game, Direction::Left);
    roll(&mut game, Direction::Up);
    assert_eq!(game.session().move_count(), 2);
    assert_eq!((game.pose().x_offset(), game.pose().z_offset()), (1, 1));
    game.reset_with(Grid::from_counts(3, 1, vec![1, 0, 1, 0, 1, 0, 1, 0, 1]).unwrap());
    assert_eq!(game.session().move_count(), 0);
    assert!(!game.session().end_flag());
    assert_eq!(game.session().end_state(), EndState::Playing);
    assert_eq!(game.session().high_score(), 1);
    assert_eq!((game.pose().x_offset(), game.pose().z_offset()), (0, 0));
    assert_eq!(counts(&game), vec![1, 0, 1, 0, 1, 0, 1, 0, 1]);
}

#[test]
fn reset_signal_repopulates_the_grid() {
    let mut game = Game::with_grid(filled(7, 1, 1), 2, 98).unwrap();
    roll(&mut game, Direction::Up);
    roll(&mut game, Direction::Up);
    assert_eq!(game.session().move_count(), 2);
    let report = game.frame(reset_key(), 7);
    assert_eq!(report.started, None);
    assert_eq!(game.session().move_count(), 0);
    assert_eq!((game.pose().x_offset(), game.pose().z_offset()), (0, 0));
    assert_eq!(game.grid().size(), 7);
    assert_eq!(game.grid().colour_count(), 1);
    assert_eq!(game.grid().tile_count(), 49);
    for tile in game.grid().tiles() {
        assert!(tile.visit_count == 0 || tile.visit_count == 1);
    }
    game.reset(8);
    assert_eq!(game.grid().tile_count(), 49);
    assert_eq!(game.session().move_count(), 0);
}

#[test]
fn reset_after_the_end_lets_the_cube_move_again() {
    let mut game = Game::with_grid(filled(3, 1, 1), 1, 2).unwrap();
    roll(&mut game, Direction::Up);
    roll(&mut game, Direction::Down);
    assert_eq!(game.session().end_state(), EndState::Lost);
    assert_eq!(game.play_frame(key(Direction::Up)).started, None);
    game.reset_with(filled(3, 1, 1));
    assert!(!game.session().end_flag());
    assert_eq!(game.play_frame(key(Direction::Up)).started, Some(Direction::Up));
}

#[test]
fn reset_does_not_cancel_a_move_in_flight() {
    let mut game = Game::with_grid(filled(5, 1, 1), 4, 98).unwrap();
    roll(&mut game, Direction::Up);
    game.play_frame(key(Direction::Up));
    game.play_frame(idle());
    assert_eq!(game.pose().x_offset(), 1);
    game.reset_with(filled(5, 1, 1));
    assert_eq!(game.pose().state(), RollState::RollingUp);
    assert_eq!(game.pose().angle_steps(), 2);
    assert_eq!(game.pose().x_offset(), 0);
    assert_eq!(game.session().move_count(), 0);
    assert!(!game.play_frame(idle()).completed);
    assert!(game.play_frame(idle()).completed);
    assert_eq!(game.pose().x_offset(), 1);
    assert_eq!(game.session().move_count(), 1);
    assert_eq!(game.grid().tile_at(1, 0), Some(0));
    assert_eq!(game.grid().remaining(), 24);
}

#[test]
fn frame_without_the_reset_signal_is_play_frame() {
    let mut a = Game::with_grid(filled(5, 2, 1), 3, 50).unwrap();
    let mut b = Game::with_grid(filled(5, 2, 1), 3, 50).unwrap();
    let script = [
        key(Direction::Left),
        idle(),
        key(Direction::Up),
        key(Direction::Up),
        key(Direction::Down),
        idle(),
        key(Direction::Right),
    ];
    for input in script {
        let ra = a.frame(input, 9);
        let rb = b.play_frame(input);
        assert_eq!(ra.started, rb.started);
        assert_eq!(ra.completed, rb.completed);
        assert_eq!(ra.end, rb.end);
        assert_eq!(counts(&a), counts(&b));
        assert_eq!(a.pose().state(), b.pose().state());
        assert_eq!(a.pose().angle_steps(), b.pose().angle_steps());
        assert_eq!(a.session().move_count(), b.session().move_count());
    }
}

#[test]
fn game_roll_speed_applies_from_the_next_move() {
    let mut game = Game::with_grid(filled(7, 1, 1), 4, 98).unwrap();
    game.play_frame(key(Direction::Up));
    assert_eq!(game.set_roll_speed(0), Err(ConfigError::InvalidRollSpeed));
    assert_eq!(game.set_roll_speed(2), Ok(()));
    assert!(!game.play_frame(idle()).completed);
    assert!(!game.play_frame(idle()).completed);
    assert!(game.play_frame(idle()).completed);
    assert_eq!(roll(&mut game, Direction::Up), 2);
    assert_eq!(game.pose().x_offset(), 2);
}

#[test]
fn reset_onto_a_cleared_grid_keeps_the_best_score_until_the_game_is_won_again() {
    let mut cells = vec![0; 9];
    cells[5] = 1;
    let mut game = Game::with_grid(Grid::from_counts(3, 1, cells).unwrap(), 2, 18).unwrap();
    roll(&mut game, Direction::Up);
    assert_eq!(game.session().end_state(), EndState::Won);
    assert_eq!(game.session().high_score(), 1);
    game.reset_with(filled(3, 1, 0));
    assert_eq!(game.session().end_state(), EndState::Playing);
    assert_eq!(game.session().high_score(), 1);
    assert_eq!(game.session().move_count(), 0);
}
