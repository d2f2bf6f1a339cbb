//! One game: the grid, the cube and the session, and the order in which a
//! frame updates them.
//!
//! A frame samples the input once, lets the arbiter begin a move, turns the
//! cube by one increment, visits the tile under the cube if that increment
//! ended a move, and then looks for the end of the game.

use vstd::prelude::*;
use crate::arbiter::{choose_move, chosen, lemma_neighbour_is_on_grid, pressed, InputSignals};
use crate::config::ConfigError;
use crate::grid::{
    col_max,
    in_range,
    lemma_cell_index_bounds,
    lemma_origin_is_on_grid,
    populate_grid,
    row_min,
    Grid,
    GridModel,
};
use crate::roll::{
    lemma_move_takes_roll_speed_steps,
    moves_at_start,
    rolling,
    x_step,
    z_step,
    CubePose,
    Direction,
    PoseModel,
    RollState,
};
use crate::session::{move_limit_for, move_limit_of, EndState, Session, SessionModel};

verus! {

/// What one frame did.
#[derive(Clone, Copy, Debug)]
pub struct FrameReport {
    /// The move that began in this frame, if one did.
    pub started: Option<Direction>,
    /// Whether a move ended in this frame, which is when its tile is visited
    /// and the move is counted.
    pub completed: bool,
    /// How the session stands after the frame.
    pub end: EndState,
}

/// A game as a mathematical value.
pub struct GameModel {
    pub grid: GridModel,
    pub pose: PoseModel,
    pub session: SessionModel,
}

impl GameModel {
    /// The parts are well formed, the cube stands on a tile, and a move that
    /// still has to shift the cube has a tile to shift it to.
    pub open spec fn wf(self) -> bool {
        &&& self.grid.wf()
        &&& self.pose.wf()
        &&& self.session.wf()
        &&& in_range(self.grid.size, self.pose.z, self.pose.x)
        &&& self.pose.state == RollState::RollingUp ==> self.pose.x < col_max(self.grid.size)
        &&& self.pose.state == RollState::RollingRight ==> row_min(self.grid.size) < self.pose.z
    }

    /// A new game on `grid`: the cube at rest on the origin and no moves
    /// made.
    pub open spec fn initial(grid: GridModel, roll_speed: int, move_limit: int) -> GameModel {
        GameModel {
            grid,
            pose: PoseModel::at_rest(roll_speed),
            session: SessionModel::fresh(move_limit),
        }
    }

    /// The game after a reset that brought in `grid`.
    pub open spec fn reset_to(self, grid: GridModel) -> GameModel {
        GameModel { grid, pose: self.pose.recentred(), session: self.session.restarted() }
    }

    /// The move that begins in a frame with this input.
    pub open spec fn picked(self, input: InputSignals) -> Option<Direction> {
        chosen(self.grid.size, self.pose, self.session.ended(), input)
    }

    /// The pose once the arbiter has had its say.
    pub open spec fn launched(self, input: InputSignals) -> PoseModel {
        match self.picked(input) {
            Some(dir) => self.pose.started(dir),
            None => self.pose,
        }
    }

    /// Whether a move ends in a frame with this input.
    pub open spec fn completes(self, input: InputSignals) -> bool {
        self.launched(input).completes()
    }

    /// The game one frame later. The reset signal is not looked at.
    pub open spec fn after_frame(self, input: InputSignals) -> GameModel {
        let pose = self.launched(input).advanced();
        let grid = if self.completes(input) {
            self.grid.toggled(pose.z, pose.x)
        } else {
            self.grid
        };
        let counted = if self.completes(input) {
            self.session.recorded()
        } else {
            self.session
        };
        GameModel { grid, pose, session: counted.settled(grid.remaining() as int) }
    }

    /// The game after one frame for each of `inputs`, in their order. No
    /// reset signal is looked at.
    pub open spec fn after_frames(self, inputs: Seq<InputSignals>) -> GameModel
        decreases inputs.len(),
    {
        if inputs.len() == 0 {
            self
        } else {
            self.after_frames(inputs.drop_last()).after_frame(inputs.last())
        }
    }

    /// What the frame reports.
    pub open spec fn report(self, input: InputSignals) -> FrameReport {
        FrameReport {
            started: self.picked(input),
            completed: self.completes(input),
            end: self.after_frame(input).session.outcome,
        }
    }
}

/// A frame leaves a well-formed game well formed: in particular the cube
/// never leaves the grid.
pub proof fn lemma_frame_keeps_wf(game: GameModel, input: InputSignals)
    requires
        game.wf(),
    ensures
        game.after_frame(input).wf(),
        game.launched(input).wf(),
        in_range(game.grid.size, game.launched(input).z, game.launched(input).x),
{
    let size = game.grid.size;
    match game.picked(input) {
        Some(dir) => {
            lemma_neighbour_is_on_grid(size, game.pose.x, game.pose.z, dir);
        },
        None => {},
    }
    let pose = game.launched(input).advanced();
    if game.completes(input) {
        lemma_cell_index_bounds(size, pose.z, pose.x);
    }
}

/// A tile is visited exactly when a move ends, which is the frame in which
/// the cube comes to rest: that frame counts one move and visits the tile
/// under the cube once. Every other frame leaves the grid and the move
/// count as they were, and so does every frame after which the cube is
/// still rolling.
pub proof fn lemma_tile_visited_once_per_move(game: GameModel, input: InputSignals)
    requires
        game.wf(),
    ensures
        game.completes(input) <==> (game.launched(input).state != RollState::Idle
            && game.after_frame(input).pose.state == RollState::Idle),
        game.completes(input) ==> {
            &&& game.grid.contains(game.after_frame(input).pose.z, game.after_frame(input).pose.x)
            &&& game.after_frame(input).grid == game.grid.toggled(
                game.after_frame(input).pose.z,
                game.after_frame(input).pose.x,
            )
            &&& game.after_frame(input).session.move_count == game.session.move_count + 1
        },
        !game.completes(input) ==> {
            &&& game.after_frame(input).grid == game.grid
            &&& game.after_frame(input).session.move_count == game.session.move_count
        },
        game.after_frame(input).pose.state != RollState::Idle ==> game.after_frame(input).grid
            == game.grid,
{
    lemma_frame_keeps_wf(game, input);
}

/// While a move is in flight or the game has ended no move begins, whatever
/// keys are down: the frame does nothing to the cube but turn it on.
pub proof fn lemma_no_move_begins_in_flight(game: GameModel, input: InputSignals)
    requires
        game.pose.state != RollState::Idle || game.session.ended(),
    ensures
        game.picked(input).is_none(),
        game.after_frame(input).pose == game.pose.advanced(),
{
}

/// A move begins only in a frame in which its own key is down, the cube is
/// at rest and the game has not ended. With no direction key down none
/// begins, and a cube at rest then stays where it is, with the grid and the
/// move count as they were. Which move begins depends on this frame's keys
/// and the game's state alone: no key press is kept for a later frame.
pub proof fn lemma_move_needs_its_key(game: GameModel, input: InputSignals)
    ensures
        game.picked(input).is_some() ==> {
            &&& pressed(input, game.picked(input).unwrap())
            &&& game.pose.state == RollState::Idle
            &&& !game.session.ended()
        },
        !input.up_down && !input.down_down && !input.right_down && !input.left_down
            ==> game.picked(input).is_none(),
        game.picked(input).is_none() && game.pose.state == RollState::Idle ==> {
            &&& game.after_frame(input).pose == game.pose
            &&& game.after_frame(input).grid == game.grid
            &&& game.after_frame(input).session.move_count == game.session.move_count
        },
{
}

/// A move that begins in a frame runs its course, whatever the keys do in
/// the frames that follow. It is in flight for exactly `roll_speed` frames,
/// the first of them the one in which it began. Before the last of them the
/// cube is rolling in the direction it began with and the grid and the move
/// count are as they were. The last one brings the cube to rest one cell on
/// in that direction, counts one move and visits the tile there once. The
/// offset changes once: in the first frame for Down and Left, in the last
/// for Up and Right.
pub proof fn lemma_move_runs_its_course(
    game: GameModel,
    dir: Direction,
    inputs: Seq<InputSignals>,
)
    requires
        game.wf(),
        0 < inputs.len() <= game.pose.roll_speed,
        game.picked(inputs[0]) == Some(dir),
    ensures
        ({
            let now = game.after_frames(inputs);
            let done = inputs.len() == game.pose.roll_speed;
            &&& now.wf()
            &&& now.pose == game.pose.started(dir).advanced_by(inputs.len())
            &&& now.pose.state == if done {
                RollState::Idle
            } else {
                rolling(dir)
            }
            &&& now.pose.x == game.pose.x + if done || moves_at_start(dir) {
                x_step(dir)
            } else {
                0
            }
            &&& now.pose.z == game.pose.z + if done || moves_at_start(dir) {
                z_step(dir)
            } else {
                0
            }
            &&& now.session.move_count == game.session.move_count + if done {
                1int
            } else {
                0int
            }
            &&& now.grid == if done {
                game.grid.toggled(game.pose.z + z_step(dir), game.pose.x + x_step(dir))
            } else {
                game.grid
            }
        }),
    decreases inputs.len(),
{
    reveal_with_fuel(GameModel::after_frames, 2);
    reveal_with_fuel(PoseModel::advanced_by, 2);
    let steps = inputs.len();
    lemma_move_takes_roll_speed_steps(game.pose, dir, steps);
    lemma_move_takes_roll_speed_steps(game.pose, dir, (steps - 1) as nat);
    if steps == 1 {
        assert(game.after_frames(inputs.drop_last()) == game);
        assert(game.after_frames(inputs) == game.after_frame(inputs[0]));
        lemma_frame_keeps_wf(game, inputs[0]);
    } else {
        let earlier = inputs.drop_last();
        assert(earlier[0] == inputs[0]);
        lemma_move_runs_its_course(game, dir, earlier);
        let mid = game.after_frames(earlier);
        lemma_no_move_begins_in_flight(mid, inputs.last());
        lemma_frame_keeps_wf(mid, inputs.last());
    }
}

/// A new game is well formed: the cube rests on the origin, which is a tile,
/// the grid is as it was handed in and no move is counted.
pub proof fn lemma_initial_is_wf(grid: GridModel, roll_speed: int, move_limit: int)
    requires
        grid.wf(),
        0 < roll_speed,
    ensures
        GameModel::initial(grid, roll_speed, move_limit).wf(),
        GameModel::initial(grid, roll_speed, move_limit).grid == grid,
        GameModel::initial(grid, roll_speed, move_limit).grid.contains(0, 0),
        GameModel::initial(grid, roll_speed, move_limit).session.move_count == 0,
        !GameModel::initial(grid, roll_speed, move_limit).session.ended(),
{
    lemma_origin_is_on_grid(grid.size);
}

/// A reset leaves a well-formed game well formed, with the new grid, the
/// cube on the origin, no moves counted, the end of the game cleared and
/// the best score as it was.
pub proof fn lemma_reset_keeps_wf(game: GameModel, grid: GridModel)
    requires
        game.wf(),
        grid.wf(),
        grid.size == game.grid.size,
    ensures
        game.reset_to(grid).wf(),
        game.reset_to(grid).pose.x == 0,
        game.reset_to(grid).pose.z == 0,
        game.reset_to(grid).session.move_count == 0,
        game.reset_to(grid).grid == grid,
        !game.reset_to(grid).session.ended(),
        game.reset_to(grid).session.high_score == game.session.high_score,
        game.reset_to(grid).pose.state == game.pose.state,
        game.reset_to(grid).pose.angle == game.pose.angle,
{
}

/// The grid, the cube and the session of one game.
#[derive(Debug)]
pub struct Game {
    grid: Grid,
    pose: CubePose,
    session: Session,
}

impl View for Game {
    type V = GameModel;

    closed spec fn view(&self) -> GameModel {
        GameModel { grid: self.grid@, pose: self.pose@, session: self.session@ }
    }
}

impl Game {
    /// The invariant of a game: its model is well formed and so is each part.
    pub closed spec fn wf(&self) -> bool {
        &&& self@.wf()
        &&& self.grid.wf()
        &&& self.pose.wf()
        &&& self.session.wf()
    }

    /// A well-formed game has a well-formed model, and its counters fit
    /// their machine types.
    pub proof fn lemma_wf_model(&self)
        requires
            self.wf(),
        ensures
            self@.wf(),
            self@.session.move_count <= i32::MAX,
            self@.grid.size <= i32::MAX,
    {
    }

    /// Sets up a game on a grid of side `grid_size` freshly populated from
    /// `seed`, with the move limit that goes with that size.
    ///
    /// A grid size that is not positive is refused first, then a roll speed
    /// that is not positive. The limits on the other arguments bind only
    /// where neither is refused.
    pub fn new(grid_size: i32, colour_count: i32, roll_speed: i32, seed: u64) -> (made: Result<
        Game,
        ConfigError,
    >)
        requires
            0 < grid_size && 0 < roll_speed ==> {
                &&& 0 <= colour_count < i32::MAX
                &&& grid_size * grid_size <= usize::MAX
                &&& move_limit_of(grid_size as int) <= i32::MAX
            },
        ensures
            made.is_ok() <==> 0 < grid_size && 0 < roll_speed,
            made.is_err() ==> made.unwrap_err() == if grid_size <= 0 {
                ConfigError::InvalidGridSize
            } else {
                ConfigError::InvalidRollSpeed
            },
            made.is_ok() ==> {
                &&& made.unwrap().wf()
                &&& made.unwrap()@.grid.wf()
                &&& made.unwrap()@.grid.size == grid_size
                &&& made.unwrap()@.grid.colours == colour_count
                &&& made.unwrap()@ == GameModel::initial(
                    made.unwrap()@.grid,
                    roll_speed as int,
                    move_limit_of(grid_size as int),
                )
            },
    {
        if grid_size <= 0 {
            return Err(ConfigError::InvalidGridSize);
        }
        if roll_speed <= 0 {
            return Err(ConfigError::InvalidRollSpeed);
        }
        let grid = populate_grid(grid_size, colour_count, seed);
        Game::with_grid(grid, roll_speed, move_limit_for(grid_size))
    }

    /// Sets up a game on a given grid with a given move limit. A roll speed
    /// that is not positive is refused.
    pub fn with_grid(grid: Grid, roll_speed: i32, move_limit: i32) -> (made: Result<
        Game,
        ConfigError,
    >)
        requires
            grid.wf(),
        ensures
            made.is_ok() <==> 0 < roll_speed,
            made.is_err() ==> made.unwrap_err() == ConfigError::InvalidRollSpeed,
            made.is_ok() ==> made.unwrap().wf() && made.unwrap()@ == GameModel::initial(
                grid@,
                roll_speed as int,
                move_limit as int,
            ),
    {
        match CubePose::new(roll_speed) {
            Err(refused) => Err(refused),
            Ok(pose) => Ok(Game { grid, pose, session: Session::new(move_limit) }),
        }
    }

    /// Replaces the grid and starts the session over: the move count and the
    /// end of the game are cleared, and the cube and the camera track go back
    /// to the origin. The best score stays, and a move in flight is not
    /// cancelled.
    pub fn reset_with(&mut self, grid: Grid)
        requires
            old(self).wf(),
            grid.wf(),
            grid@.size == old(self)@.grid.size,
        ensures
            final(self).wf(),
            final(self)@ == old(self)@.reset_to(grid@),
    {
        proof {
            lemma_reset_keeps_wf(self@, grid@);
        }
        self.session.reset();
        self.pose.recentre();
        self.grid = grid;
    }

    /// Starts the session over on a grid of the same size and colour count,
    /// freshly populated from `seed`.
    pub fn reset(&mut self, seed: u64)
        requires
            old(self).wf(),
        ensures
            final(self).wf(),
            final(self)@.grid.wf(),
            final(self)@.grid.size == old(self)@.grid.size,
            final(self)@.grid.colours == old(self)@.grid.colours,
            final(self)@ == old(self)@.reset_to(final(self)@.grid),
    {
        let grid = populate_grid(self.grid.size(), self.grid.colour_count(), seed);
        self.reset_with(grid);
    }

    /// Runs one frame without looking at the reset signal: the arbiter may
    /// begin a move, the cube turns by one increment, and if that ended a
    /// move the move is counted and the tile under the cube is visited. Then
    /// the end of the game is looked for.
    pub fn play_frame(&mut self, input: InputSignals) -> (report: FrameReport)
        requires
            old(self).wf(),
            old(self)@.session.move_count < i32::MAX,
        ensures
            final(self).wf(),
            final(self)@ == old(self)@.after_frame(input),
            report == old(self)@.report(input),
    {
        proof {
            lemma_frame_keeps_wf(self@, input);
        }
        let size = self.grid.size();
        let ended = self.session.end_flag();
        let pick = choose_move(size, &self.pose, ended, input);
        if let Some(dir) = pick {
            proof {
                lemma_neighbour_is_on_grid(size as int, self@.pose.x, self@.pose.z, dir);
            }
            self.pose.start(dir);
        }
        let completed = self.pose.advance();
        if completed {
            self.session.record_move_completed();
            let x = self.pose.x_offset();
            let z = self.pose.z_offset();
            self.grid.toggle_at(x, z);
        }
        let end = self.session.settle(&self.grid);
        FrameReport { started: pick, completed, end }
    }

    /// Runs one frame. Where the reset signal is set, the session first
    /// starts over on a grid freshly populated from `seed`; the rest of the
    /// frame is `play_frame`. Without the reset signal the seed is not used.
    pub fn frame(&mut self, input: InputSignals, seed: u64) -> (report: FrameReport)
        requires
            old(self).wf(),
            !input.reset_pressed ==> old(self)@.session.move_count < i32::MAX,
        ensures
            final(self).wf(),
            !input.reset_pressed ==> final(self)@ == old(self)@.after_frame(input) && report
                == old(self)@.report(input),
            input.reset_pressed ==> exists|fresh: GridModel|
                {
                    &&& #[trigger] fresh.wf()
                    &&& fresh.size == old(self)@.grid.size
                    &&& fresh.colours == old(self)@.grid.colours
                    &&& final(self)@ == old(self)@.reset_to(fresh).after_frame(input)
                    &&& report == old(self)@.reset_to(fresh).report(input)
                },
    {
        if input.reset_pressed {
            self.reset(seed);
            let ghost fresh = self@.grid;
            let report = self.play_frame(input);
            assert(fresh.wf() && self@ == old(self)@.reset_to(fresh).after_frame(input));
            report
        } else {
            self.play_frame(input)
        }
    }

    /// Changes the number of increments per quarter turn for the moves that
    /// begin from now on. A number that is not positive is refused and
    /// changes nothing.
    pub fn set_roll_speed(&mut self, roll_speed: i32) -> (done: Result<(), ConfigError>)
        requires
            old(self).wf(),
        ensures
            final(self).wf(),
            done.is_ok() <==> 0 < roll_speed,
            done.is_ok() ==> final(self)@ == (GameModel {
                pose: PoseModel { roll_speed: roll_speed as int, ..old(self)@.pose },
                ..old(self)@
            }),
            done.is_err() ==> done.unwrap_err() == ConfigError::InvalidRollSpeed && final(self)@
                == old(self)@,
    {
        self.pose.set_roll_speed(roll_speed)
    }

    /// The grid, for drawing.
    pub fn grid(&self) -> (grid: &Grid)
        requires
            self.wf(),
        ensures
            grid@ == self@.grid,
            grid.wf(),
    {
        &self.grid
    }

    /// The cube's pose, for drawing.
    pub fn pose(&self) -> (pose: &CubePose)
        requires
            self.wf(),
        ensures
            pose@ == self@.pose,
            pose.wf(),
    {
        &self.pose
    }

    /// The session's counters, for the score display.
    pub fn session(&self) -> (session: &Session)
        requires
            self.wf(),
        ensures
            session@ == self@.session,
            session.wf(),
    {
        &self.session
    }
}

} // verus!
