//! The move arbiter: which move, if any, begins in a frame.
//!
//! A move may begin only while the cube is at rest, the game has not ended
//! and the move would leave the cube on the grid. Where several keys are
//! down, the first that may begin wins, in the order Up, Down, Right, Left;
//! the others are dropped, not kept for a later frame.

use vstd::prelude::*;
use crate::grid::in_range;
use crate::roll::{
    lemma_move_takes_roll_speed_steps,
    x_step,
    z_step,
    CubePose,
    Direction,
    PoseModel,
    RollState,
};

verus! {

/// The keys as sampled once in a frame. `reset_pressed` is read by the game,
/// not by the arbiter.
#[derive(Clone, Copy, Debug, PartialEq, Eq, Structural)]
pub struct InputSignals {
    pub up_down: bool,
    pub down_down: bool,
    pub right_down: bool,
    pub left_down: bool,
    pub reset_pressed: bool,
}

/// Whether the key of `dir` is down.
pub open spec fn pressed(input: InputSignals, dir: Direction) -> bool {
    match dir {
        Direction::Up => input.up_down,
        Direction::Down => input.down_down,
        Direction::Right => input.right_down,
        Direction::Left => input.left_down,
    }
}

/// Whether a cube at offsets `(x, z)` has a tile next to it in `dir`.
pub open spec fn has_neighbour(size: int, x: int, z: int, dir: Direction) -> bool {
    match dir {
        Direction::Up => x < size / 2,
        Direction::Down => x > -(size / 2) - (size % 2 - 1),
        Direction::Right => z > -(size / 2),
        Direction::Left => z < (size / 2) + (size % 2 - 1),
    }
}

/// Whether a move in `dir` may begin.
pub open spec fn startable(size: int, pose: PoseModel, ended: bool, dir: Direction) -> bool {
    &&& pose.state == RollState::Idle
    &&& !ended
    &&& has_neighbour(size, pose.x, pose.z, dir)
}

/// Whether the key of `dir` is down and its move may begin.
pub open spec fn wanted(
    size: int,
    pose: PoseModel,
    ended: bool,
    input: InputSignals,
    dir: Direction,
) -> bool {
    pressed(input, dir) && startable(size, pose, ended, dir)
}

/// The move that begins in a frame with this input.
pub open spec fn chosen(size: int, pose: PoseModel, ended: bool, input: InputSignals) -> Option<
    Direction,
> {
    if wanted(size, pose, ended, input, Direction::Up) {
        Some(Direction::Up)
    } else if wanted(size, pose, ended, input, Direction::Down) {
        Some(Direction::Down)
    } else if wanted(size, pose, ended, input, Direction::Right) {
        Some(Direction::Right)
    } else if wanted(size, pose, ended, input, Direction::Left) {
        Some(Direction::Left)
    } else {
        None
    }
}

/// Says whether a move in `dir` may begin on a grid of side `grid_size`.
pub fn can_start(grid_size: i32, pose: &CubePose, ended: bool, dir: Direction) -> (allowed: bool)
    requires
        0 < grid_size,
    ensures
        allowed == startable(grid_size as int, pose@, ended, dir),
{
    if ended || !pose.is_idle() {
        return false;
    }
    let half: i32 = grid_size / 2;
    let odd: i32 = grid_size % 2;
    match dir {
        Direction::Up => pose.x_offset() < half,
        Direction::Down => pose.x_offset() > -half - (odd - 1),
        Direction::Right => pose.z_offset() > -half,
        Direction::Left => pose.z_offset() < half + (odd - 1),
    }
}

/// Picks the move that begins in this frame: the first direction, in the
/// order Up, Down, Right, Left, whose key is down and whose move may begin.
pub fn choose_move(grid_size: i32, pose: &CubePose, ended: bool, input: InputSignals) -> (pick:
    Option<Direction>)
    requires
        0 < grid_size,
    ensures
        pick == chosen(grid_size as int, pose@, ended, input),
        pick.is_some() ==> wanted(grid_size as int, pose@, ended, input, pick.unwrap()),
        pick.is_none() ==> forall|dir: Direction|
            !wanted(grid_size as int, pose@, ended, input, dir),
{
    if input.up_down && can_start(grid_size, pose, ended, Direction::Up) {
        Some(Direction::Up)
    } else if input.down_down && can_start(grid_size, pose, ended, Direction::Down) {
        Some(Direction::Down)
    } else if input.right_down && can_start(grid_size, pose, ended, Direction::Right) {
        Some(Direction::Right)
    } else if input.left_down && can_start(grid_size, pose, ended, Direction::Left) {
        Some(Direction::Left)
    } else {
        None
    }
}

/// The boundary checks agree with the grid's coordinate range: a cube on the
/// grid has a neighbour in `dir` exactly when the cell one step in `dir` is
/// on the grid too.
pub proof fn lemma_neighbour_is_on_grid(size: int, x: int, z: int, dir: Direction)
    requires
        0 < size,
        in_range(size, z, x),
    ensures
        has_neighbour(size, x, z, dir) <==> in_range(size, z + z_step(dir), x + x_step(dir)),
{
}

/// A move that the arbiter lets begin never takes the cube off the grid:
/// at every increment of the move, and when it has come to rest, the cube's
/// offsets name a tile.
pub proof fn lemma_permitted_move_stays_on_grid(
    size: int,
    pose: PoseModel,
    ended: bool,
    dir: Direction,
    steps: nat,
)
    requires
        0 < size,
        pose.wf(),
        in_range(size, pose.z, pose.x),
        startable(size, pose, ended, dir),
        steps <= pose.roll_speed,
    ensures
        in_range(
            size,
            pose.started(dir).advanced_by(steps).z,
            pose.started(dir).advanced_by(steps).x,
        ),
        in_range(
            size,
            pose.started(dir).advanced_by(pose.roll_speed as nat).z,
            pose.started(dir).advanced_by(pose.roll_speed as nat).x,
        ),
        pose.started(dir).advanced_by(pose.roll_speed as nat).x == pose.x + x_step(dir),
        pose.started(dir).advanced_by(pose.roll_speed as nat).z == pose.z + z_step(dir),
{
    lemma_move_takes_roll_speed_steps(pose, dir, steps);
    lemma_move_takes_roll_speed_steps(pose, dir, pose.roll_speed as nat);
    lemma_neighbour_is_on_grid(size, pose.x, pose.z, dir);
}

} // verus!
