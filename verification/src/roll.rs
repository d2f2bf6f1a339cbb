//! The roll state machine: the cube's cell, the quarter turn in flight and
//! the rule by which one frame advances it.
//!
//! Angles are counted in increments. A quarter turn is `sweep` increments,
//! where `sweep` is the roll speed that was in force when the move began, so
//! the angle in radians is `angle / sweep` of a quarter turn.

use vstd::prelude::*;
use crate::config::ConfigError;

verus! {

/// One of the four ways the cube can roll.
#[derive(Clone, Copy, Debug, PartialEq, Eq, Structural)]
pub enum Direction {
    Up,
    Down,
    Right,
    Left,
}

/// What the cube is doing.
#[derive(Clone, Copy, Debug, PartialEq, Eq, Structural)]
pub enum RollState {
    Idle,
    RollingUp,
    RollingDown,
    RollingLeft,
    RollingRight,
}

/// The rolling state that belongs to a direction.
pub open spec fn rolling(dir: Direction) -> RollState {
    match dir {
        Direction::Up => RollState::RollingUp,
        Direction::Down => RollState::RollingDown,
        Direction::Right => RollState::RollingRight,
        Direction::Left => RollState::RollingLeft,
    }
}

/// Change of the `x` offset by one move in the given direction.
pub open spec fn x_step(dir: Direction) -> int {
    match dir {
        Direction::Up => 1,
        Direction::Down => -1,
        _ => 0,
    }
}

/// Change of the `z` offset by one move in the given direction.
pub open spec fn z_step(dir: Direction) -> int {
    match dir {
        Direction::Left => 1,
        Direction::Right => -1,
        _ => 0,
    }
}

/// Down and Left sweep their angle backwards: the offset moves when the
/// roll begins. Up and Right move it when the roll ends.
pub open spec fn moves_at_start(dir: Direction) -> bool {
    dir == Direction::Down || dir == Direction::Left
}

/// The cube's pose as a mathematical value.
pub struct PoseModel {
    pub x: int,
    pub z: int,
    pub state: RollState,
    /// How far the cube is turned away from resting on the cell that the
    /// offsets name, in increments.
    pub angle: int,
    /// Increments per quarter turn of the move in flight.
    pub sweep: int,
    /// Increments per quarter turn of the moves to come.
    pub roll_speed: int,
    /// The lead that the last recentring took out of the camera track, in
    /// increments of which `lag_sweep` make a cell.
    pub lag_x: int,
    pub lag_z: int,
    pub lag_sweep: int,
}

impl PoseModel {
    pub open spec fn wf(self) -> bool {
        &&& 0 < self.sweep
        &&& 0 < self.roll_speed
        &&& 0 < self.lag_sweep
        &&& 0 <= self.angle <= self.sweep
        &&& 0 <= self.lag_x <= self.lag_sweep
        &&& 0 <= self.lag_z <= self.lag_sweep
        &&& self.state == RollState::Idle ==> self.angle == 0
        &&& (self.state == RollState::RollingUp || self.state == RollState::RollingRight)
            ==> self.angle < self.sweep
        &&& (self.state == RollState::RollingDown || self.state == RollState::RollingLeft)
            ==> 0 < self.angle
    }

    /// A cube at rest on the origin.
    pub open spec fn at_rest(roll_speed: int) -> PoseModel {
        PoseModel {
            x: 0,
            z: 0,
            state: RollState::Idle,
            angle: 0,
            sweep: roll_speed,
            roll_speed,
            lag_x: 0,
            lag_z: 0,
            lag_sweep: roll_speed,
        }
    }

    /// The pose right after a move in `dir` has begun.
    pub open spec fn started(self, dir: Direction) -> PoseModel {
        PoseModel {
            x: if dir == Direction::Down {
                self.x - 1
            } else {
                self.x
            },
            z: if dir == Direction::Left {
                self.z + 1
            } else {
                self.z
            },
            state: rolling(dir),
            angle: if moves_at_start(dir) {
                self.roll_speed
            } else {
                0
            },
            sweep: self.roll_speed,
            ..self
        }
    }

    /// Whether the next increment ends the move in flight.
    pub open spec fn completes(self) -> bool {
        match self.state {
            RollState::Idle => false,
            RollState::RollingUp | RollState::RollingRight => self.angle + 1 >= self.sweep,
            RollState::RollingDown | RollState::RollingLeft => self.angle - 1 <= 0,
        }
    }

    /// The pose one increment later.
    pub open spec fn advanced(self) -> PoseModel {
        match self.state {
            RollState::Idle => self,
            RollState::RollingUp => if self.completes() {
                PoseModel { x: self.x + 1, state: RollState::Idle, angle: 0, ..self }
            } else {
                PoseModel { angle: self.angle + 1, ..self }
            },
            RollState::RollingRight => if self.completes() {
                PoseModel { z: self.z - 1, state: RollState::Idle, angle: 0, ..self }
            } else {
                PoseModel { angle: self.angle + 1, ..self }
            },
            RollState::RollingDown | RollState::RollingLeft => if self.completes() {
                PoseModel { state: RollState::Idle, angle: 0, ..self }
            } else {
                PoseModel { angle: self.angle - 1, ..self }
            },
        }
    }

    /// The pose `steps` increments later.
    pub open spec fn advanced_by(self, steps: nat) -> PoseModel
        decreases steps,
    {
        if steps == 0 {
            self
        } else {
            self.advanced_by((steps - 1) as nat).advanced()
        }
    }

    /// Increments by which the camera track leads the `x` offset.
    pub open spec fn lead_x(self) -> int {
        if self.state == RollState::RollingUp || self.state == RollState::RollingDown {
            self.angle
        } else {
            0
        }
    }

    /// Increments by which the camera track trails the `z` offset.
    pub open spec fn lead_z(self) -> int {
        if self.state == RollState::RollingLeft || self.state == RollState::RollingRight {
            self.angle
        } else {
            0
        }
    }

    /// The pose after the cube has been put back on the origin. A move in
    /// flight goes on from there; the camera track restarts at zero.
    pub open spec fn recentred(self) -> PoseModel {
        PoseModel {
            x: 0,
            z: 0,
            lag_x: self.lead_x(),
            lag_z: self.lead_z(),
            lag_sweep: self.sweep,
            ..self
        }
    }

    /// The smoothed `x` offset, multiplied by `sweep * lag_sweep`.
    pub open spec fn smooth_x_scaled(self) -> int {
        (self.x * self.sweep + self.lead_x()) * self.lag_sweep - self.lag_x * self.sweep
    }

    /// The smoothed `z` offset, multiplied by `sweep * lag_sweep`.
    pub open spec fn smooth_z_scaled(self) -> int {
        (self.z * self.sweep - self.lead_z()) * self.lag_sweep + self.lag_z * self.sweep
    }
}

/// A camera-follow offset along one axis, in cells:
/// `whole + lead / lead_sweep - lag / lag_sweep`. During a move it changes by
/// `1 / lead_sweep` per frame, towards where the cube is going.
#[derive(Clone, Copy, Debug, PartialEq, Eq, Structural)]
pub struct SmoothOffset {
    pub whole: i32,
    pub lead: i32,
    pub lead_sweep: i32,
    pub lag: i32,
    pub lag_sweep: i32,
}

/// The cube's cell, its roll state and the angle of the quarter turn in
/// flight.
#[derive(Clone, Copy, Debug)]
pub struct CubePose {
    x_offset: i32,
    z_offset: i32,
    state: RollState,
    angle: i32,
    sweep: i32,
    roll_speed: i32,
    lag_x: i32,
    lag_z: i32,
    lag_sweep: i32,
}

impl View for CubePose {
    type V = PoseModel;

    closed spec fn view(&self) -> PoseModel {
        PoseModel {
            x: self.x_offset as int,
            z: self.z_offset as int,
            state: self.state,
            angle: self.angle as int,
            sweep: self.sweep as int,
            roll_speed: self.roll_speed as int,
            lag_x: self.lag_x as int,
            lag_z: self.lag_z as int,
            lag_sweep: self.lag_sweep as int,
        }
    }
}

impl CubePose {
    /// The model is well formed, and a move that still has to shift the
    /// offset has room to do so.
    pub open spec fn wf(&self) -> bool {
        &&& self@.wf()
        &&& i32::MIN <= self@.x <= i32::MAX
        &&& i32::MIN <= self@.z <= i32::MAX
        &&& self@.sweep <= i32::MAX
        &&& self@.roll_speed <= i32::MAX
        &&& self@.lag_sweep <= i32::MAX
        &&& self@.state == RollState::RollingUp ==> self@.x < i32::MAX
        &&& self@.state == RollState::RollingRight ==> i32::MIN < self@.z
    }

    /// Whether the offset that a move in `dir` leads to can be represented.
    pub open spec fn has_room(&self, dir: Direction) -> bool {
        match dir {
            Direction::Up => self@.x < i32::MAX,
            Direction::Down => i32::MIN < self@.x,
            Direction::Right => i32::MIN < self@.z,
            Direction::Left => self@.z < i32::MAX,
        }
    }

    /// A cube at rest on the origin that will take `roll_speed` increments
    /// for each quarter turn.
    pub fn new(roll_speed: i32) -> (made: Result<CubePose, ConfigError>)
        ensures
            made.is_ok() <==> 0 < roll_speed,
            made.is_ok() ==> made.unwrap().wf() && made.unwrap()@ == PoseModel::at_rest(
                roll_speed as int,
            ),
            made.is_err() ==> made.unwrap_err() == ConfigError::InvalidRollSpeed,
    {
        if roll_speed <= 0 {
            return Err(ConfigError::InvalidRollSpeed);
        }
        Ok(
            CubePose {
                x_offset: 0,
                z_offset: 0,
                state: RollState::Idle,
                angle: 0,
                sweep: roll_speed,
                roll_speed,
                lag_x: 0,
                lag_z: 0,
                lag_sweep: roll_speed,
            },
        )
    }

    /// Changes the number of increments per quarter turn. A move in flight
    /// keeps the number it began with; the next one takes the new number.
    /// A number that is not positive is refused and changes nothing.
    pub fn set_roll_speed(&mut self, roll_speed: i32) -> (done: Result<(), ConfigError>)
        requires
            old(self).wf(),
        ensures
            final(self).wf(),
            done.is_ok() <==> 0 < roll_speed,
            done.is_ok() ==> final(self)@ == (PoseModel {
                roll_speed: roll_speed as int,
                ..old(self)@
            }),
            done.is_err() ==> done.unwrap_err() == ConfigError::InvalidRollSpeed && final(self)@
                == old(self)@,
    {
        if roll_speed <= 0 {
            return Err(ConfigError::InvalidRollSpeed);
        }
        self.roll_speed = roll_speed;
        Ok(())
    }

    /// Begins a move in `dir` if the cube is at rest, and says whether it
    /// did. Down and Left shift the offset at once and start at the far end
    /// of the sweep; Up and Right start at zero and shift on completion.
    pub fn start(&mut self, dir: Direction) -> (started: bool)
        requires
            old(self).wf(),
            old(self).has_room(dir),
        ensures
            final(self).wf(),
            started == (old(self)@.state == RollState::Idle),
            started ==> final(self)@ == old(self)@.started(dir),
            !started ==> final(self)@ == old(self)@,
    {
        if self.state != RollState::Idle {
            return false;
        }
        self.sweep = self.roll_speed;
        match dir {
            Direction::Up => {
                self.state = RollState::RollingUp;
                self.angle = 0;
            },
            Direction::Down => {
                self.state = RollState::RollingDown;
                self.angle = self.roll_speed;
                self.x_offset = self.x_offset - 1;
            },
            Direction::Right => {
                self.state = RollState::RollingRight;
                self.angle = 0;
            },
            Direction::Left => {
                self.state = RollState::RollingLeft;
                self.angle = self.roll_speed;
                self.z_offset = self.z_offset + 1;
            },
        }
        true
    }

    /// Turns the cube by one increment and says whether that ended the move
    /// in flight. A cube at rest stays as it is.
    pub fn advance(&mut self) -> (completed: bool)
        requires
            old(self).wf(),
        ensures
            final(self).wf(),
            final(self)@ == old(self)@.advanced(),
            completed == old(self)@.completes(),
            completed ==> final(self)@.state == RollState::Idle,
            final(self).has_room(Direction::Up) || final(self)@.state != RollState::RollingUp,
    {
        match self.state {
            RollState::Idle => false,
            RollState::RollingUp => {
                if self.angle + 1 >= self.sweep {
                    self.angle = 0;
                    self.state = RollState::Idle;
                    self.x_offset = self.x_offset + 1;
                    true
                } else {
                    self.angle = self.angle + 1;
                    false
                }
            },
            RollState::RollingRight => {
                if self.angle + 1 >= self.sweep {
                    self.angle = 0;
                    self.state = RollState::Idle;
                    self.z_offset = self.z_offset - 1;
                    true
                } else {
                    self.angle = self.angle + 1;
                    false
                }
            },
            RollState::RollingDown | RollState::RollingLeft => {
                if self.angle - 1 <= 0 {
                    self.angle = 0;
                    self.state = RollState::Idle;
                    true
                } else {
                    self.angle = self.angle - 1;
                    false
                }
            },
        }
    }

    /// Puts the cube back on the origin and restarts the camera track at
    /// zero. A move in flight is not cancelled.
    pub fn recentre(&mut self)
        requires
            old(self).wf(),
        ensures
            final(self).wf(),
            final(self)@ == old(self)@.recentred(),
            final(self)@.smooth_x_scaled() == 0,
            final(self)@.smooth_z_scaled() == 0,
    {
        let on_x = self.state == RollState::RollingUp || self.state == RollState::RollingDown;
        let on_z = self.state == RollState::RollingLeft || self.state == RollState::RollingRight;
        self.x_offset = 0;
        self.z_offset = 0;
        self.lag_x = if on_x {
            self.angle
        } else {
            0
        };
        self.lag_z = if on_z {
            self.angle
        } else {
            0
        };
        self.lag_sweep = self.sweep;
        proof {
            let m = self@;
            assert(m.lead_x() * m.lag_sweep - m.lag_x * m.sweep == 0) by (nonlinear_arith)
                requires
                    m.lead_x() == m.lag_x,
                    m.lag_sweep == m.sweep,
            ;
            assert(m.lead_z() * m.lag_sweep - m.lag_z * m.sweep == 0) by (nonlinear_arith)
                requires
                    m.lead_z() == m.lag_z,
                    m.lag_sweep == m.sweep,
            ;
            assert((0 * m.sweep + m.lead_x()) * m.lag_sweep == m.lead_x() * m.lag_sweep)
                by (nonlinear_arith);
            assert((0 * m.sweep - m.lead_z()) * m.lag_sweep == -(m.lead_z() * m.lag_sweep))
                by (nonlinear_arith);
        }
    }

    /// The cube's `x` offset, matched against a tile's column.
    pub fn x_offset(&self) -> (x: i32)
        ensures
            x == self@.x,
    {
        self.x_offset
    }

    /// The cube's `z` offset, matched against a tile's row.
    pub fn z_offset(&self) -> (z: i32)
        ensures
            z == self@.z,
    {
        self.z_offset
    }

    pub fn state(&self) -> (state: RollState)
        ensures
            state == self@.state,
    {
        self.state
    }

    /// Whether a new move may begin.
    pub fn is_idle(&self) -> (idle: bool)
        ensures
            idle == (self@.state == RollState::Idle),
    {
        self.state == RollState::Idle
    }

    /// The angle of the move in flight, in increments.
    pub fn angle_steps(&self) -> (angle: i32)
        ensures
            angle == self@.angle,
    {
        self.angle
    }

    /// Increments per quarter turn of the move in flight.
    pub fn sweep_steps(&self) -> (sweep: i32)
        ensures
            sweep == self@.sweep,
    {
        self.sweep
    }

    /// Increments per quarter turn of the moves to come.
    pub fn roll_speed(&self) -> (roll_speed: i32)
        ensures
            roll_speed == self@.roll_speed,
    {
        self.roll_speed
    }

    /// The camera-follow offset along `x`.
    pub fn smooth_x(&self) -> (track: SmoothOffset)
        ensures
            track == (SmoothOffset {
                whole: self@.x as i32,
                lead: self@.lead_x() as i32,
                lead_sweep: self@.sweep as i32,
                lag: self@.lag_x as i32,
                lag_sweep: self@.lag_sweep as i32,
            }),
    {
        let on_x = self.state == RollState::RollingUp || self.state == RollState::RollingDown;
        SmoothOffset {
            whole: self.x_offset,
            lead: if on_x {
                self.angle
            } else {
                0
            },
            lead_sweep: self.sweep,
            lag: self.lag_x,
            lag_sweep: self.lag_sweep,
        }
    }

    /// The camera-follow offset along `z`. Its lead and lag are negative or
    /// zero, because the angle runs against the `z` axis.
    pub fn smooth_z(&self) -> (track: SmoothOffset)
        requires
            self.wf(),
        ensures
            track == (SmoothOffset {
                whole: self@.z as i32,
                lead: (-self@.lead_z()) as i32,
                lead_sweep: self@.sweep as i32,
                lag: (-self@.lag_z) as i32,
                lag_sweep: self@.lag_sweep as i32,
            }),
    {
        let on_z = self.state == RollState::RollingLeft || self.state == RollState::RollingRight;
        SmoothOffset {
            whole: self.z_offset,
            lead: if on_z {
                -self.angle
            } else {
                0
            },
            lead_sweep: self.sweep,
            lag: -self.lag_z,
            lag_sweep: self.lag_sweep,
        }
    }
}

/// While a move is in flight and `steps` increments have passed, the angle
/// and the offsets are these.
proof fn lemma_move_in_flight(rest: PoseModel, dir: Direction, steps: nat)
    requires
        rest.wf(),
        rest.state == RollState::Idle,
        steps < rest.roll_speed,
    ensures
        rest.started(dir).advanced_by(steps) == (PoseModel {
            angle: if moves_at_start(dir) {
                rest.roll_speed - steps
            } else {
                steps as int
            },
            ..rest.started(dir)
        }),
    decreases steps,
{
    if steps > 0 {
        lemma_move_in_flight(rest, dir, (steps - 1) as nat);
    }
}

/// A move that begins at rest is in flight for exactly `roll_speed`
/// increments: before the last of them the cube is still rolling in the
/// direction it began with, the last one completes the move and returns the
/// cube to rest. Over the whole move the offset changes once, by one cell
/// along the axis of the direction: when the move begins for Down and Left,
/// when it ends for Up and Right.
pub proof fn lemma_move_takes_roll_speed_steps(rest: PoseModel, dir: Direction, steps: nat)
    requires
        rest.wf(),
        rest.state == RollState::Idle,
        steps <= rest.roll_speed,
    ensures
        steps < rest.roll_speed ==> rest.started(dir).advanced_by(steps).state == rolling(dir),
        steps < rest.roll_speed ==> (rest.started(dir).advanced_by(steps).completes() <==> steps
            + 1 == rest.roll_speed),
        steps == rest.roll_speed ==> rest.started(dir).advanced_by(steps).state
            == RollState::Idle,
        steps == rest.roll_speed ==> rest.started(dir).advanced_by(steps).angle == 0,
        rest.started(dir).advanced_by(steps).x == if steps == rest.roll_speed || moves_at_start(
            dir,
        ) {
            rest.x + x_step(dir)
        } else {
            rest.x
        },
        rest.started(dir).advanced_by(steps).z == if steps == rest.roll_speed || moves_at_start(
            dir,
        ) {
            rest.z + z_step(dir)
        } else {
            rest.z
        },
        rest.started(dir).advanced_by(steps).wf(),
{
    if steps < rest.roll_speed {
        lemma_move_in_flight(rest, dir, steps);
    } else {
        lemma_move_in_flight(rest, dir, (steps - 1) as nat);
    }
}

/// During a move the camera track moves by one increment per step, that is
/// by `1 / sweep` of a cell, towards where the cube is going: up the `x`
/// axis for Up, down it for Down, up the `z` axis for Left and down it for
/// Right. (Both sides are scaled by `sweep * lag_sweep`.)
pub proof fn lemma_camera_track_step(pose: PoseModel)
    requires
        pose.wf(),
        pose.state != RollState::Idle,
    ensures
        pose.advanced().smooth_x_scaled() - pose.smooth_x_scaled() == pose.lag_sweep * (
        match pose.state {
            RollState::RollingUp => 1int,
            RollState::RollingDown => -1int,
            _ => 0int,
        }),
        pose.advanced().smooth_z_scaled() - pose.smooth_z_scaled() == pose.lag_sweep * (
        match pose.state {
            RollState::RollingLeft => 1int,
            RollState::RollingRight => -1int,
            _ => 0int,
        }),
{
    let next = pose.advanced();
    let dx = (next.x * next.sweep + next.lead_x()) - (pose.x * pose.sweep + pose.lead_x());
    let dz = (next.z * next.sweep - next.lead_z()) - (pose.z * pose.sweep - pose.lead_z());
    assert((pose.x + 1) * pose.sweep == pose.x * pose.sweep + pose.sweep) by (nonlinear_arith);
    assert((pose.z - 1) * pose.sweep == pose.z * pose.sweep - pose.sweep) by (nonlinear_arith);
    assert(next.smooth_x_scaled() - pose.smooth_x_scaled() == dx * pose.lag_sweep)
        by (nonlinear_arith)
        requires
            next.lag_sweep == pose.lag_sweep,
            next.lag_x == pose.lag_x,
            next.sweep == pose.sweep,
            next.smooth_x_scaled() == (next.x * next.sweep + next.lead_x()) * next.lag_sweep
                - next.lag_x * next.sweep,
            pose.smooth_x_scaled() == (pose.x * pose.sweep + pose.lead_x()) * pose.lag_sweep
                - pose.lag_x * pose.sweep,
            dx == (next.x * next.sweep + next.lead_x()) - (pose.x * pose.sweep + pose.lead_x()),
    ;
    assert(next.smooth_z_scaled() - pose.smooth_z_scaled() == dz * pose.lag_sweep)
        by (nonlinear_arith)
        requires
            next.lag_sweep == pose.lag_sweep,
            next.lag_z == pose.lag_z,
            next.sweep == pose.sweep,
            next.smooth_z_scaled() == (next.z * next.sweep - next.lead_z()) * next.lag_sweep
                + next.lag_z * next.sweep,
            pose.smooth_z_scaled() == (pose.z * pose.sweep - pose.lead_z()) * pose.lag_sweep
                + pose.lag_z * pose.sweep,
            dz == (next.z * next.sweep - next.lead_z()) - (pose.z * pose.sweep - pose.lead_z()),
    ;
    assert(dx * pose.lag_sweep == pose.lag_sweep * dx) by (nonlinear_arith);
    assert(dz * pose.lag_sweep == pose.lag_sweep * dz) by (nonlinear_arith);
}

} // verus!
