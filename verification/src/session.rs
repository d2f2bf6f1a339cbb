//! The session tracker: the move counter, the end of the game and the best
//! score of the process.

use vstd::prelude::*;
use crate::grid::Grid;

verus! {

/// How a session stands.
#[derive(Clone, Copy, Debug, PartialEq, Eq, Structural)]
pub enum EndState {
    Playing,
    Won,
    Lost,
}

/// The end state that a tile count and a move count call for: won when no
/// tile remains and the limit has not been reached, lost when the limit has
/// been reached and tiles remain, playing otherwise.
pub open spec fn end_state_of(remaining: int, move_count: int, move_limit: int) -> EndState {
    if remaining == 0 && move_count < move_limit {
        EndState::Won
    } else if move_count >= move_limit && remaining != 0 {
        EndState::Lost
    } else {
        EndState::Playing
    }
}

/// The move limit that goes with a grid size: twice the square of the size
/// rounded up to an even number.
pub open spec fn move_limit_of(size: int) -> int {
    (size + size % 2) * (size + size % 2) * 2
}

/// A session as a mathematical value. `high_score` is the lowest move count
/// of a won session so far, and zero while there is none.
pub struct SessionModel {
    pub move_count: int,
    pub outcome: EndState,
    pub high_score: int,
    pub move_limit: int,
}

impl SessionModel {
    pub open spec fn wf(self) -> bool {
        &&& 0 <= self.move_count
        &&& 0 <= self.high_score
    }

    /// The end-of-game flag.
    pub open spec fn ended(self) -> bool {
        self.outcome != EndState::Playing
    }

    /// A session before its first move.
    pub open spec fn fresh(move_limit: int) -> SessionModel {
        SessionModel { move_count: 0, outcome: EndState::Playing, high_score: 0, move_limit }
    }

    /// The session after one more completed move.
    pub open spec fn recorded(self) -> SessionModel {
        SessionModel { move_count: self.move_count + 1, ..self }
    }

    /// The best score once a session has been won with `self.move_count`
    /// moves.
    pub open spec fn improved_score(self) -> int {
        if self.high_score == 0 || self.high_score > self.move_count {
            self.move_count
        } else {
            self.high_score
        }
    }

    /// The session after the end of the game has been looked for with
    /// `remaining` tiles left. A session that has ended stays as it is.
    pub open spec fn settled(self, remaining: int) -> SessionModel {
        if self.ended() {
            self
        } else {
            let outcome = end_state_of(remaining, self.move_count, self.move_limit);
            SessionModel {
                outcome,
                high_score: if outcome == EndState::Won {
                    self.improved_score()
                } else {
                    self.high_score
                },
                ..self
            }
        }
    }

    /// The session after a reset: no moves, not ended, the best score kept.
    pub open spec fn restarted(self) -> SessionModel {
        SessionModel { move_count: 0, outcome: EndState::Playing, ..self }
    }
}

/// Says how a game stands with this grid, move count and move limit.
pub fn evaluate_end(grid: &Grid, move_count: i32, move_limit: i32) -> (state: EndState)
    requires
        grid.wf(),
    ensures
        state == end_state_of(grid@.remaining() as int, move_count as int, move_limit as int),
{
    let left = grid.remaining();
    if left == 0 && move_count < move_limit {
        EndState::Won
    } else if move_count >= move_limit && left != 0 {
        EndState::Lost
    } else {
        EndState::Playing
    }
}

/// The move limit for a grid of side `grid_size`.
pub fn move_limit_for(grid_size: i32) -> (limit: i32)
    requires
        0 < grid_size,
        move_limit_of(grid_size as int) <= i32::MAX,
    ensures
        limit == move_limit_of(grid_size as int),
{
    proof {
        let e = grid_size as int + grid_size as int % 2;
        assert(e <= 0x8000 && 0 <= e * e <= e * e * 2) by (nonlinear_arith)
            requires
                0 < e,
                e * e * 2 <= 0x7fff_ffff,
        ;
    }
    let even: i32 = grid_size + grid_size % 2;
    even * even * 2
}

/// Move counter, end of game and best score.
#[derive(Clone, Copy, Debug)]
pub struct Session {
    move_count: i32,
    outcome: EndState,
    high_score: i32,
    move_limit: i32,
}

impl View for Session {
    type V = SessionModel;

    closed spec fn view(&self) -> SessionModel {
        SessionModel {
            move_count: self.move_count as int,
            outcome: self.outcome,
            high_score: self.high_score as int,
            move_limit: self.move_limit as int,
        }
    }
}

impl Session {
    pub open spec fn wf(&self) -> bool {
        &&& self@.wf()
        &&& self@.move_count <= i32::MAX
    }

    /// A session before its first move, with no best score yet.
    pub fn new(move_limit: i32) -> (session: Session)
        ensures
            session.wf(),
            session@ == SessionModel::fresh(move_limit as int),
    {
        Session { move_count: 0, outcome: EndState::Playing, high_score: 0, move_limit }
    }

    /// Counts one completed move.
    pub fn record_move_completed(&mut self)
        requires
            old(self).wf(),
            old(self)@.move_count < i32::MAX,
        ensures
            final(self).wf(),
            final(self)@ == old(self)@.recorded(),
    {
        self.move_count = self.move_count + 1;
    }

    /// Looks for the end of the game. While the session has not ended, its
    /// outcome becomes what the grid and the counters call for, and a win
    /// lowers the best score to the move count (or sets it where there was
    /// none). A session that has ended keeps its outcome.
    pub fn settle(&mut self, grid: &Grid) -> (state: EndState)
        requires
            old(self).wf(),
            grid.wf(),
        ensures
            final(self).wf(),
            final(self)@ == old(self)@.settled(grid@.remaining() as int),
            state == final(self)@.outcome,
    {
        if self.outcome != EndState::Playing {
            return self.outcome;
        }
        let state = evaluate_end(grid, self.move_count, self.move_limit);
        self.outcome = state;
        if state == EndState::Won {
            if self.high_score == 0 || self.high_score > self.move_count {
                self.high_score = self.move_count;
            }
        }
        state
    }

    /// Clears the move count and the end of the game. The best score stays.
    pub fn reset(&mut self)
        requires
            old(self).wf(),
        ensures
            final(self).wf(),
            final(self)@ == old(self)@.restarted(),
    {
        self.move_count = 0;
        self.outcome = EndState::Playing;
    }

    pub fn move_count(&self) -> (count: i32)
        ensures
            count == self@.move_count,
    {
        self.move_count
    }

    /// Whether the game has ended.
    pub fn end_flag(&self) -> (ended: bool)
        ensures
            ended == self@.ended(),
    {
        self.outcome != EndState::Playing
    }

    pub fn end_state(&self) -> (state: EndState)
        ensures
            state == self@.outcome,
    {
        self.outcome
    }

    /// The lowest move count of a won session, zero while there is none.
    pub fn high_score(&self) -> (score: i32)
        ensures
            score == self@.high_score,
    {
        self.high_score
    }

    pub fn move_limit(&self) -> (limit: i32)
        ensures
            limit == self@.move_limit,
    {
        self.move_limit
    }
}

} // verus!
