//! Game logic of a rolling-cube puzzle: a cube rolls over a square grid of
//! tiles, one quarter turn per move, and toggles the tile it lands on.
//!
//! The crate holds the state machine only. Rendering, the camera and the
//! keyboard live with the caller, which hands in one `InputSignals` value per
//! frame and reads the state back through the getters.

pub mod config;
pub mod grid;
mod random;
pub mod roll;
pub mod arbiter;
pub mod session;
pub mod game;
