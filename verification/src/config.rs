use vstd::prelude::*;

verus! {

/// Why a game could not be set up.
#[derive(Clone, Copy, Debug, PartialEq, Eq, Structural)]
pub enum ConfigError {
    /// The grid's side length was zero or negative.
    InvalidGridSize,
    /// The number of angular increments per quarter turn was zero or negative.
    InvalidRollSpeed,
}

impl ConfigError {
    /// A short description for a log line or a dialog.
    pub fn message(&self) -> (text: &'static str)
        ensures
            text@ == (match *self {
                ConfigError::InvalidGridSize => "grid size must be positive"@,
                ConfigError::InvalidRollSpeed => "roll speed must be positive"@,
            }),
    {
        match self {
            ConfigError::InvalidGridSize => "grid size must be positive",
            ConfigError::InvalidRollSpeed => "roll speed must be positive",
        }
    }
}

} // verus!
