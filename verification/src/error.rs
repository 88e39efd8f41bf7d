//! The error of this library.

use vstd::prelude::*;

verus! {

/// Why a game could not be set up.
#[derive(Clone, Copy, Debug, PartialEq, Eq, Structural)]
pub enum GameError {
    /// The configuration describes no playable game: a field dimension that is
    /// not positive, a snake without segments, a start outside the field, a
    /// tail that leaves the range of coordinates, or no free cell for the food.
    InvalidConfig,
}

impl GameError {
    /// A short description for messages.
    pub fn message(&self) -> (text: &'static str)
        ensures
            text@ == "invalid configuration"@,
    {
        "invalid configuration"
    }
}

} // verus!
