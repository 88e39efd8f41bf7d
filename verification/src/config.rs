//! What a session is set up with, and when a game can be played with it.

use crate::field::FieldView;
use crate::food::has_free_cell;
use crate::grid::BoundaryPolicy;
use crate::grid::GridPosition;
use crate::snake::SnakeView;
use vstd::prelude::*;

verus! {

/// What a session is set up with. The window size is for the program that
/// draws the game, the tick interval for the loop that drives it; the rest
/// describes the game itself.
#[derive(Clone, Copy, Debug, PartialEq, Eq, Structural)]
pub struct Config {
    /// Width of the window, in pixels.
    pub window_width: u32,
    /// Height of the window, in pixels.
    pub window_height: u32,
    /// Number of columns of the field.
    pub field_width: u32,
    /// Number of rows of the field.
    pub field_height: u32,
    /// Column in which the head starts.
    pub start_x: i32,
    /// Row in which the snake starts.
    pub start_y: i32,
    /// Number of segments of a fresh snake.
    pub initial_length: u32,
    /// Time between two ticks, in milliseconds.
    pub tick_interval_ms: u64,
    /// What happens at the edges of the field.
    pub boundary: BoundaryPolicy,
}

impl Config {
    /// The configuration of a standard game: a window of 1360 by 960 pixels,
    /// a field of 60 by 40 cells whose edges wrap around, a snake of ten
    /// segments that starts at column 10 of row 20, and a tick every 50
    /// milliseconds.
    pub open spec fn standard() -> Config {
        Config {
            window_width: 1360,
            window_height: 960,
            field_width: 60,
            field_height: 40,
            start_x: 10,
            start_y: 20,
            initial_length: 10,
            tick_interval_ms: 50,
            boundary: BoundaryPolicy::Wrap,
        }
    }

    /// The configuration of a standard game.
    pub fn new() -> (config: Config)
        ensures
            config == Config::standard(),
    {
        Config {
            window_width: 1360,
            window_height: 960,
            field_width: 60,
            field_height: 40,
            start_x: 10,
            start_y: 20,
            initial_length: 10,
            tick_interval_ms: 50,
            boundary: BoundaryPolicy::Wrap,
        }
    }

    /// The field that the configuration describes.
    pub open spec fn field(self) -> FieldView {
        FieldView {
            width: self.field_width as int,
            height: self.field_height as int,
            policy: self.boundary,
        }
    }

    /// The cell in which the head starts.
    pub open spec fn start(self) -> GridPosition {
        GridPosition { x: self.start_x, y: self.start_y }
    }

    /// The snake that a game starts with.
    pub open spec fn initial_snake(self) -> SnakeView {
        SnakeView::initial(self.start_x as int, self.start_y as int, self.initial_length as nat)
    }

    /// The dimensions of the field are positive and small enough to be
    /// coordinates, the snake has a segment, its head starts inside the
    /// field, and its tail end stays within the range of coordinates.
    pub open spec fn valid(self) -> bool {
        &&& self.field().wf()
        &&& self.initial_length >= 1
        &&& self.field().contains(self.start())
        &&& self.start_x - (self.initial_length - 1) >= i32::MIN
    }

    /// A game can be played with this configuration: it is valid, and the
    /// fresh snake leaves a cell of the field free for the food.
    pub open spec fn playable(self) -> bool {
        &&& self.valid()
        &&& has_free_cell(self.field(), self.initial_snake().segments)
    }
}

} // verus!
