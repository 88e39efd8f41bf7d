//! What comes in from the player: events as the window reports them, and the
//! intents they stand for.

use crate::direction::SnakeDirection;
use vstd::prelude::*;

verus! {

/// The keys that mean something to the game, and one value for all others.
#[derive(Clone, Copy, Debug, PartialEq, Eq, Structural)]
pub enum Key {
    Escape,
    Left,
    Right,
    Up,
    Down,
    R,
    P,
    G,
    Other,
}

/// What the window reports, as far as the game reads it.
#[derive(Clone, Copy, Debug, PartialEq, Eq, Structural)]
pub enum InputEvent {
    /// The window was asked to close.
    Quit,
    /// A key went down.
    KeyDown(Key),
    /// A key came up.
    KeyUp(Key),
    /// Anything else.
    Other,
}

/// What the player asks of the game.
#[derive(Clone, Copy, Debug, PartialEq, Eq, Structural)]
pub enum Intent {
    MoveUp,
    MoveDown,
    MoveLeft,
    MoveRight,
    /// Pause a running game, or go on with a paused one.
    TogglePause,
    /// Start afresh.
    Restart,
    /// End the game at once; meant for trying things out.
    ForceGameOver,
    /// Leave the program.
    Quit,
}

impl Intent {
    /// The heading that a movement intent asks for.
    pub open spec fn direction(self) -> Option<SnakeDirection> {
        match self {
            Intent::MoveUp => Some(SnakeDirection::Up),
            Intent::MoveDown => Some(SnakeDirection::Down),
            Intent::MoveLeft => Some(SnakeDirection::Left),
            Intent::MoveRight => Some(SnakeDirection::Right),
            _ => None,
        }
    }

    /// The heading that a movement intent asks for; `None` for the others.
    pub fn heading(&self) -> (d: Option<SnakeDirection>)
        ensures
            d == self.direction(),
    {
        match self {
            Intent::MoveUp => Some(SnakeDirection::Up),
            Intent::MoveDown => Some(SnakeDirection::Down),
            Intent::MoveLeft => Some(SnakeDirection::Left),
            Intent::MoveRight => Some(SnakeDirection::Right),
            _ => None,
        }
    }

    /// What an event means. Closing the window and releasing Escape mean to
    /// quit. Pressing an arrow key asks for that heading, pressing R for a
    /// restart, P for a pause or its end, and G ends the game. Nothing else
    /// means anything.
    pub open spec fn meaning(event: InputEvent) -> Option<Intent> {
        match event {
            InputEvent::Quit => Some(Intent::Quit),
            InputEvent::KeyUp(Key::Escape) => Some(Intent::Quit),
            InputEvent::KeyDown(Key::Left) => Some(Intent::MoveLeft),
            InputEvent::KeyDown(Key::Right) => Some(Intent::MoveRight),
            InputEvent::KeyDown(Key::Up) => Some(Intent::MoveUp),
            InputEvent::KeyDown(Key::Down) => Some(Intent::MoveDown),
            InputEvent::KeyDown(Key::R) => Some(Intent::Restart),
            InputEvent::KeyDown(Key::P) => Some(Intent::TogglePause),
            InputEvent::KeyDown(Key::G) => Some(Intent::ForceGameOver),
            _ => None,
        }
    }

    /// The intent that an event stands for, if it stands for one.
    pub fn from_event(event: InputEvent) -> (intent: Option<Intent>)
        ensures
            intent == Intent::meaning(event),
    {
        match event {
            InputEvent::Quit => Some(Intent::Quit),
            InputEvent::KeyUp(key) => match key {
                Key::Escape => Some(Intent::Quit),
                _ => None,
            },
            InputEvent::KeyDown(key) => match key {
                Key::Left => Some(Intent::MoveLeft),
                Key::Right => Some(Intent::MoveRight),
                Key::Up => Some(Intent::MoveUp),
                Key::Down => Some(Intent::MoveDown),
                Key::R => Some(Intent::Restart),
                Key::P => Some(Intent::TogglePause),
                Key::G => Some(Intent::ForceGameOver),
                _ => None,
            },
            InputEvent::Other => None,
        }
    }
}

} // verus!
