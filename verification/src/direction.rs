//! The headings of the snake and which of them are opposite.

use vstd::prelude::*;

verus! {

/// The four headings a snake can have.
#[derive(Clone, Copy, Debug, PartialEq, Eq, Structural)]
pub enum SnakeDirection {
    Up,
    Down,
    Left,
    Right,
}

impl SnakeDirection {
    /// The heading that points the other way.
    pub open spec fn reversed(self) -> SnakeDirection {
        match self {
            SnakeDirection::Up => SnakeDirection::Down,
            SnakeDirection::Down => SnakeDirection::Up,
            SnakeDirection::Left => SnakeDirection::Right,
            SnakeDirection::Right => SnakeDirection::Left,
        }
    }

    /// Two headings are opposite when they are Up and Down, or Left and Right,
    /// in either order.
    pub open spec fn opposes(self, other: SnakeDirection) -> bool {
        other == self.reversed()
    }

    /// Whether `other` points the opposite way. Equal and perpendicular
    /// headings are not opposite.
    pub fn is_opposite(&self, other: SnakeDirection) -> (r: bool)
        ensures
            r == self.opposes(other),
            r == ((*self == SnakeDirection::Up && other == SnakeDirection::Down) || (*self
                == SnakeDirection::Down && other == SnakeDirection::Up) || (*self
                == SnakeDirection::Left && other == SnakeDirection::Right) || (*self
                == SnakeDirection::Right && other == SnakeDirection::Left)),
    {
        match *self {
            SnakeDirection::Up => other == SnakeDirection::Down,
            SnakeDirection::Down => other == SnakeDirection::Up,
            SnakeDirection::Left => other == SnakeDirection::Right,
            SnakeDirection::Right => other == SnakeDirection::Left,
        }
    }
}

/// Being opposite is symmetric, and no heading is opposite to itself.
pub proof fn lemma_opposite_symmetric_irreflexive(a: SnakeDirection, b: SnakeDirection)
    ensures
        a.opposes(b) == b.opposes(a),
        !a.opposes(a),
{
}

/// Every pair of headings is opposite, equal or perpendicular, and exactly one
/// heading is opposite to a given one.
pub proof fn lemma_opposite_is_unique(a: SnakeDirection, b: SnakeDirection)
    ensures
        a.opposes(b) ==> a != b,
        a.opposes(a.reversed()),
        a.opposes(b) ==> b == a.reversed(),
        a.reversed().reversed() == a,
{
}

} // verus!
