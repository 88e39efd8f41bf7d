//! Positions on the grid, single steps, and the boundary policies on one
//! coordinate.

use crate::direction::SnakeDirection;
use vstd::arithmetic::div_mod::lemma_fundamental_div_mod;
use vstd::arithmetic::div_mod::lemma_fundamental_div_mod_converse;
use vstd::prelude::*;

verus! {

/// One cell of the grid. Coordinates count from zero; `x` grows to the right
/// and `y` grows upwards.
#[derive(Clone, Copy, Debug, PartialEq, Eq, Structural)]
pub struct GridPosition {
    pub x: i32,
    pub y: i32,
}

/// What happens at the edges of the field. One policy holds for both axes.
#[derive(Clone, Copy, Debug, PartialEq, Eq, Structural)]
pub enum BoundaryPolicy {
    /// A coordinate that leaves the field comes back in on the other side.
    Wrap,
    /// A coordinate that leaves the field ends the game.
    Lethal,
}

impl GridPosition {
    /// The horizontal change of one step.
    pub open spec fn dx(d: SnakeDirection) -> int {
        match d {
            SnakeDirection::Left => -1,
            SnakeDirection::Right => 1,
            _ => 0,
        }
    }

    /// The vertical change of one step.
    pub open spec fn dy(d: SnakeDirection) -> int {
        match d {
            SnakeDirection::Down => -1,
            SnakeDirection::Up => 1,
            _ => 0,
        }
    }

    /// Whether the neighbour in direction `d` has coordinates that a position
    /// can hold.
    pub open spec fn can_step(self, d: SnakeDirection) -> bool {
        &&& i32::MIN <= self.x + Self::dx(d) <= i32::MAX
        &&& i32::MIN <= self.y + Self::dy(d) <= i32::MAX
    }

    /// The neighbour one cell away in direction `d`, with no boundary applied.
    pub open spec fn stepped(self, d: SnakeDirection) -> GridPosition {
        GridPosition { x: (self.x + Self::dx(d)) as i32, y: (self.y + Self::dy(d)) as i32 }
    }

    /// Moves one cell in direction `d`.
    pub fn step(self, d: SnakeDirection) -> (p: GridPosition)
        requires
            self.can_step(d),
        ensures
            p == self.stepped(d),
            p.x == self.x + Self::dx(d),
            p.y == self.y + Self::dy(d),
    {
        match d {
            SnakeDirection::Up => GridPosition { x: self.x, y: self.y + 1 },
            SnakeDirection::Down => GridPosition { x: self.x, y: self.y - 1 },
            SnakeDirection::Left => GridPosition { x: self.x - 1, y: self.y },
            SnakeDirection::Right => GridPosition { x: self.x + 1, y: self.y },
        }
    }
}

/// What a boundary policy makes of one coordinate on an axis of length
/// `dimension`: the coordinate to use, and whether the step was deadly.
pub open spec fn boundary_applied(coord: int, dimension: int, policy: BoundaryPolicy) -> (
    int,
    bool,
) {
    match policy {
        BoundaryPolicy::Wrap => (coord % dimension, false),
        BoundaryPolicy::Lethal => (coord, coord < 0 || coord >= dimension),
    }
}

/// The remainder of `coord` by `dimension`, never negative.
fn wrap_coordinate(coord: i32, dimension: u32) -> (r: i32)
    requires
        0 < dimension <= i32::MAX,
    ensures
        r == (coord as int) % (dimension as int),
        0 <= r < dimension,
{
    if coord >= 0 {
        let m: u32 = (coord as u32) % dimension;
        m as i32
    } else {
        let back: u64 = (-(coord as i64)) as u64;
        let m: u64 = back % (dimension as u64);
        proof {
            let d: int = dimension as int;
            let q: int = (back as int) / d;
            lemma_fundamental_div_mod(back as int, d);
            if m == 0 {
                assert((coord as int) == (-q) * d + 0) by (nonlinear_arith)
                    requires
                        back as int == d * q + (m as int),
                        m == 0,
                        coord as int == -(back as int),
                ;
                lemma_fundamental_div_mod_converse(coord as int, d, -q, 0);
            } else {
                assert((coord as int) == (-q - 1) * d + (d - m as int)) by (nonlinear_arith)
                    requires
                        back as int == d * q + (m as int),
                        coord as int == -(back as int),
                ;
                lemma_fundamental_div_mod_converse(coord as int, d, -q - 1, d - m as int);
            }
        }
        if m == 0 {
            0
        } else {
            (dimension as u64 - m) as i32
        }
    }
}

/// Applies a boundary policy to one coordinate. Wrapping gives the remainder
/// of the coordinate by the dimension and is never deadly; a lethal boundary
/// leaves the coordinate as it is and reports whether it lies outside
/// `0..dimension`.
pub fn apply_boundary(coord: i32, dimension: u32, policy: BoundaryPolicy) -> (r: (i32, bool))
    requires
        0 < dimension <= i32::MAX,
    ensures
        r.0 == boundary_applied(coord as int, dimension as int, policy).0,
        r.1 == boundary_applied(coord as int, dimension as int, policy).1,
        policy == BoundaryPolicy::Wrap ==> 0 <= r.0 < dimension && !r.1,
        policy == BoundaryPolicy::Lethal ==> r.0 == coord && r.1 == (coord < 0 || coord
            >= dimension),
{
    match policy {
        BoundaryPolicy::Wrap => (wrap_coordinate(coord, dimension), false),
        BoundaryPolicy::Lethal => (coord, coord < 0 || coord as i64 >= dimension as i64),
    }
}

} // verus!
