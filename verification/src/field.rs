//! The playing field and what its boundary policy makes of a position.

use crate::direction::SnakeDirection;
use crate::error::GameError;
use crate::grid::apply_boundary;
use crate::grid::boundary_applied;
use crate::grid::BoundaryPolicy;
use crate::grid::GridPosition;
use vstd::arithmetic::div_mod::lemma_mod_bound;
use vstd::arithmetic::div_mod::lemma_small_mod;
use vstd::prelude::*;

verus! {

/// The playing field: a grid of `width` by `height` cells and the policy that
/// holds at its edges.
#[derive(Clone, Copy, Debug)]
pub struct GameField {
    width: u32,
    height: u32,
    policy: BoundaryPolicy,
}

/// A field as contracts see it.
pub struct FieldView {
    pub width: int,
    pub height: int,
    pub policy: BoundaryPolicy,
}

impl FieldView {
    /// Both dimensions are positive and small enough to be coordinates.
    pub open spec fn wf(self) -> bool {
        &&& 0 < self.width <= i32::MAX
        &&& 0 < self.height <= i32::MAX
    }

    /// Whether `p` is a cell of the field.
    pub open spec fn contains(self, p: GridPosition) -> bool {
        &&& 0 <= p.x < self.width
        &&& 0 <= p.y < self.height
    }

    /// Where a position ends up once the boundary policy has been applied to
    /// both of its coordinates.
    pub open spec fn settled(self, p: GridPosition) -> GridPosition {
        GridPosition {
            x: boundary_applied(p.x as int, self.width, self.policy).0 as i32,
            y: boundary_applied(p.y as int, self.height, self.policy).0 as i32,
        }
    }

    /// Whether `a` is one step away from `b`: it is a neighbour of `b`, or what
    /// the boundary policy makes of a neighbour of `b`.
    pub open spec fn one_step(self, a: GridPosition, b: GridPosition) -> bool {
        exists|d: SnakeDirection|
            #![trigger b.stepped(d)]
            b.can_step(d) && (a == b.stepped(d) || a == self.settled(b.stepped(d)))
    }

    /// Whether moving to `p` crosses a deadly edge.
    pub open spec fn leaves(self, p: GridPosition) -> bool {
        ||| boundary_applied(p.x as int, self.width, self.policy).1
        ||| boundary_applied(p.y as int, self.height, self.policy).1
    }
}

/// A step that is not deadly ends inside the field: a wrapped coordinate is a
/// remainder by the dimension, and a coordinate that a lethal boundary lets
/// pass was inside to begin with.
pub proof fn lemma_settled_in_field(field: FieldView, p: GridPosition)
    requires
        field.wf(),
        !field.leaves(p),
    ensures
        field.contains(field.settled(p)),
        field.policy == BoundaryPolicy::Lethal ==> field.settled(p) == p,
{
    lemma_mod_bound(p.x as int, field.width);
    lemma_mod_bound(p.y as int, field.height);
}

/// A position inside the field is not changed by either policy, and reaching
/// it is not deadly.
pub proof fn lemma_settled_inside(field: FieldView, p: GridPosition)
    requires
        field.wf(),
        field.contains(p),
    ensures
        field.settled(p) == p,
        !field.leaves(p),
{
    lemma_small_mod(p.x as nat, field.width as nat);
    lemma_small_mod(p.y as nat, field.height as nat);
}

impl View for GameField {
    type V = FieldView;

    closed spec fn view(&self) -> FieldView {
        FieldView { width: self.width as int, height: self.height as int, policy: self.policy }
    }
}

impl GameField {
    /// Every field that exists is well formed.
    #[verifier::type_invariant]
    pub open spec fn inv(self) -> bool {
        self@.wf()
    }

    /// Whether a dimension can be that of a field.
    pub open spec fn valid_dimension(n: u32) -> bool {
        0 < n <= i32::MAX
    }

    /// A field of the given size. Fails when a dimension is zero or too large
    /// to be a coordinate.
    pub fn new(width: u32, height: u32, policy: BoundaryPolicy) -> (r: Result<GameField, GameError>)
        ensures
            r is Ok <==> Self::valid_dimension(width) && Self::valid_dimension(height),
            r matches Ok(f) ==> f@ == (FieldView {
                width: width as int,
                height: height as int,
                policy,
            }) && f@.wf(),
            r matches Err(e) ==> e == GameError::InvalidConfig,
    {
        if width == 0 || width > i32::MAX as u32 || height == 0 || height > i32::MAX as u32 {
            Err(GameError::InvalidConfig)
        } else {
            Ok(GameField { width, height, policy })
        }
    }

    /// The number of columns.
    pub fn width(&self) -> (w: u32)
        ensures
            w == self@.width,
            Self::valid_dimension(w),
    {
        proof {
            use_type_invariant(self);
        }
        self.width
    }

    /// The number of rows.
    pub fn height(&self) -> (h: u32)
        ensures
            h == self@.height,
            Self::valid_dimension(h),
    {
        proof {
            use_type_invariant(self);
        }
        self.height
    }

    /// What happens at the edges.
    pub fn policy(&self) -> (p: BoundaryPolicy)
        ensures
            p == self@.policy,
    {
        self.policy
    }

    /// Whether `p` is a cell of the field.
    pub fn contains(&self, p: GridPosition) -> (r: bool)
        ensures
            r == self@.contains(p),
    {
        proof {
            use_type_invariant(self);
        }
        0 <= p.x && (p.x as i64) < self.width as i64 && 0 <= p.y && (p.y as i64)
            < self.height as i64
    }

    /// Applies the boundary policy to both coordinates of `p`: the position to
    /// use, and whether the move was deadly.
    pub fn settle(&self, p: GridPosition) -> (r: (GridPosition, bool))
        ensures
            r.0 == self@.settled(p),
            r.1 == self@.leaves(p),
            self@.policy == BoundaryPolicy::Wrap ==> self@.contains(r.0) && !r.1,
            self@.policy == BoundaryPolicy::Lethal ==> r.0 == p && r.1 == !self@.contains(p),
    {
        proof {
            use_type_invariant(self);
        }
        let (x, x_lethal): (i32, bool) = apply_boundary(p.x, self.width, self.policy);
        let (y, y_lethal): (i32, bool) = apply_boundary(p.y, self.height, self.policy);
        (GridPosition { x, y }, x_lethal || y_lethal)
    }
}

} // verus!
