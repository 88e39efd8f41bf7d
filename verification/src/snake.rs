//! The snake: how it is made, how it takes a step, and how it grows.

use crate::direction::SnakeDirection;
use crate::error::GameError;
use crate::field::FieldView;
use crate::field::GameField;
use crate::grid::GridPosition;
use vstd::prelude::*;

verus! {

/// What one step of the snake led to.
#[derive(Clone, Copy, Debug, PartialEq, Eq, Structural)]
pub enum AdvanceOutcome {
    /// The snake moved. The position is the cell its tail left, where a new
    /// segment goes if the snake grows on this tick.
    Moved(GridPosition),
    /// The head ran into another segment.
    Collided,
    /// The head crossed a deadly edge of the field.
    HitBoundary,
}

/// The snake: its segments from head to tail, the heading it moves in, and the
/// heading that was asked for last.
pub struct SnakeState {
    direction: SnakeDirection,
    requested_direction: SnakeDirection,
    segments: Vec<GridPosition>,
}

/// A snake as contracts see it. `segments[0]` is the head.
pub struct SnakeView {
    pub heading: SnakeDirection,
    pub requested: SnakeDirection,
    pub segments: Seq<GridPosition>,
}

impl SnakeView {
    /// A snake has at least one segment.
    pub open spec fn wf(self) -> bool {
        self.segments.len() >= 1
    }

    /// The first segment.
    pub open spec fn head(self) -> GridPosition {
        self.segments[0]
    }

    /// The last segment.
    pub open spec fn tail(self) -> GridPosition {
        self.segments.last()
    }

    /// A fresh snake of `length` segments: the head at `(x, y)`, the others
    /// behind it to the left, all in one row, heading right.
    pub open spec fn initial(x: int, y: int, length: nat) -> SnakeView {
        SnakeView {
            heading: SnakeDirection::Right,
            requested: SnakeDirection::Right,
            segments: Seq::new(length, |i: int| GridPosition { x: (x - i) as i32, y: y as i32 }),
        }
    }

    /// The heading of the next step: the requested one, unless it would turn
    /// the snake back on itself.
    pub open spec fn resolved_heading(self) -> SnakeDirection {
        if self.requested.opposes(self.heading) {
            self.heading
        } else {
            self.requested
        }
    }

    /// Whether the cell in front of the head has coordinates that a position
    /// can hold.
    pub open spec fn can_advance(self) -> bool {
        self.head().can_step(self.resolved_heading())
    }

    /// The cell in front of the head, before the boundary policy is applied.
    pub open spec fn target(self) -> GridPosition {
        self.head().stepped(self.resolved_heading())
    }

    /// Where the head is after the next step.
    pub open spec fn next_head(self, field: FieldView) -> GridPosition {
        field.settled(self.target())
    }

    /// The snake after one step: the head moves one cell, and every other
    /// segment takes the place of the one before it.
    pub open spec fn advanced(self, field: FieldView) -> SnakeView {
        SnakeView {
            heading: self.resolved_heading(),
            requested: self.requested,
            segments: seq![self.next_head(field)] + self.segments.drop_last(),
        }
    }

    /// What the next step leads to. A deadly edge is looked at first, then a
    /// collision of the new head with another segment.
    pub open spec fn outcome(self, field: FieldView) -> AdvanceOutcome {
        if field.leaves(self.target()) {
            AdvanceOutcome::HitBoundary
        } else if self.segments.drop_last().contains(self.next_head(field)) {
            AdvanceOutcome::Collided
        } else {
            AdvanceOutcome::Moved(self.tail())
        }
    }

    /// Whether the snake hangs together on `field`: every segment is one step
    /// away from the one behind it.
    pub open spec fn connected(self, field: FieldView) -> bool {
        forall|i: int|
            #![trigger self.segments[i]]
            0 < i < self.segments.len() ==> field.one_step(self.segments[i - 1], self.segments[i])
    }

    /// The snake with one more segment at its end.
    pub open spec fn grown(self, tail_position: GridPosition) -> SnakeView {
        SnakeView { segments: self.segments.push(tail_position), ..self }
    }

    /// The snake with another requested heading.
    pub open spec fn steered(self, d: SnakeDirection) -> SnakeView {
        SnakeView { requested: d, ..self }
    }
}

/// Whether `p` is among the positions of `cells` from index `start` on.
fn contains_from(cells: &Vec<GridPosition>, start: usize, p: GridPosition) -> (r: bool)
    requires
        start <= cells@.len(),
    ensures
        r == cells@.subrange(start as int, cells@.len() as int).contains(p),
{
    let ghost rest: Seq<GridPosition> = cells@.subrange(start as int, cells@.len() as int);
    let mut k: usize = start;
    while k < cells.len()
        invariant
            start <= k <= cells@.len(),
            rest == cells@.subrange(start as int, cells@.len() as int),
            forall|j: int| start <= j < k ==> cells@[j] != p,
        decreases cells@.len() - k,
    {
        if cells[k] == p {
            assert(rest[k - start] == p);
            return true;
        }
        k = k + 1;
    }
    assert forall|j: int| 0 <= j < rest.len() implies rest[j] != p by {
        assert(rest[j] == cells@[start + j]);
    }
    false
}

/// Whether `p` is among the positions of `cells`.
pub fn occupies(cells: &Vec<GridPosition>, p: GridPosition) -> (r: bool)
    ensures
        r == cells@.contains(p),
{
    assert(cells@.subrange(0, cells@.len() as int) =~= cells@);
    contains_from(cells, 0, p)
}

impl View for SnakeState {
    type V = SnakeView;

    closed spec fn view(&self) -> SnakeView {
        SnakeView {
            heading: self.direction,
            requested: self.requested_direction,
            segments: self.segments@,
        }
    }
}

impl SnakeState {
    /// A snake has at least one segment. Every snake that this library hands
    /// out is well formed, and every operation keeps it so.
    pub open spec fn wf(&self) -> bool {
        self@.wf()
    }

    /// Whether a snake of `length` segments can start with its head at column
    /// `x`: it has a segment, and its tail end stays within the range of
    /// coordinates.
    pub open spec fn valid_start(x: i32, length: u32) -> bool {
        &&& length >= 1
        &&& x - (length - 1) >= i32::MIN
    }

    /// A snake of `length` segments with its head at `(x, y)`, the others
    /// behind it to the left, heading right.
    pub fn new(x: i32, y: i32, length: u32) -> (r: Result<SnakeState, GameError>)
        ensures
            r is Ok <==> Self::valid_start(x, length),
            r matches Ok(s) ==> s.wf() && s@ == SnakeView::initial(
                x as int,
                y as int,
                length as nat,
            ),
            r matches Err(e) ==> e == GameError::InvalidConfig,
    {
        if length == 0 || (x as i64) - (length as i64 - 1) < i32::MIN as i64 {
            return Err(GameError::InvalidConfig);
        }
        let mut segments: Vec<GridPosition> = Vec::new();
        let mut i: u32 = 0;
        while i < length
            invariant
                i <= length,
                x - (length - 1) >= i32::MIN,
                segments@.len() == i,
                forall|j: int|
                    0 <= j < i ==> segments@[j] == (GridPosition { x: (x - j) as i32, y }),
            decreases length - i,
        {
            segments.push(GridPosition { x: ((x as i64) - (i as i64)) as i32, y });
            i = i + 1;
        }
        assert(segments@ =~= SnakeView::initial(x as int, y as int, length as nat).segments);
        Ok(
            SnakeState {
                direction: SnakeDirection::Right,
                requested_direction: SnakeDirection::Right,
                segments,
            },
        )
    }

    /// Records the heading that was asked for. It takes effect with the next
    /// step, and only if it does not turn the snake back on itself.
    pub fn set_requested_heading(&mut self, d: SnakeDirection)
        ensures
            final(self)@ == old(self)@.steered(d),
            old(self).wf() ==> final(self).wf(),
    {
        self.requested_direction = d;
    }

    /// Appends a segment at `tail_position`.
    pub fn grow(&mut self, tail_position: GridPosition)
        ensures
            final(self)@ == old(self)@.grown(tail_position),
            final(self).wf(),
            final(self)@.segments.len() == old(self)@.segments.len() + 1,
    {
        self.segments.push(tail_position);
    }

    /// Moves the snake one cell. The requested heading is taken up unless it
    /// is opposite to the current one; every segment but the head takes the
    /// place that the one before it had; the head moves one cell in the
    /// resulting heading, and the field's boundary policy is applied to it.
    pub fn advance(&mut self, field: &GameField) -> (outcome: AdvanceOutcome)
        requires
            old(self).wf(),
            old(self)@.can_advance(),
        ensures
            final(self).wf(),
            final(self)@ == old(self)@.advanced(field@),
            outcome == old(self)@.outcome(field@),
            final(self)@.segments.len() == old(self)@.segments.len(),
            old(self)@.connected(field@) ==> final(self)@.connected(field@),
    {
        let ghost before: SnakeView = self@;
        proof {
            if before.connected(field@) {
                lemma_step_keeps_connected(before, field@);
            }
        }
        let n: usize = self.segments.len();
        let heading: SnakeDirection = if self.requested_direction.is_opposite(self.direction) {
            self.direction
        } else {
            self.requested_direction
        };
        let tail: GridPosition = self.segments[n - 1];
        let (head, lethal): (GridPosition, bool) = field.settle(self.segments[0].step(heading));
        let mut i: usize = n - 1;
        while i > 0
            invariant
                i < n,
                before.segments.len() == n,
                self.segments@.len() == n,
                self.direction == before.heading,
                self.requested_direction == before.requested,
                forall|j: int| 0 <= j <= i ==> self.segments@[j] == before.segments[j],
                forall|j: int| i < j < n ==> self.segments@[j] == before.segments[j - 1],
            decreases i,
        {
            let previous: GridPosition = self.segments[i - 1];
            self.segments.set(i, previous);
            i = i - 1;
        }
        self.segments.set(0, head);
        self.direction = heading;
        assert(self.segments@ =~= before.advanced(field@).segments);
        assert(self.segments@.subrange(1, n as int) =~= before.segments.drop_last());
        if lethal {
            AdvanceOutcome::HitBoundary
        } else if contains_from(&self.segments, 1, head) {
            AdvanceOutcome::Collided
        } else {
            AdvanceOutcome::Moved(tail)
        }
    }

    /// The heading the snake moves in.
    pub fn heading(&self) -> (d: SnakeDirection)
        ensures
            d == self@.heading,
    {
        self.direction
    }

    /// The heading that was asked for last.
    pub fn requested_heading(&self) -> (d: SnakeDirection)
        ensures
            d == self@.requested,
    {
        self.requested_direction
    }

    /// The segments from head to tail.
    pub fn segments(&self) -> (s: &Vec<GridPosition>)
        ensures
            s@ == self@.segments,
    {
        &self.segments
    }

    /// The number of segments.
    pub fn len(&self) -> (n: usize)
        ensures
            n == self@.segments.len(),
    {
        self.segments.len()
    }

    /// The position of the head.
    pub fn head(&self) -> (p: GridPosition)
        requires
            self.wf(),
        ensures
            p == self@.head(),
    {
        self.segments[0]
    }
}

/// A fresh snake hangs together on every field.
pub proof fn lemma_initial_connected(x: int, y: int, length: nat, field: FieldView)
    requires
        i32::MIN <= x - (length - 1),
        x <= i32::MAX,
        i32::MIN <= y <= i32::MAX,
    ensures
        SnakeView::initial(x, y, length).connected(field),
{
    let snake = SnakeView::initial(x, y, length);
    assert forall|i: int| 0 < i < snake.segments.len() implies field.one_step(
        snake.segments[i - 1],
        #[trigger] snake.segments[i],
    ) by {
        let b = snake.segments[i];
        assert(b.can_step(SnakeDirection::Right));
        assert(snake.segments[i - 1] == b.stepped(SnakeDirection::Right));
    }
}

/// A snake that hangs together still does after a step, and also when it
/// then grows by a segment where its tail was.
pub proof fn lemma_step_keeps_connected(snake: SnakeView, field: FieldView)
    requires
        snake.wf(),
        snake.can_advance(),
        snake.connected(field),
    ensures
        snake.advanced(field).connected(field),
        snake.advanced(field).grown(snake.tail()).connected(field),
{
    let moved = snake.advanced(field);
    let grown = moved.grown(snake.tail());
    let n = snake.segments.len() as int;
    assert(moved.segments.len() == n);
    assert forall|i: int| 0 < i < grown.segments.len() implies field.one_step(
        grown.segments[i - 1],
        #[trigger] grown.segments[i],
    ) by {
        if i == 1 {
            assert(grown.segments[1] == snake.segments[0]);
            assert(grown.segments[0] == field.settled(
                snake.segments[0].stepped(snake.resolved_heading()),
            ));
        } else {
            assert(grown.segments[i] == snake.segments[i - 1]);
            assert(grown.segments[i - 1] == snake.segments[i - 2]);
            assert(field.one_step(snake.segments[i - 2], snake.segments[i - 1]));
        }
    }
    assert forall|i: int| 0 < i < moved.segments.len() implies field.one_step(
        moved.segments[i - 1],
        #[trigger] moved.segments[i],
    ) by {
        assert(moved.segments[i] == grown.segments[i]);
        assert(moved.segments[i - 1] == grown.segments[i - 1]);
    }
}

} // verus!
