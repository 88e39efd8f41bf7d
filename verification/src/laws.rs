//! What holds of every game, stated over the views of the contracts.

use crate::direction::SnakeDirection;
use crate::field::FieldView;
use crate::food::has_free_cell;
use crate::game::GameView;
use crate::game::Lifecycle;
use crate::input::InputEvent;
use crate::input::Intent;
use crate::snake::AdvanceOutcome;
use crate::snake::SnakeView;
use vstd::prelude::*;

verus! {

/// An update of a running game in which the snake does not eat keeps the
/// number of segments, and every segment but the head takes the place that
/// the one before it had.
pub proof fn law_update_without_food_shifts(pre: GameView, post: GameView)
    requires
        pre.wf(),
        pre.state == Lifecycle::Running,
        !pre.eats(),
        GameView::updated(pre, post),
    ensures
        post.snake.segments.len() == pre.snake.segments.len(),
        forall|i: int|
            0 < i < post.snake.segments.len() ==> #[trigger] post.snake.segments[i]
                == pre.snake.segments[i - 1],
{
}

/// An update in which the snake eats adds exactly one segment, at the cell
/// that the tail left, and moves the food to a cell of the field that is free
/// of the grown snake, provided the grown snake leaves a cell of the field
/// free.
pub proof fn law_eating_grows_and_moves_food(pre: GameView, post: GameView)
    requires
        pre.wf(),
        pre.eats(),
        GameView::updated(pre, post),
        has_free_cell(pre.field, pre.snake.advanced(pre.field).grown(pre.snake.tail()).segments),
    ensures
        post.snake.segments.len() == pre.snake.segments.len() + 1,
        post.snake.segments.last() == pre.snake.tail(),
        post.state == Lifecycle::Running,
        post.field.contains(post.food),
        !post.snake.segments.contains(post.food),
        post.food != pre.food,
{
    assert(post.snake.segments[0] == pre.food);
}

/// An update of a running game moves the head by exactly one cell: to the cell
/// in front of it where that cell lies inside the field, and else to what the
/// boundary policy makes of that cell.
pub proof fn law_update_moves_one_cell(pre: GameView, post: GameView)
    requires
        pre.wf(),
        pre.state == Lifecycle::Running,
        GameView::updated(pre, post),
    ensures
        post.snake.head() == pre.field.settled(
            pre.snake.head().stepped(pre.snake.resolved_heading()),
        ),
        pre.field.contains(pre.snake.target()) ==> post.snake.head() == pre.snake.target(),
        pre.field.one_step(post.snake.head(), pre.snake.head()),
{
    if pre.field.contains(pre.snake.target()) {
        crate::field::lemma_settled_inside(pre.field, pre.snake.target());
    }
    let d = pre.snake.resolved_heading();
    assert(pre.snake.head().can_step(d));
    assert(post.snake.head() == pre.field.settled(pre.snake.head().stepped(d)));
}

/// A request for the heading opposite to the current one does not change the
/// heading of the next step.
pub proof fn law_reversal_is_ignored(snake: SnakeView, field: FieldView, d: SnakeDirection)
    requires
        d.opposes(snake.heading),
    ensures
        snake.steered(d).advanced(field).heading == snake.heading,
{
}

/// In a running game, asking for the heading opposite to the current one and
/// then updating the game leaves the heading as it was.
pub proof fn law_reversal_request_then_update(
    pre: GameView,
    intent: Intent,
    mid: GameView,
    post: GameView,
)
    requires
        pre.wf(),
        pre.state == Lifecycle::Running,
        intent.direction() matches Some(d) && d.opposes(pre.snake.heading),
        GameView::applied(pre, intent, mid),
        GameView::updated(mid, post),
    ensures
        post.snake.heading == pre.snake.heading,
{
}

/// Any other request is taken up by the next step.
pub proof fn law_turn_is_taken(snake: SnakeView, field: FieldView, d: SnakeDirection)
    requires
        !d.opposes(snake.heading),
    ensures
        snake.steered(d).advanced(field).heading == d,
{
}

/// A step that takes the head of the snake into one of its other segments, or
/// across a deadly edge, ends a running game.
pub proof fn law_collision_ends_game(pre: GameView, post: GameView)
    requires
        pre.wf(),
        pre.state == Lifecycle::Running,
        pre.snake.outcome(pre.field) == AdvanceOutcome::Collided || pre.snake.outcome(pre.field)
            == AdvanceOutcome::HitBoundary,
        GameView::updated(pre, post),
    ensures
        post.state == Lifecycle::GameOver,
{
}

/// An update changes nothing in a game that is paused or over.
pub proof fn law_update_is_frozen_unless_running(pre: GameView, post: GameView)
    requires
        pre.state != Lifecycle::Running,
        GameView::updated(pre, post),
    ensures
        post == pre,
{
}

/// A game that is over stays over, with its snake and its food as they are,
/// whatever is asked of it, except a restart.
pub proof fn law_game_over_lasts_until_restart(pre: GameView, intent: Intent, post: GameView)
    requires
        pre.state == Lifecycle::GameOver,
        intent != Intent::Restart,
        GameView::applied(pre, intent, post),
    ensures
        post.state == Lifecycle::GameOver,
        post.snake == pre.snake,
        post.food == pre.food,
{
}

/// A restart, from whatever state, gives a running game whose snake is the
/// fresh one of the configuration, with as many segments as the configuration
/// says, and whose food lies on a cell of the field that this snake leaves
/// free.
pub proof fn law_restart_resets(pre: GameView, post: GameView)
    requires
        pre.wf(),
        GameView::applied(pre, Intent::Restart, post),
    ensures
        post.wf(),
        post.state == Lifecycle::Running,
        post.snake == pre.config.initial_snake(),
        post.snake.segments.len() == pre.config.initial_length,
        post.snake.head() == pre.config.start(),
        post.field.contains(post.food),
        !post.snake.segments.contains(post.food),
        post.done == pre.done,
{
    crate::snake::lemma_initial_connected(
        pre.config.start_x as int,
        pre.config.start_y as int,
        pre.config.initial_length as nat,
        pre.field,
    );
}

/// An update never takes a segment away, and keeps every game well formed.
pub proof fn law_update_keeps_game(pre: GameView, post: GameView)
    requires
        pre.wf(),
        GameView::updated(pre, post),
    ensures
        post.wf(),
        post.snake.segments.len() >= pre.snake.segments.len(),
        post.config == pre.config,
        post.field == pre.field,
        post.done == pre.done,
{
    if pre.state == Lifecycle::Running {
        crate::snake::lemma_step_keeps_connected(pre.snake, pre.field);
        if !pre.field.leaves(pre.snake.target()) {
            crate::field::lemma_settled_in_field(pre.field, pre.snake.target());
        }
    }
}

/// While a game runs, the heading that was asked for last is the one that is
/// recorded.
pub proof fn law_last_heading_wins(
    pre: GameView,
    first: Intent,
    mid: GameView,
    second: Intent,
    post: GameView,
)
    requires
        pre.state == Lifecycle::Running,
        first.direction() is Some,
        second.direction() is Some,
        GameView::applied(pre, first, mid),
        GameView::applied(mid, second, post),
    ensures
        post.snake.requested == second.direction().unwrap(),
        post == (GameView { snake: pre.snake.steered(second.direction().unwrap()), ..pre }),
{
}

/// Asking twice in a row for a heading, for the end of the game or to leave
/// is the same as asking once.
pub proof fn law_repeated_intent(pre: GameView, intent: Intent, mid: GameView, post: GameView)
    requires
        intent != Intent::TogglePause,
        intent != Intent::Restart,
        GameView::applied(pre, intent, mid),
        GameView::applied(mid, intent, post),
    ensures
        post == mid,
{
}

/// Two pause requests in a row leave the game as it was.
pub proof fn law_pause_twice(pre: GameView, mid: GameView, post: GameView)
    requires
        GameView::applied(pre, Intent::TogglePause, mid),
        GameView::applied(mid, Intent::TogglePause, post),
    ensures
        post == pre,
{
}

/// Handling no event changes nothing, and handling one event is applying what
/// it means.
pub proof fn law_handled_short(pre: GameView, event: InputEvent, post: GameView)
    ensures
        GameView::handled(pre, Seq::empty(), post) <==> post == pre,
        GameView::handled(pre, seq![event], post) <==> GameView::event_handled(pre, event, post),
{
    if post == pre {
        assert(GameView::follows(seq![pre], Seq::empty()));
    }
    if GameView::event_handled(pre, event, post) {
        let trace = seq![pre, post];
        assert(GameView::follows(trace, seq![event]));
        assert(trace[0] == pre && trace.last() == post);
    }
    if GameView::handled(pre, seq![event], post) {
        let trace = choose|trace: Seq<GameView>|
            #![trigger GameView::follows(trace, seq![event])]
            GameView::follows(trace, seq![event]) && trace[0] == pre && trace.last() == post;
        assert(GameView::event_handled(trace[0], seq![event][0], trace[1]));
    }
}

/// Events are handled in the order in which they came: handling one run of
/// events after another is handling the two runs as one.
pub proof fn law_handled_in_order(
    pre: GameView,
    first: Seq<InputEvent>,
    mid: GameView,
    second: Seq<InputEvent>,
    post: GameView,
)
    requires
        GameView::handled(pre, first, mid),
        GameView::handled(mid, second, post),
    ensures
        GameView::handled(pre, first + second, post),
{
    let head = choose|trace: Seq<GameView>|
        #![trigger GameView::follows(trace, first)]
        GameView::follows(trace, first) && trace[0] == pre && trace.last() == mid;
    let tail = choose|trace: Seq<GameView>|
        #![trigger GameView::follows(trace, second)]
        GameView::follows(trace, second) && trace[0] == mid && trace.last() == post;
    let whole = head + tail.drop_first();
    let events = first + second;
    assert forall|i: int| 0 <= i < events.len() implies GameView::event_handled(
        #[trigger] whole[i],
        events[i],
        whole[i + 1],
    ) by {
        if i < first.len() {
            assert(whole[i] == head[i]);
            assert(whole[i + 1] == head[i + 1]);
            assert(events[i] == first[i]);
            assert(GameView::event_handled(head[i], first[i], head[i + 1]));
        } else {
            let j = i - first.len();
            assert(events[i] == second[j]);
            assert(whole[i + 1] == tail[j + 1]);
            if j == 0 {
                assert(whole[i] == head.last());
            } else {
                assert(whole[i] == tail[j]);
            }
            assert(GameView::event_handled(tail[j], second[j], tail[j + 1]));
        }
    }
    assert(GameView::follows(whole, events));
    assert(whole[0] == pre);
    if second.len() == 0 {
        assert(whole.last() == head.last());
    } else {
        assert(whole.last() == tail.last());
    }
}

} // verus!
