//! The game as a whole: its states, what an update and an intent of the player
//! do to it, and the tick that the driving loop repeats.

use crate::config::Config;
use crate::direction::SnakeDirection;
use crate::error::GameError;
use crate::field::lemma_settled_in_field;
use crate::field::FieldView;
use crate::field::GameField;
use crate::food::has_free_cell;
use crate::food::Food;
use crate::grid::GridPosition;
use crate::input::InputEvent;
use crate::input::Intent;
use crate::random::RandomSource;
use crate::snake::lemma_initial_connected;
use crate::snake::lemma_step_keeps_connected;
use crate::snake::occupies;
use crate::snake::AdvanceOutcome;
use crate::snake::SnakeState;
use crate::snake::SnakeView;
use vstd::prelude::*;

verus! {

/// Where a game stands.
#[derive(Clone, Copy, Debug, PartialEq, Eq, Structural)]
pub enum Lifecycle {
    /// The snake moves with every tick.
    Running,
    /// The game is frozen until the pause ends.
    Paused,
    /// The game is lost. Only a restart brings it back.
    GameOver,
}

/// A game: the snake, the food, the field, where the game stands, and the
/// source of its random choices.
pub struct GameState {
    done: bool,
    state: Lifecycle,
    snake_state: SnakeState,
    food: Food,
    field: GameField,
    config: Config,
    source: RandomSource,
}

/// A game as contracts see it.
pub struct GameView {
    /// Whether the player asked to leave.
    pub done: bool,
    pub state: Lifecycle,
    pub snake: SnakeView,
    pub food: GridPosition,
    pub field: FieldView,
    pub config: Config,
    /// The source of random choices. Contracts compare it to say when it was
    /// left alone, and know nothing else of it.
    pub source: RandomSource,
}

/// What a program that draws the game reads of it.
#[derive(Clone, Debug, PartialEq, Eq)]
pub struct Snapshot {
    /// Whether the player asked to leave.
    pub done: bool,
    pub state: Lifecycle,
    /// The heading the snake moves in.
    pub heading: SnakeDirection,
    /// The heading that was asked for last.
    pub requested_heading: SnakeDirection,
    /// The segments of the snake from head to tail.
    pub segments: Vec<GridPosition>,
    /// The cell of the food.
    pub food: GridPosition,
    pub field_width: u32,
    pub field_height: u32,
}

impl GameView {
    /// Whether `snapshot` shows this game.
    pub open spec fn shown_by(self, snapshot: Snapshot) -> bool {
        &&& snapshot.done == self.done
        &&& snapshot.state == self.state
        &&& snapshot.heading == self.snake.heading
        &&& snapshot.requested_heading == self.snake.requested
        &&& snapshot.segments@ == self.snake.segments
        &&& snapshot.food == self.food
        &&& snapshot.field_width == self.field.width
        &&& snapshot.field_height == self.field.height
    }

    /// What holds of every game: it was set up from a playable configuration
    /// and plays on the field of that configuration; the snake has at least
    /// the segments it started with and hangs together; the food lies inside
    /// the field; and, unless the game is over, so does the head of the snake.
    pub open spec fn wf(self) -> bool {
        &&& self.config.playable()
        &&& self.field == self.config.field()
        &&& self.snake.wf()
        &&& self.snake.segments.len() >= self.config.initial_length
        &&& self.snake.connected(self.field)
        &&& self.field.contains(self.food)
        &&& self.state != Lifecycle::GameOver ==> self.field.contains(self.snake.head())
    }

    /// Whether `food` can be the food of a game on `field` with the snake at
    /// `segments`: it lies inside the field and not on the snake.
    pub open spec fn food_fits(
        field: FieldView,
        segments: Seq<GridPosition>,
        food: GridPosition,
    ) -> bool {
        field.contains(food) && !segments.contains(food)
    }

    /// Whether `game` is a game that has just been set up from `config` with
    /// `source`: it runs, the snake is the fresh one of the configuration,
    /// and the food lies on a free cell of the field. That cell is the
    /// standard place for the food if that is free, and then the source has
    /// not been used.
    pub open spec fn opens(config: Config, source: RandomSource, game: GameView) -> bool {
        let standard = GridPosition { x: 40, y: 28 };
        &&& !game.done
        &&& game.state == Lifecycle::Running
        &&& game.config == config
        &&& game.field == config.field()
        &&& game.snake == config.initial_snake()
        &&& Self::food_fits(game.field, game.snake.segments, game.food)
        &&& Self::food_fits(game.field, game.snake.segments, standard) ==> game.food == standard
            && game.source == source
    }
}

impl Lifecycle {
    /// Where a game stands after a request to pause or to go on: a running
    /// game pauses, a paused one runs again, a lost one stays lost.
    pub open spec fn toggled(self) -> Lifecycle {
        match self {
            Lifecycle::Running => Lifecycle::Paused,
            Lifecycle::Paused => Lifecycle::Running,
            Lifecycle::GameOver => Lifecycle::GameOver,
        }
    }
}

impl GameView {
    /// Whether the snake eats in the next update: the game runs, the step is
    /// neither deadly nor a collision, and it takes the head to the food.
    pub open spec fn eats(self) -> bool {
        &&& self.state == Lifecycle::Running
        &&& self.snake.outcome(self.field) is Moved
        &&& self.snake.next_head(self.field) == self.food
    }

    /// Whether `post` can be the game after one update of `pre`.
    ///
    /// A game that does not run stays as it is. In a running game the snake
    /// takes one step. If the step is deadly or a collision, the game is
    /// over, and nothing else changes. If the head reaches the food, the
    /// snake gets a new segment where its tail was, and the food moves to a
    /// cell of the field that the grown snake leaves free; if there is no
    /// such cell, the food stays. Otherwise nothing else changes. The source
    /// of random choices is used only where the snake eats.
    pub open spec fn updated(pre: GameView, post: GameView) -> bool {
        if pre.state != Lifecycle::Running {
            post == pre
        } else {
            let moved = pre.snake.advanced(pre.field);
            match pre.snake.outcome(pre.field) {
                AdvanceOutcome::Moved(vacated) => {
                    if moved.head() == pre.food {
                        let grown = moved.grown(vacated);
                        &&& post == (GameView {
                            snake: grown,
                            food: post.food,
                            source: post.source,
                            ..pre
                        })
                        &&& if has_free_cell(pre.field, grown.segments) {
                            Self::food_fits(pre.field, grown.segments, post.food)
                        } else {
                            post.food == pre.food
                        }
                    } else {
                        post == (GameView { snake: moved, ..pre })
                    }
                },
                _ => post == (GameView { state: Lifecycle::GameOver, snake: moved, ..pre }),
            }
        }
    }

    /// Whether `post` can be the game after `intent` was applied to `pre`.
    ///
    /// A heading is recorded as the requested one while the game runs, and
    /// ignored otherwise. A pause request pauses a running game and lets a
    /// paused one run. A restart gives a running game with the fresh snake of
    /// the configuration and the food on a cell that this snake leaves free;
    /// nothing else uses the source of random choices. Ending the game makes
    /// it lost. Quitting marks the game as done.
    pub open spec fn applied(pre: GameView, intent: Intent, post: GameView) -> bool {
        match intent {
            Intent::TogglePause => post == (GameView { state: pre.state.toggled(), ..pre }),
            Intent::Restart => {
                &&& post == (GameView {
                    state: Lifecycle::Running,
                    snake: pre.config.initial_snake(),
                    food: post.food,
                    source: post.source,
                    ..pre
                })
                &&& Self::food_fits(pre.field, post.snake.segments, post.food)
            },
            Intent::ForceGameOver => post == (GameView { state: Lifecycle::GameOver, ..pre }),
            Intent::Quit => post == (GameView { done: true, ..pre }),
            _ => if pre.state == Lifecycle::Running {
                post == (GameView { snake: pre.snake.steered(intent.direction().unwrap()), ..pre })
            } else {
                post == pre
            },
        }
    }

    /// Whether `post` can be the game after `event` was handled in `pre`: the
    /// intent that the event stands for was applied, and an event that stands
    /// for none changed nothing.
    pub open spec fn event_handled(pre: GameView, event: InputEvent, post: GameView) -> bool {
        match Intent::meaning(event) {
            Some(intent) => Self::applied(pre, intent, post),
            None => post == pre,
        }
    }

    /// Whether `trace` lists the games that handling `events` one after the
    /// other, the first first, goes through: one more game than events, each
    /// the result of handling the next event in the game before it.
    pub open spec fn follows(trace: Seq<GameView>, events: Seq<InputEvent>) -> bool {
        &&& trace.len() == events.len() + 1
        &&& forall|i: int|
            #![trigger trace[i]]
            0 <= i < events.len() ==> Self::event_handled(trace[i], events[i], trace[i + 1])
    }

    /// Whether `post` can be the game after `events` were handled one after
    /// the other, the first first, starting from `pre`.
    pub open spec fn handled(pre: GameView, events: Seq<InputEvent>, post: GameView) -> bool {
        exists|trace: Seq<GameView>|
            #![trigger Self::follows(trace, events)]
            Self::follows(trace, events) && trace[0] == pre && trace.last() == post
    }
}

impl GameView {
    /// Whether `post` can be the game one tick after `pre`: the events of the
    /// tick were handled, then the game was updated, once.
    pub open spec fn ticked(pre: GameView, events: Seq<InputEvent>, post: GameView) -> bool {
        exists|mid: GameView|
            #![trigger Self::handled(pre, events, mid)]
            Self::handled(pre, events, mid) && Self::updated(mid, post)
    }
}

impl View for GameState {
    type V = GameView;

    closed spec fn view(&self) -> GameView {
        GameView {
            done: self.done,
            state: self.state,
            snake: self.snake_state@,
            food: self.food.position,
            field: self.field@,
            config: self.config,
            source: self.source,
        }
    }
}

impl GameState {
    /// What holds of every game that this library hands out, and what every
    /// operation keeps.
    pub open spec fn wf(&self) -> bool {
        self@.wf()
    }

    /// A game set up from `config`, with `source` for its random choices. The
    /// food starts at its standard place, column 40 of row 28, if that is a
    /// free cell of the field, and on a randomly chosen free cell otherwise.
    /// Fails when the configuration is not playable.
    pub fn with_config(config: Config, source: RandomSource) -> (r: Result<GameState, GameError>)
        ensures
            r is Ok <==> config.playable(),
            r matches Ok(game) ==> game.wf() && GameView::opens(config, source, game@),
            r matches Err(e) ==> e == GameError::InvalidConfig,
    {
        let mut source = source;
        let field: GameField = match GameField::new(
            config.field_width,
            config.field_height,
            config.boundary,
        ) {
            Ok(field) => field,
            Err(e) => {
                return Err(e);
            },
        };
        let start: GridPosition = GridPosition { x: config.start_x, y: config.start_y };
        if !field.contains(start) {
            return Err(GameError::InvalidConfig);
        }
        let snake_state: SnakeState = match SnakeState::new(
            config.start_x,
            config.start_y,
            config.initial_length,
        ) {
            Ok(snake_state) => snake_state,
            Err(e) => {
                return Err(e);
            },
        };
        proof {
            lemma_initial_connected(
                config.start_x as int,
                config.start_y as int,
                config.initial_length as nat,
                field@,
            );
        }
        let standard: Food = Food::new();
        let food: Food = if field.contains(standard.position) && !occupies(
            snake_state.segments(),
            standard.position,
        ) {
            standard
        } else {
            match Food::respawn(&field, snake_state.segments(), &mut source) {
                Some(position) => Food { position },
                None => {
                    return Err(GameError::InvalidConfig);
                },
            }
        };
        Ok(
            GameState {
                done: false,
                state: Lifecycle::Running,
                snake_state,
                food,
                field,
                config,
                source,
            },
        )
    }

    /// A standard game whose snake starts with its head at `(x, y)`.
    pub fn new(x: i32, y: i32, source: RandomSource) -> (r: Result<GameState, GameError>)
        ensures
            r is Ok <==> (Config { start_x: x, start_y: y, ..Config::standard() }).playable(),
            r matches Ok(game) ==> game.wf() && GameView::opens(
                Config { start_x: x, start_y: y, ..Config::standard() },
                source,
                game@,
            ),
            r matches Err(e) ==> e == GameError::InvalidConfig,
    {
        let standard: Config = Config::new();
        let config: Config = Config {
            window_width: standard.window_width,
            window_height: standard.window_height,
            field_width: standard.field_width,
            field_height: standard.field_height,
            start_x: x,
            start_y: y,
            initial_length: standard.initial_length,
            tick_interval_ms: standard.tick_interval_ms,
            boundary: standard.boundary,
        };
        GameState::with_config(config, source)
    }

    /// A copy of what a program that draws the game needs.
    pub fn snapshot(&self) -> (snapshot: Snapshot)
        ensures
            self@.shown_by(snapshot),
    {
        let source: &Vec<GridPosition> = self.snake_state.segments();
        let mut segments: Vec<GridPosition> = Vec::new();
        let mut i: usize = 0;
        while i < source.len()
            invariant
                i <= source@.len(),
                segments@ == source@.take(i as int),
            decreases source@.len() - i,
        {
            segments.push(source[i]);
            assert(source@.take(i as int + 1) =~= source@.take(i as int).push(source@[i as int]));
            i = i + 1;
        }
        assert(source@.take(i as int) =~= source@);
        Snapshot {
            done: self.done,
            state: self.state,
            heading: self.snake_state.heading(),
            requested_heading: self.snake_state.requested_heading(),
            segments,
            food: self.food.position,
            field_width: self.field.width(),
            field_height: self.field.height(),
        }
    }

    /// Where the game stands.
    pub fn state(&self) -> (state: Lifecycle)
        ensures
            state == self@.state,
    {
        self.state
    }

    /// Whether the player asked to leave.
    pub fn is_done(&self) -> (done: bool)
        ensures
            done == self@.done,
    {
        self.done
    }

    /// The snake.
    pub fn snake(&self) -> (snake: &SnakeState)
        ensures
            snake@ == self@.snake,
    {
        &self.snake_state
    }

    /// The cell of the food.
    pub fn food(&self) -> (position: GridPosition)
        ensures
            position == self@.food,
    {
        self.food.position
    }

    /// The field.
    pub fn field(&self) -> (field: GameField)
        ensures
            field@ == self@.field,
    {
        self.field
    }

    /// The configuration that the game was set up from.
    pub fn config(&self) -> (config: Config)
        ensures
            config == self@.config,
    {
        self.config
    }

    /// Moves the snake of a running game by exactly one cell, and lets it eat
    /// or die there; a paused or lost game stays as it is.
    pub fn update(&mut self)
        requires
            old(self).wf(),
        ensures
            final(self).wf(),
            GameView::updated(old(self)@, final(self)@),
    {
        if self.state != Lifecycle::Running {
            return;
        }
        proof {
            if !self.field@.leaves(self.snake_state@.target()) {
                lemma_settled_in_field(self.field@, self.snake_state@.target());
            }
            lemma_step_keeps_connected(self.snake_state@, self.field@);
        }
        let outcome: AdvanceOutcome = self.snake_state.advance(&self.field);
        match outcome {
            AdvanceOutcome::Moved(vacated) => {
                if self.snake_state.head() == self.food.position {
                    self.snake_state.grow(vacated);
                    match Food::respawn(
                        &self.field,
                        self.snake_state.segments(),
                        &mut self.source,
                    ) {
                        Some(position) => {
                            self.food = Food { position };
                        },
                        None => {},
                    }
                }
            },
            _ => {
                self.state = Lifecycle::GameOver;
            },
        }
    }

    /// Applies one intent of the player.
    pub fn apply(&mut self, intent: Intent)
        requires
            old(self).wf(),
        ensures
            final(self).wf(),
            GameView::applied(old(self)@, intent, final(self)@),
    {
        match intent {
            Intent::TogglePause => {
                self.state = match self.state {
                    Lifecycle::Running => Lifecycle::Paused,
                    Lifecycle::Paused => Lifecycle::Running,
                    Lifecycle::GameOver => Lifecycle::GameOver,
                };
            },
            Intent::Restart => {
                proof {
                    lemma_initial_connected(
                        self.config.start_x as int,
                        self.config.start_y as int,
                        self.config.initial_length as nat,
                        self.field@,
                    );
                }
                match SnakeState::new(
                    self.config.start_x,
                    self.config.start_y,
                    self.config.initial_length,
                ) {
                    Ok(fresh) => {
                        match Food::respawn(&self.field, fresh.segments(), &mut self.source) {
                            Some(position) => {
                                self.snake_state = fresh;
                                self.food = Food { position };
                                self.state = Lifecycle::Running;
                            },
                            None => {
                                assert(false);
                            },
                        }
                    },
                    Err(_) => {
                        assert(false);
                    },
                }
            },
            Intent::ForceGameOver => {
                self.state = Lifecycle::GameOver;
            },
            Intent::Quit => {
                self.done = true;
            },
            _ => {
                if self.state == Lifecycle::Running {
                    match intent.heading() {
                        Some(d) => {
                            self.snake_state.set_requested_heading(d);
                        },
                        None => {},
                    }
                }
            },
        }
    }
}

/// Handles the events of one tick in the order in which they came.
pub fn handle_events(state: &mut GameState, events: &Vec<InputEvent>)
    requires
        old(state).wf(),
    ensures
        final(state).wf(),
        GameView::handled(old(state)@, events@, final(state)@),
{
    let ghost mut trace: Seq<GameView> = seq![state@];
    let mut i: usize = 0;
    while i < events.len()
        invariant
            i <= events@.len(),
            state.wf(),
            GameView::follows(trace, events@.take(i as int)),
            trace[0] == old(state)@,
            trace.last() == state@,
        decreases events@.len() - i,
    {
        match Intent::from_event(events[i]) {
            Some(intent) => {
                state.apply(intent);
            },
            None => {},
        }
        proof {
            let longer = trace.push(state@);
            let seen = events@.take(i as int + 1);
            assert forall|j: int| 0 <= j < seen.len() implies GameView::event_handled(
                #[trigger] longer[j],
                seen[j],
                longer[j + 1],
            ) by {
                if j < i {
                    assert(longer[j] == trace[j]);
                    assert(longer[j + 1] == trace[j + 1]);
                    assert(seen[j] == events@.take(i as int)[j]);
                }
            }
            trace = longer;
        }
        i = i + 1;
    }
    assert(events@.take(i as int) =~= events@);
}

/// One tick of the loop that drives the game: handles the events that came
/// since the last tick, then updates the game, once. Says whether the loop
/// goes on, which it does until the player asks to leave.
pub fn tick(state: &mut GameState, events: &Vec<InputEvent>) -> (go_on: bool)
    requires
        old(state).wf(),
    ensures
        final(state).wf(),
        GameView::ticked(old(state)@, events@, final(state)@),
        go_on == !final(state)@.done,
{
    handle_events(state, events);
    let ghost mid: GameView = state@;
    process_game_logic(state);
    assert(GameView::handled(old(state)@, events@, mid) && GameView::updated(mid, state@));
    !state.is_done()
}

/// Updates the game: the same as `GameState::update`.
pub fn process_game_logic(state: &mut GameState)
    requires
        old(state).wf(),
    ensures
        final(state).wf(),
        GameView::updated(old(state)@, final(state)@),
{
    state.update();
}

} // verus!
