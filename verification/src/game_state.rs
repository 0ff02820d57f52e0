//! One run of the game: the snake, the food, the score and the tempo.
//!
//! A run is created fresh, advances one cell per tick, grows by one segment for
//! every food item eaten, and ends when the head would leave the grid or run
//! into the body.

use crate::config::{GameplayConfig, MAX_GRID_SIZE};
use crate::grid::{
    collides_with_body, first_free_cell, has_free_cell, in_bounds, initial_body, is_free,
    is_valid_body, lemma_body_fits_grid, place_initial_body, random_free_cell, valid_body,
    INITIAL_LENGTH,
};
use crate::interpolation::{
    interpolate, lemma_interpolate_endpoints, lemma_interpolate_monotonic, progress_after,
    Fraction, InterpolatedHead,
};
use std::collections::VecDeque;
use vstd::prelude::*;

verus! {

/// Points earned for each food item.
pub const FOOD_REWARD: u32 = 10;

/// A heading on the grid. `y` grows downwards, so `Up` decreases `y`.
#[derive(Debug, Clone, Copy, PartialEq, Eq, Structural)]
pub enum Direction {
    Up,
    Down,
    Left,
    Right,
}

impl Direction {
    /// The heading that points the other way.
    pub open spec fn spec_opposite(&self) -> Direction {
        match self {
            Direction::Up => Direction::Down,
            Direction::Down => Direction::Up,
            Direction::Left => Direction::Right,
            Direction::Right => Direction::Left,
        }
    }

    /// The heading that points the other way: `Up` and `Down` are opposites, and
    /// so are `Left` and `Right`.
    #[verifier::when_used_as_spec(spec_opposite)]
    pub fn opposite(&self) -> (d: Direction)
        ensures
            d == self.spec_opposite(),
    {
        match self {
            Direction::Up => Direction::Down,
            Direction::Down => Direction::Up,
            Direction::Left => Direction::Right,
            Direction::Right => Direction::Left,
        }
    }
}

/// A cell of the grid, by column and row.
#[derive(Debug, Clone, Copy, PartialEq, Eq, Structural)]
pub struct Position {
    pub x: i32,
    pub y: i32,
}

impl Position {
    /// The neighbouring cell in the given direction.
    pub open spec fn spec_step(self, direction: Direction) -> Position {
        match direction {
            Direction::Up => Position { x: self.x, y: (self.y - 1) as i32 },
            Direction::Down => Position { x: self.x, y: (self.y + 1) as i32 },
            Direction::Left => Position { x: (self.x - 1) as i32, y: self.y },
            Direction::Right => Position { x: (self.x + 1) as i32, y: self.y },
        }
    }

    /// The neighbouring cell in the given direction. The cell may lie off the
    /// grid; it must only be representable.
    #[verifier::when_used_as_spec(spec_step)]
    pub fn step(self, direction: Direction) -> (next: Position)
        requires
            i32::MIN < self.x < i32::MAX,
            i32::MIN < self.y < i32::MAX,
        ensures
            next == self.spec_step(direction),
    {
        match direction {
            Direction::Up => Position { x: self.x, y: self.y - 1 },
            Direction::Down => Position { x: self.x, y: self.y + 1 },
            Direction::Left => Position { x: self.x - 1, y: self.y },
            Direction::Right => Position { x: self.x + 1, y: self.y },
        }
    }
}

/// The tick interval after one more food item: shorter by the configured
/// step, but not below the configured minimum. An interval that is already at
/// or below the minimum stays as it is.
pub open spec fn next_speed(current_ms: u32, config: GameplayConfig) -> u32 {
    if current_ms <= config.min_speed_ms {
        current_ms
    } else if current_ms - config.speed_increase_per_food > config.min_speed_ms {
        (current_ms - config.speed_increase_per_food) as u32
    } else {
        config.min_speed_ms
    }
}

/// A run: everything that changes from tick to tick, and the configuration it
/// was created from.
pub struct GameState {
    /// The body, head first.
    pub snake: VecDeque<Position>,
    /// The heading of the last step taken.
    pub direction: Direction,
    /// The turn asked for since the last tick, if any.
    pub next_direction: Option<Direction>,
    pub food: Position,
    pub score: u32,
    pub game_over: bool,
    pub paused: bool,
    /// Current interval between two ticks, in milliseconds.
    pub current_speed_ms: u32,
    /// How far the current tick has progressed; used for drawing only.
    pub interpolation_progress: Fraction,
    pub config: GameplayConfig,
}

impl GameState {
    /// What every run satisfies from creation on, whatever is done to it.
    pub open spec fn well_formed(&self) -> bool {
        let grid_size: u32 = self.config.grid_size;
        &&& self.config.valid()
        &&& self.snake@.len() >= INITIAL_LENGTH
        &&& valid_body(self.snake@, grid_size)
        &&& self.score == FOOD_REWARD * (self.snake@.len() - INITIAL_LENGTH)
        &&& in_bounds(self.food, grid_size)
        &&& (self.snake@.contains(self.food) ==> !has_free_cell(self.snake@, grid_size))
        &&& self.current_speed_ms <= self.config.initial_speed_ms
        &&& (self.current_speed_ms >= self.config.min_speed_ms || self.current_speed_ms
            == self.config.initial_speed_ms)
        &&& self.interpolation_progress.well_formed()
        &&& !(self.game_over && self.paused)
    }

    /// A run as it is right after creation or reset.
    pub open spec fn is_fresh(&self) -> bool {
        &&& self.snake@ == initial_body(self.config.grid_size)
        &&& self.direction == Direction::Right
        &&& self.next_direction is None
        &&& is_free(self.food, self.snake@, self.config.grid_size)
        &&& self.score == 0
        &&& !self.game_over
        &&& !self.paused
        &&& self.current_speed_ms == self.config.initial_speed_ms
        &&& self.interpolation_progress == Fraction::zero()
    }

    /// The run is neither paused nor over, so ticks move the snake.
    pub open spec fn is_active(&self) -> bool {
        !self.game_over && !self.paused
    }

    /// The cell the head is on.
    pub open spec fn head(&self) -> Position {
        self.snake@[0]
    }

    /// The cell the head was on before the last step.
    pub open spec fn previous_head(&self) -> Position {
        self.head().step(self.direction.opposite())
    }

    /// The heading of the next step: the buffered turn unless it would reverse
    /// the snake, else the current heading.
    pub open spec fn heading(&self) -> Direction {
        match self.next_direction {
            Some(turn) if turn != self.direction.opposite() => turn,
            _ => self.direction,
        }
    }

    /// The cell the head moves to at the next step.
    pub open spec fn next_head(&self) -> Position {
        self.head().step(self.heading())
    }

    /// The next step ends the run: the head would leave the grid or hit the
    /// body. The body counts as it is before the step, tail included.
    pub open spec fn crashes(&self) -> bool {
        let ahead = self.next_head();
        !in_bounds(ahead, self.config.grid_size) || self.snake@.contains(ahead)
    }

    /// The next step lands on the food.
    pub open spec fn eats(&self) -> bool {
        !self.crashes() && self.next_head() == self.food
    }

    /// What the turn buffer holds after `turn` was asked for: the turn, unless
    /// it repeats or reverses the current heading.
    pub open spec fn buffer_after(&self, turn: Direction) -> Option<Direction> {
        if turn == self.direction || turn == self.direction.opposite() {
            self.next_direction
        } else {
            Some(turn)
        }
    }

    /// Tells whether the run is well formed. Runs made and changed by this
    /// type's own functions always are; the check is for runs whose fields were
    /// written from outside.
    pub fn is_well_formed(&self) -> (ok: bool)
        ensures
            ok == self.well_formed(),
    {
        let grid_size: u32 = self.config.grid_size;
        if !self.config.is_valid() || self.snake.len() < INITIAL_LENGTH {
            return false;
        }
        if !is_valid_body(&self.snake, grid_size) {
            return false;
        }
        proof {
            lemma_body_fits_grid(self.snake@, grid_size);
            lemma_score_fits(grid_size, self.snake@.len());
        }
        let grown: u64 = (self.snake.len() - INITIAL_LENGTH) as u64;
        if self.score as u64 != (FOOD_REWARD as u64) * grown {
            return false;
        }
        if !in_bounds(self.food, grid_size) {
            return false;
        }
        if collides_with_body(self.food, &self.snake) {
            // Food under the body is in order only where the body covers the
            // whole grid.
            if first_free_cell(&self.snake, grid_size).is_some() {
                return false;
            }
        }
        let speed: u32 = self.current_speed_ms;
        let progress = self.interpolation_progress;
        speed <= self.config.initial_speed_ms
            && (speed >= self.config.min_speed_ms || speed == self.config.initial_speed_ms)
            && 0 < progress.den
            && progress.num <= progress.den
            && !(self.game_over && self.paused)
    }

    /// Creates a run from a configuration: three segments in the middle of the
    /// grid heading right, food on some free cell, no score, initial tempo.
    pub fn new(config: GameplayConfig) -> (game: GameState)
        requires
            config.valid(),
        ensures
            game.config == config,
            game.is_fresh(),
            game.well_formed(),
    {
        let snake = place_initial_body(config.grid_size);
        let corner = Position { x: 0, y: 0 };
        let food = match random_free_cell(&snake, config.grid_size) {
            Some(cell) => cell,
            None => corner,
        };
        GameState {
            snake,
            direction: Direction::Right,
            next_direction: None,
            food,
            score: 0,
            game_over: false,
            paused: false,
            current_speed_ms: config.initial_speed_ms,
            interpolation_progress: Fraction::zero(),
            config,
        }
    }

    /// Starts the run over with the same configuration.
    pub fn reset(&mut self)
        requires
            old(self).config.valid(),
        ensures
            final(self).config == old(self).config,
            final(self).is_fresh(),
            final(self).well_formed(),
    {
        *self = GameState::new(self.config);
    }

    /// Buffers a turn for the next tick. Asking for the current heading or for
    /// its opposite changes nothing; any other turn replaces what was buffered.
    pub fn set_direction(&mut self, new_direction: Direction)
        ensures
            *final(self) == (GameState {
                next_direction: old(self).buffer_after(new_direction),
                ..*old(self)
            }),
            new_direction == old(self).direction.opposite() ==> *final(self) == *old(self),
            old(self).well_formed() ==> final(self).well_formed(),
    {
        if new_direction != self.direction.opposite() {
            if new_direction != self.direction {
                self.next_direction = Some(new_direction);
            }
        }
    }

    /// What one tick makes of a run: `after` is the run one tick after `self`,
    /// and `eaten` tells whether that tick ate the food.
    ///
    /// A paused or finished run does not move. Otherwise the buffered turn is
    /// taken (unless it reverses the snake) and dropped, and the head moves one
    /// cell. Leaving the grid or running into the body, as it lies before the
    /// step, ends the run and leaves the body where it is. Landing on the food
    /// grows the body by the new head, adds the reward, shortens the tick
    /// interval and puts new food on a free cell; if the body now covers the
    /// whole grid the food stays where it was. Any other step moves the body
    /// along, tail cell given up.
    pub open spec fn steps_to(&self, after: GameState, eaten: bool) -> bool {
        if !self.is_active() {
            !eaten && after == *self
        } else {
            &&& after.config == self.config
            &&& eaten == self.eats()
            &&& after.game_over == self.crashes()
            &&& !after.paused
            &&& after.direction == self.heading()
            &&& after.next_direction is None
            &&& after.interpolation_progress == Fraction::zero()
            &&& if self.crashes() {
                &&& after.snake@ == self.snake@
                &&& after.food == self.food
                &&& after.score == self.score
                &&& after.current_speed_ms == self.current_speed_ms
            } else if self.eats() {
                &&& after.snake@ == seq![self.next_head()] + self.snake@
                &&& after.score == self.score + FOOD_REWARD
                &&& after.current_speed_ms == next_speed(self.current_speed_ms, self.config)
                &&& if has_free_cell(after.snake@, self.config.grid_size) {
                    is_free(after.food, after.snake@, self.config.grid_size)
                } else {
                    after.food == self.food
                }
            } else {
                &&& after.snake@ == (seq![self.next_head()] + self.snake@).drop_last()
                &&& after.food == self.food
                &&& after.score == self.score
                &&& after.current_speed_ms == self.current_speed_ms
            }
        }
    }

    /// Advances the run by one tick and tells whether food was eaten.
    pub fn update(&mut self) -> (eaten: bool)
        requires
            old(self).well_formed(),
        ensures
            final(self).well_formed(),
            old(self).steps_to(*final(self), eaten),
            // A step onto a free cell of the grid never ends the run.
            !old(self).crashes() ==> final(self).game_over == old(self).game_over,
            // Food is worth exactly the reward, and it never takes the tick
            // interval below the configured minimum: should the interval change,
            // it is at least the minimum afterwards.
            eaten ==> {
                &&& final(self).score == old(self).score + FOOD_REWARD
                &&& (final(self).current_speed_ms >= old(self).config.min_speed_ms
                    || final(self).current_speed_ms == old(self).current_speed_ms)
            },
            // The body grows by one segment with food and keeps its length
            // otherwise.
            eaten ==> final(self).snake@.len() == old(self).snake@.len() + 1,
            !eaten ==> final(self).snake@.len() == old(self).snake@.len(),
            // Within a run the score never falls, the interval never grows, and
            // a finished run stays finished.
            final(self).score >= old(self).score,
            final(self).current_speed_ms <= old(self).current_speed_ms,
            old(self).game_over ==> final(self).game_over,
    {
        if self.game_over || self.paused {
            return false;
        }
        self.interpolation_progress = Fraction::zero();
        let buffered = self.next_direction;
        self.next_direction = None;
        match buffered {
            Some(turn) => {
                if turn != self.direction.opposite() {
                    self.direction = turn;
                }
            },
            None => {},
        }
        let head = self.snake[0];
        let new_head = head.step(self.direction);
        let grid_size: u32 = self.config.grid_size;
        if !in_bounds(new_head, grid_size) || collides_with_body(new_head, &self.snake) {
            self.game_over = true;
            return false;
        }
        // The cell ahead is free, so the body did not cover the grid and the
        // food did not lie under it.
        assert(is_free(new_head, old(self).snake@, grid_size));
        self.snake.push_front(new_head);
        if new_head == self.food {
            proof {
                lemma_body_fits_grid(self.snake@, grid_size);
                lemma_score_fits(grid_size, self.snake@.len());
            }
            self.score += FOOD_REWARD;
            self.spawn_food();
            self.increase_speed();
            true
        } else {
            self.snake.pop_back();
            false
        }
    }

    /// Puts the food on a free cell, if the body leaves one.
    fn spawn_food(&mut self)
        requires
            0 < old(self).config.grid_size <= i32::MAX,
        ensures
            *final(self) == (GameState { food: final(self).food, ..*old(self) }),
            if has_free_cell(old(self).snake@, old(self).config.grid_size) {
                is_free(final(self).food, old(self).snake@, old(self).config.grid_size)
            } else {
                final(self).food == old(self).food
            },
    {
        match random_free_cell(&self.snake, self.config.grid_size) {
            Some(cell) => {
                self.food = cell;
            },
            None => {},
        }
    }

    /// Shortens the tick interval by the configured step, down to the
    /// configured minimum.
    fn increase_speed(&mut self)
        ensures
            *final(self) == (GameState {
                current_speed_ms: next_speed(old(self).current_speed_ms, old(self).config),
                ..*old(self)
            }),
    {
        let decrease: u32 = self.config.speed_increase_per_food;
        let min_speed: u32 = self.config.min_speed_ms;
        if self.current_speed_ms > min_speed {
            let faster: u32 = self.current_speed_ms.saturating_sub(decrease);
            self.current_speed_ms = if faster > min_speed {
                faster
            } else {
                min_speed
            };
        }
    }

    /// Pauses an active run and resumes a paused one. A finished run stays as
    /// it is.
    pub fn toggle_pause(&mut self)
        ensures
            *final(self) == (GameState {
                paused: if old(self).game_over {
                    old(self).paused
                } else {
                    !old(self).paused
                },
                ..*old(self)
            }),
            old(self).well_formed() ==> final(self).well_formed(),
    {
        if !self.game_over {
            self.paused = !self.paused;
        }
    }

    /// The run once `elapsed_ms` of the current tick have passed: an active run
    /// has its progress set accordingly, a paused or finished one keeps the
    /// progress it had. Nothing else changes.
    pub open spec fn drawn_at(&self, elapsed_ms: u64) -> GameState {
        GameState {
            interpolation_progress: if self.is_active() {
                progress_after(elapsed_ms, self.current_speed_ms)
            } else {
                self.interpolation_progress
            },
            ..*self
        }
    }

    /// Records how much of the current tick has passed, for drawing. A paused
    /// or finished run keeps the progress it had.
    pub fn update_interpolation(&mut self, elapsed_ms: u64)
        ensures
            *final(self) == old(self).drawn_at(elapsed_ms),
            old(self).well_formed() ==> final(self).well_formed(),
    {
        if !self.game_over && !self.paused {
            self.interpolation_progress = progress_after(elapsed_ms, self.current_speed_ms);
        }
    }

    /// Where to draw the head: on the way from the cell it left at the last
    /// step to the cell it is on, as far along as the tick has progressed.
    pub open spec fn spec_get_interpolated_head(&self) -> InterpolatedHead {
        interpolate(self.previous_head(), self.head(), self.interpolation_progress)
    }

    /// Computes where to draw the head.
    #[verifier::when_used_as_spec(spec_get_interpolated_head)]
    pub fn get_interpolated_head(&self) -> (point: InterpolatedHead)
        requires
            self.well_formed(),
        ensures
            point == self.spec_get_interpolated_head(),
            self.interpolation_progress.is_start() ==> point.is_at(self.previous_head()),
            self.interpolation_progress.is_complete() ==> point.is_at(self.head()),
    {
        let head = self.snake[0];
        let previous = head.step(self.direction.opposite());
        proof {
            lemma_interpolate_endpoints(previous, head, self.interpolation_progress);
        }
        interpolate(previous, head, self.interpolation_progress)
    }
}

/// Between two ticks the drawn head only moves forward: of two views of the
/// same step, the one further through the tick is drawn at least as far along
/// the way from the cell the head left to the cell it is on, and neither is
/// drawn outside that stretch.
pub proof fn lemma_interpolated_head_monotonic(earlier: GameState, later: GameState)
    requires
        earlier.head() == later.head(),
        earlier.direction == later.direction,
        later.interpolation_progress.well_formed(),
        earlier.interpolation_progress.den == later.interpolation_progress.den,
        earlier.interpolation_progress.num <= later.interpolation_progress.num,
    ensures
        ({
            let from = later.previous_head();
            let to = later.head();
            let scale: u32 = later.interpolation_progress.den;
            let a = earlier.get_interpolated_head();
            let b = later.get_interpolated_head();
            &&& a.scale == b.scale == scale
            &&& from.x <= to.x ==> from.x * scale <= a.x <= b.x <= to.x * scale
            &&& from.x >= to.x ==> from.x * scale >= a.x >= b.x >= to.x * scale
            &&& from.y <= to.y ==> from.y * scale <= a.y <= b.y <= to.y * scale
            &&& from.y >= to.y ==> from.y * scale >= a.y >= b.y >= to.y * scale
        }),
{
    lemma_interpolate_monotonic(
        later.previous_head(),
        later.head(),
        earlier.interpolation_progress,
        later.interpolation_progress,
    );
}

/// However long a snake gets on a grid of allowed size, its score fits the
/// counter.
proof fn lemma_score_fits(grid_size: u32, length: nat)
    requires
        grid_size <= MAX_GRID_SIZE,
        length <= grid_size * grid_size,
    ensures
        FOOD_REWARD * (length - INITIAL_LENGTH) <= u32::MAX,
{
    assert(grid_size * grid_size <= 20_724 * 20_724) by (nonlinear_arith)
        requires
            0 <= grid_size <= 20_724,
    ;
}

} // verus!
