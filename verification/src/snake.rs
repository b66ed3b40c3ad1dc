//! The snake simulation: one game's state and the rules of one tick.

use vstd::prelude::*;
use vstd::set_lib::{lemma_int_range, lemma_len_subset, set_int_range};
use crate::food::{
    cell_is_free, contains_before, is_free, lemma_spawned_food_is_free, spawn_food, spawned_food,
    state_after_spawn,
};
use crate::glyph::{random_matrix_char, spec_glyph_from_draw, GLYPH_COUNT};
use crate::grid::{Cell, Direction, CENTER_X, CENTER_Y, GRID_AREA};
use crate::map::GridMap;
use crate::random::{advance, range_draw, RandomSource};

verus! {

/// Default time between two ticks, in microseconds.
pub const DEFAULT_MOVE_INTERVAL: u64 = 120_000;

/// Number of cells of the snake at the start of a run. The snake grows by
/// one cell with each food, so its length is the score and this.
pub const START_LENGTH: usize = 3;

/// Highest volume, in percent.
pub const MAX_VOLUME: u32 = 100;

/// Why a run ended.
#[derive(Copy, Clone, PartialEq, Eq, Debug, Structural)]
pub enum DeathCause {
    /// The head would have left the grid.
    OutOfBounds,
    /// The head would have entered a wall.
    Wall,
    /// The head would have entered the snake's own body.
    SelfCollision,
}

/// What one call of `step` did.
#[derive(Copy, Clone, PartialEq, Eq, Debug, Structural)]
pub enum StepOutcome {
    /// No tick was due, or the run is over: nothing moved.
    Idle,
    /// The snake moved one cell.
    Moved,
    /// The snake moved onto the food and grew by one cell.
    Ate,
    /// The move was fatal and the run is over.
    Died(DeathCause),
}

/// What a game is, as plain values: the view that contracts speak of.
pub struct SnakeView {
    /// The snake's cells, head first.
    pub snake: Seq<Cell>,
    /// The glyph shown on each cell of the snake.
    pub body_chars: Seq<char>,
    /// The direction of the last tick.
    pub direction: Direction,
    /// The direction that the next tick will take.
    pub next_direction: Direction,
    /// The cell that holds food, if a free cell could be found for it.
    pub food: Option<Cell>,
    /// The glyph shown on the food.
    pub food_char: char,
    /// Time gathered since the last tick, in microseconds.
    pub elapsed: u64,
    /// Number of foods eaten.
    pub score: u32,
    /// Whether the run is still on.
    pub alive: bool,
    /// The map that is played on.
    pub map: GridMap,
    /// Time between two ticks, in microseconds.
    pub move_interval: u64,
    /// Sound volume in percent.
    pub volume: u32,
}

impl SnakeView {
    /// The head of the snake.
    pub open spec fn head(self) -> Cell {
        self.snake[0]
    }

    /// The cell that the head enters on the next tick.
    pub open spec fn tentative(self) -> Cell {
        self.head().spec_neighbor(self.next_direction)
    }

    /// The invariant of a game.
    pub open spec fn valid(self) -> bool {
        &&& self.map.wf()
        &&& self.snake.len() == self.score + START_LENGTH
        &&& self.body_chars.len() == self.snake.len()
        &&& forall|i: int| 0 <= i < self.snake.len() ==> (#[trigger] self.snake[i]).in_bounds()
        &&& forall|i: int|
            0 <= i < self.snake.len() ==> !self.map.spec_is_wall(#[trigger] self.snake[i])
        &&& self.snake.no_duplicates()
        &&& forall|i: int|
            0 < i < self.snake.len() ==> (#[trigger] self.snake[i]).adjacent(self.snake[i - 1])
        &&& (self.food matches Some(f) ==> is_free(self.snake, self.map, f))
        &&& self.next_direction != self.direction.spec_opposite()
        &&& self.volume <= MAX_VOLUME
    }

    /// The time gathered once `dt` microseconds are added. It stops at the
    /// largest value that fits.
    pub open spec fn accumulated(self, dt: u64) -> u64 {
        if self.elapsed + dt > u64::MAX {
            u64::MAX
        } else {
            (self.elapsed + dt) as u64
        }
    }

    /// A call of `step` with `dt` makes a tick.
    pub open spec fn tick_due(self, dt: u64) -> bool {
        self.alive && self.accumulated(dt) >= self.move_interval
    }

    /// What the next tick's move runs into, if anything. The grid's edge is
    /// looked at first, then the walls, then the snake's own cells. The cell
    /// that the tail is about to leave does not count.
    pub open spec fn collision(self) -> Option<DeathCause> {
        let t = self.tentative();
        if !t.in_bounds() {
            Some(DeathCause::OutOfBounds)
        } else if self.map.spec_is_wall(t) {
            Some(DeathCause::Wall)
        } else if self.snake.drop_last().contains(t) {
            Some(DeathCause::SelfCollision)
        } else {
            None
        }
    }

    /// The fresh game on `map`: a snake of three cells at the centre heading
    /// right, no score, and food and glyphs drawn from a source at `state`.
    pub open spec fn fresh(map: GridMap, move_interval: u64, volume: u32, state: u64) -> SnakeView {
        let snake = start_cells();
        let s3 = advance(advance(advance(state)));
        SnakeView {
            snake,
            body_chars: seq![
                spec_glyph_from_draw(range_draw(state, 0, GLYPH_COUNT)),
                spec_glyph_from_draw(range_draw(advance(state), 0, GLYPH_COUNT)),
                spec_glyph_from_draw(range_draw(advance(advance(state)), 0, GLYPH_COUNT)),
            ],
            direction: Direction::Right,
            next_direction: Direction::Right,
            food: spawned_food(s3, snake, map),
            food_char: spec_glyph_from_draw(
                range_draw(state_after_spawn(s3, snake, map), 0, GLYPH_COUNT),
            ),
            elapsed: 0,
            score: 0,
            alive: true,
            map,
            move_interval,
            volume: if volume > MAX_VOLUME {
                MAX_VOLUME
            } else {
                volume
            },
        }
    }

    /// The state of the source after it made a fresh game from `state`.
    pub open spec fn state_after_fresh(map: GridMap, state: u64) -> u64 {
        let s3 = advance(advance(advance(state)));
        advance(state_after_spawn(s3, start_cells(), map))
    }
}

/// The cells of a snake at the start of a run, head first.
pub open spec fn start_cells() -> Seq<Cell> {
    seq![
        Cell { x: CENTER_X, y: CENTER_Y },
        Cell { x: (CENTER_X - 1) as i32, y: CENTER_Y },
        Cell { x: (CENTER_X - 2) as i32, y: CENTER_Y },
    ]
}

/// What `step` makes of a game `v`, given `dt` microseconds and a source at
/// `state`: the game after the call, what happened, and the source's state
/// after the call.
pub open spec fn step_result(v: SnakeView, dt: u64, state: u64) -> (SnakeView, StepOutcome, u64) {
    if !v.alive {
        (v, StepOutcome::Idle, state)
    } else if v.accumulated(dt) < v.move_interval {
        (SnakeView { elapsed: v.accumulated(dt), ..v }, StepOutcome::Idle, state)
    } else {
        let ticked = SnakeView {
            elapsed: (v.accumulated(dt) - v.move_interval) as u64,
            direction: v.next_direction,
            ..v
        };
        match v.collision() {
            Some(cause) => (SnakeView { alive: false, ..ticked }, StepOutcome::Died(cause), state),
            None => {
                let t = v.tentative();
                let glyph = spec_glyph_from_draw(range_draw(state, 0, GLYPH_COUNT));
                if v.food == Some(t) {
                    let snake = v.snake.insert(0, t);
                    let after = state_after_spawn(advance(state), snake, v.map);
                    (
                        SnakeView {
                            snake,
                            body_chars: v.body_chars.insert(0, glyph),
                            score: (v.score + 1) as u32,
                            food: spawned_food(advance(state), snake, v.map),
                            food_char: spec_glyph_from_draw(range_draw(after, 0, GLYPH_COUNT)),
                            ..ticked
                        },
                        StepOutcome::Ate,
                        advance(after),
                    )
                } else {
                    (
                        SnakeView {
                            snake: v.snake.insert(0, t).drop_last(),
                            body_chars: v.body_chars.insert(0, glyph).drop_last(),
                            ..ticked
                        },
                        StepOutcome::Moved,
                        advance(state),
                    )
                }
            },
        }
    }
}

/// Distinct cells of the grid are at most as many as the grid has cells.
pub proof fn lemma_distinct_cells_fit(s: Seq<Cell>)
    requires
        s.no_duplicates(),
        forall|i: int| 0 <= i < s.len() ==> (#[trigger] s[i]).in_bounds(),
    ensures
        s.len() <= GRID_AREA,
{
    let t = s.map_values(|c: Cell| c.spec_index());
    assert forall|i: int, j: int| 0 <= i < t.len() && 0 <= j < t.len() && i != j implies t[i]
        != t[j] by {
        assert(s[i].in_bounds() && s[j].in_bounds());
        assert(s[i] != s[j]);
    }
    t.unique_seq_to_set();
    let range = set_int_range(0, GRID_AREA as int);
    lemma_int_range(0, GRID_AREA as int);
    assert forall|k: int| t.to_set().contains(k) implies range.contains(k) by {
        let i = choose|i: int| 0 <= i < t.len() && t[i] == k;
        assert(s[i].in_bounds());
    }
    lemma_len_subset(t.to_set(), range);
}

/// One game: the snake, the food, the score and the map they live on.
pub struct SnakeGame {
    snake: Vec<Cell>,
    body_chars: Vec<char>,
    direction: Direction,
    next_direction: Direction,
    food: Option<Cell>,
    food_char: char,
    elapsed: u64,
    score: u32,
    alive: bool,
    map: GridMap,
    move_interval: u64,
    volume: u32,
}

impl View for SnakeGame {
    type V = SnakeView;

    closed spec fn view(&self) -> SnakeView {
        SnakeView {
            snake: self.snake@,
            body_chars: self.body_chars@,
            direction: self.direction,
            next_direction: self.next_direction,
            food: self.food,
            food_char: self.food_char,
            elapsed: self.elapsed,
            score: self.score,
            alive: self.alive,
            map: self.map,
            move_interval: self.move_interval,
            volume: self.volume,
        }
    }
}

impl SnakeGame {
    /// The game's invariant holds.
    pub open spec fn wf(&self) -> bool {
        self@.valid()
    }

    /// Starts a run on `map`: the snake lies at the centre heading right, the
    /// score is zero, and the glyphs and the food are drawn from `rng`. A
    /// volume above 100 percent counts as 100.
    pub fn new(map: GridMap, move_interval: u64, volume: u32, rng: &mut RandomSource) -> (r:
        SnakeGame)
        requires
            map.wf(),
        ensures
            r.wf(),
            r@ == SnakeView::fresh(map, move_interval, volume, old(rng).state()),
            final(rng).state() == SnakeView::state_after_fresh(map, old(rng).state()),
            r@.food is Some,
    {
        let mut game = SnakeGame {
            snake: Vec::new(),
            body_chars: Vec::new(),
            direction: Direction::Right,
            next_direction: Direction::Right,
            food: None,
            food_char: ' ',
            elapsed: 0,
            score: 0,
            alive: true,
            map,
            move_interval,
            volume: if volume > MAX_VOLUME {
                MAX_VOLUME
            } else {
                volume
            },
        };
        game.restart(rng);
        game
    }

    /// Starts the run again on the same map, with the same speed and volume.
    pub fn restart(&mut self, rng: &mut RandomSource)
        requires
            old(self)@.map.wf(),
            old(self)@.volume <= MAX_VOLUME,
        ensures
            final(self).wf(),
            final(self)@ == SnakeView::fresh(
                old(self)@.map,
                old(self)@.move_interval,
                old(self)@.volume,
                old(rng).state(),
            ),
            final(rng).state() == SnakeView::state_after_fresh(old(self)@.map, old(rng).state()),
            final(self)@.food is Some,
    {
        let mut snake: Vec<Cell> = Vec::new();
        snake.push(Cell { x: CENTER_X, y: CENTER_Y });
        snake.push(Cell { x: CENTER_X - 1, y: CENTER_Y });
        snake.push(Cell { x: CENTER_X - 2, y: CENTER_Y });
        assert(snake@ =~= start_cells());
        let c0 = random_matrix_char(rng);
        let c1 = random_matrix_char(rng);
        let c2 = random_matrix_char(rng);
        let mut body_chars: Vec<char> = Vec::new();
        body_chars.push(c0);
        body_chars.push(c1);
        body_chars.push(c2);
        let food = spawn_food(rng, snake.as_slice(), &self.map);
        let food_char = random_matrix_char(rng);
        proof {
            lemma_start_is_valid(self.map);
            assert(food is Some) by {
                let spare = Cell { x: CENTER_X, y: (CENTER_Y - 1) as i32 };
                self.map.lemma_walls_generated(spare);
                assert(!start_cells().contains(spare));
                assert(is_free(start_cells(), self.map, spare));
            }
            assert(body_chars@ =~= SnakeView::fresh(
                self.map,
                self.move_interval,
                self.volume,
                old(rng).state(),
            ).body_chars);
        }
        self.snake = snake;
        self.body_chars = body_chars;
        self.direction = Direction::Right;
        self.next_direction = Direction::Right;
        self.food = food;
        self.food_char = food_char;
        self.elapsed = 0;
        self.score = 0;
        self.alive = true;
    }

    /// Takes a direction that the player asked for. It becomes the direction
    /// of the next tick unless it is the reverse of the current direction; the
    /// latest accepted one wins.
    pub fn handle_input(&mut self, pressed: Option<Direction>)
        requires
            old(self).wf(),
        ensures
            final(self).wf(),
            final(self)@ == (SnakeView {
                next_direction: accepted_direction(old(self)@, pressed),
                ..old(self)@
            }),
    {
        match pressed {
            Some(d) => {
                if d != self.direction.opposite() {
                    self.next_direction = d;
                }
            },
            None => {},
        }
    }

    /// Moves the food to `cell` if food may lie there, and says whether it
    /// did.
    pub fn place_food(&mut self, cell: Cell) -> (r: bool)
        requires
            old(self).wf(),
        ensures
            final(self).wf(),
            r == is_free(old(self)@.snake, old(self)@.map, cell),
            final(self)@ == (SnakeView {
                food: if r {
                    Some(cell)
                } else {
                    old(self)@.food
                },
                ..old(self)@
            }),
    {
        if cell_is_free(self.snake.as_slice(), &self.map, cell) {
            self.food = Some(cell);
            true
        } else {
            false
        }
    }

    /// Advances the game by `dt` microseconds. Nothing happens once the run
    /// is over, and nothing moves until the time gathered reaches the move
    /// interval. Then one tick is made: the pending direction is taken, the
    /// head's next cell is checked against the grid's edge, the walls and the
    /// snake, in that order, and the snake moves there, growing by one cell
    /// if the food was on it. The cell that the tail is about to leave does
    /// not count as the snake's. The time beyond the interval is carried
    /// over.
    pub fn step(&mut self, dt: u64, rng: &mut RandomSource) -> (outcome: StepOutcome)
        requires
            old(self).wf(),
        ensures
            final(self).wf(),
            (final(self)@, outcome, final(rng).state()) == step_result(
                old(self)@,
                dt,
                old(rng).state(),
            ),
    {
        proof {
            lemma_step_keeps_valid(self@, dt, rng.state());
            lemma_distinct_cells_fit(self.snake@);
        }
        if !self.alive {
            return StepOutcome::Idle;
        }
        self.elapsed = self.elapsed.saturating_add(dt);
        if self.elapsed < self.move_interval {
            return StepOutcome::Idle;
        }
        self.elapsed = self.elapsed - self.move_interval;
        self.direction = self.next_direction;
        let head = self.snake[0];
        let tentative = head.neighbor(self.direction);
        if !tentative.in_bounds() {
            self.alive = false;
            return StepOutcome::Died(DeathCause::OutOfBounds);
        }
        if self.map.is_wall(tentative) {
            self.alive = false;
            return StepOutcome::Died(DeathCause::Wall);
        }
        let body_len: usize = self.snake.len() - 1;
        if contains_before(self.snake.as_slice(), body_len, tentative) {
            self.alive = false;
            return StepOutcome::Died(DeathCause::SelfCollision);
        }
        let eats = match self.food {
            Some(f) => f == tentative,
            None => false,
        };
        self.snake.insert(0, tentative);
        let glyph = random_matrix_char(rng);
        self.body_chars.insert(0, glyph);
        if eats {
            self.score = self.score + 1;
            self.food = spawn_food(rng, self.snake.as_slice(), &self.map);
            self.food_char = random_matrix_char(rng);
            StepOutcome::Ate
        } else {
            self.snake.pop();
            self.body_chars.pop();
            StepOutcome::Moved
        }
    }

    /// The snake's cells, head first.
    pub fn snake(&self) -> (r: &Vec<Cell>)
        ensures
            r@ == self@.snake,
    {
        &self.snake
    }

    /// The glyph shown on each cell of the snake, head first.
    pub fn body_chars(&self) -> (r: &Vec<char>)
        ensures
            r@ == self@.body_chars,
    {
        &self.body_chars
    }

    /// The direction of the last tick.
    pub fn direction(&self) -> (r: Direction)
        ensures
            r == self@.direction,
    {
        self.direction
    }

    /// The direction that the next tick will take.
    pub fn next_direction(&self) -> (r: Direction)
        ensures
            r == self@.next_direction,
    {
        self.next_direction
    }

    /// The cell that holds food, if any.
    pub fn food(&self) -> (r: Option<Cell>)
        ensures
            r == self@.food,
    {
        self.food
    }

    /// The glyph shown on the food.
    pub fn food_char(&self) -> (r: char)
        ensures
            r == self@.food_char,
    {
        self.food_char
    }

    /// Time gathered since the last tick, in microseconds.
    pub fn elapsed(&self) -> (r: u64)
        ensures
            r == self@.elapsed,
    {
        self.elapsed
    }

    /// Number of foods eaten.
    pub fn score(&self) -> (r: u32)
        ensures
            r == self@.score,
    {
        self.score
    }

    /// Whether the run is still on.
    pub fn is_alive(&self) -> (r: bool)
        ensures
            r == self@.alive,
    {
        self.alive
    }

    /// The map that is played on.
    pub fn map(&self) -> (r: &GridMap)
        ensures
            *r == self@.map,
    {
        &self.map
    }

    /// Time between two ticks, in microseconds.
    pub fn move_interval(&self) -> (r: u64)
        ensures
            r == self@.move_interval,
    {
        self.move_interval
    }

    /// Sound volume in percent.
    pub fn volume(&self) -> (r: u32)
        ensures
            r == self@.volume,
    {
        self.volume
    }

    /// Gives the map back when the game is no longer needed.
    pub fn into_map(self) -> (r: GridMap)
        ensures
            r == self@.map,
    {
        self.map
    }
}

/// The direction of the next tick after the player asked for `pressed`: the
/// one asked for, unless it is the reverse of the current direction or none
/// was asked for.
pub open spec fn accepted_direction(v: SnakeView, pressed: Option<Direction>) -> Direction {
    match pressed {
        Some(d) => if d != v.direction.spec_opposite() {
            d
        } else {
            v.next_direction
        },
        None => v.next_direction,
    }
}

/// `step` keeps a game valid.
pub proof fn lemma_step_keeps_valid(v: SnakeView, dt: u64, state: u64)
    requires
        v.valid(),
    ensures
        step_result(v, dt, state).0.valid(),
{
    let w = step_result(v, dt, state).0;
    lemma_distinct_cells_fit(v.snake);
    if v.tick_due(dt) && v.collision() is None {
        let t = v.tentative();
        let grown = v.snake.insert(0, t);
        assert(t == v.snake[0].spec_neighbor(v.next_direction));
        assert(v.snake[0].in_bounds());
        assert forall|i: int| 0 <= i < v.snake.len() - 1 implies v.snake[i] != t by {
            assert(v.snake.drop_last()[i] == v.snake[i]);
        }
        if v.food == Some(t) {
            assert(w.snake == grown);
            assert(!v.snake.contains(t));
            assert(grown.no_duplicates());
            assert forall|i: int| 0 < i < grown.len() implies (#[trigger] grown[i]).adjacent(
                grown[i - 1],
            ) by {
                if i > 1 {
                    assert(v.snake[i - 1].adjacent(v.snake[i - 2]));
                }
            }
            lemma_spawned_food_is_free(advance(state), grown, v.map);
        } else {
            let moved = grown.drop_last();
            assert(w.snake == moved);
            assert forall|i: int| 0 < i < moved.len() implies (#[trigger] moved[i]).adjacent(
                moved[i - 1],
            ) by {
                if i > 1 {
                    assert(v.snake[i - 1].adjacent(v.snake[i - 2]));
                }
            }
            assert(moved.no_duplicates());
            if let Some(f) = v.food {
                assert forall|i: int| 0 <= i < moved.len() implies moved[i] != f by {
                    if i > 0 {
                        assert(v.snake[i - 1] == moved[i]);
                        assert(v.snake.contains(v.snake[i - 1]));
                    }
                }
            }
        }
    }
}

/// The start cells lie on the grid, differ, touch, and are free of walls on
/// every generated map.
pub proof fn lemma_start_is_valid(map: GridMap)
    requires
        map.wf(),
    ensures
        forall|i: int| 0 <= i < start_cells().len() ==> (#[trigger] start_cells()[i]).in_bounds(),
        forall|i: int| 0 <= i < start_cells().len() ==> !map.spec_is_wall(#[trigger] start_cells()[i]),
        start_cells().no_duplicates(),
        forall|i: int|
            0 < i < start_cells().len() ==> (#[trigger] start_cells()[i]).adjacent(
                start_cells()[i - 1],
            ),
{
    let s = start_cells();
    assert forall|i: int| 0 <= i < s.len() implies !map.spec_is_wall(#[trigger] s[i]) by {
        map.lemma_walls_generated(s[i]);
    }
}

/// A direction that reverses the current one is rejected and leaves the
/// pending direction as it was; any other direction becomes the pending one.
pub proof fn lemma_no_reverse(v: SnakeView, d: Direction)
    ensures
        d == v.direction.spec_opposite() ==> accepted_direction(v, Some(d)) == v.next_direction,
        d != v.direction.spec_opposite() ==> accepted_direction(v, Some(d)) == d,
{
}

/// The sum of the time steps `dts`.
pub open spec fn total_time(dts: Seq<u64>) -> int
    decreases dts.len(),
{
    if dts.len() == 0 {
        0
    } else {
        total_time(dts.drop_last()) + dts.last()
    }
}

/// The game after one call of `step` for each of `dts`, in turn.
pub open spec fn after_steps(v: SnakeView, dts: Seq<u64>, state: u64) -> (SnakeView, u64)
    decreases dts.len(),
{
    if dts.len() == 0 {
        (v, state)
    } else {
        let before = after_steps(v, dts.drop_last(), state);
        let r = step_result(before.0, dts.last(), before.1);
        (r.0, r.2)
    }
}

/// Calls of `step` whose time steps, with the time already gathered, sum to
/// less than the move interval change nothing but the time gathered.
pub proof fn lemma_no_move_before_interval(v: SnakeView, dts: Seq<u64>, state: u64)
    requires
        v.valid(),
        v.alive,
        v.elapsed + total_time(dts) < v.move_interval,
    ensures
        after_steps(v, dts, state) == (
            SnakeView { elapsed: (v.elapsed + total_time(dts)) as u64, ..v },
            state,
        ),
    decreases dts.len(),
{
    if dts.len() > 0 {
        lemma_total_time_is_not_negative(dts.drop_last());
        lemma_no_move_before_interval(v, dts.drop_last(), state);
    }
}

/// A sum of time steps is not negative.
pub proof fn lemma_total_time_is_not_negative(dts: Seq<u64>)
    ensures
        total_time(dts) >= 0,
    decreases dts.len(),
{
    if dts.len() > 0 {
        lemma_total_time_is_not_negative(dts.drop_last());
    }
}

/// The first call of `step` with which the time gathered reaches the move
/// interval makes exactly one tick: the snake's head moves one cell in the
/// pending direction and the other cells follow, or the run ends, and the
/// time beyond the interval is carried over.
pub proof fn lemma_one_move_at_interval(v: SnakeView, dts: Seq<u64>, dt: u64, state: u64)
    requires
        v.valid(),
        v.alive,
        v.elapsed + total_time(dts) < v.move_interval,
        v.elapsed + total_time(dts) + dt >= v.move_interval,
    ensures
        ({
            let r = step_result(after_steps(v, dts, state).0, dt, after_steps(v, dts, state).1);
            let gathered = v.elapsed + total_time(dts) + dt;
            &&& r.1 != StepOutcome::Idle
            &&& r.0.elapsed == (if gathered > u64::MAX {
                u64::MAX as int
            } else {
                gathered
            }) - v.move_interval
            &&& r.0.direction == v.next_direction
            &&& r.0.alive ==> r.0.snake[0] == v.tentative() && forall|i: int|
                1 <= i < r.0.snake.len() ==> r.0.snake[i] == v.snake[i - 1]
            &&& !r.0.alive ==> r.0.snake == v.snake
        }),
{
    lemma_total_time_is_not_negative(dts);
    lemma_no_move_before_interval(v, dts, state);
    let w = SnakeView { elapsed: (v.elapsed + total_time(dts)) as u64, ..v };
    assert(after_steps(v, dts, state) == (w, state));
    assert(w.tentative() == v.tentative());
    lemma_tick_moves_once(w, dt, state);
}

/// A tick moves the head one cell in the pending direction and lets every
/// other cell follow the one before it, or ends the run and leaves the snake
/// where it was.
pub proof fn lemma_tick_moves_once(v: SnakeView, dt: u64, state: u64)
    requires
        v.snake.len() >= 1,
        v.tick_due(dt),
    ensures
        ({
            let r = step_result(v, dt, state);
            &&& r.1 != StepOutcome::Idle
            &&& r.0.elapsed == v.accumulated(dt) - v.move_interval
            &&& r.0.direction == v.next_direction
            &&& r.0.alive ==> r.0.snake[0] == v.tentative() && forall|i: int|
                1 <= i < r.0.snake.len() ==> r.0.snake[i] == v.snake[i - 1]
            &&& !r.0.alive ==> r.0.snake == v.snake
        }),
{
}

/// Eating lengthens the snake by exactly one cell and raises the score by
/// one; no other call of `step` changes the length or the score.
pub proof fn lemma_growth(v: SnakeView, dt: u64, state: u64)
    requires
        v.valid(),
    ensures
        ({
            let r = step_result(v, dt, state);
            &&& r.1 == StepOutcome::Ate ==> r.0.snake.len() == v.snake.len() + 1 && r.0.score
                == v.score + 1
            &&& r.1 != StepOutcome::Ate ==> r.0.snake.len() == v.snake.len() && r.0.score
                == v.score
            &&& r.1 == StepOutcome::Ate <==> v.tick_due(dt) && v.collision() is None && v.food
                == Some(v.tentative())
        }),
{
    lemma_distinct_cells_fit(v.snake);
}

/// A move that would leave the grid ends the run as out of bounds, whatever
/// else lies that way: the edge is looked at before the walls and before the
/// snake's own cells.
pub proof fn lemma_bounds_come_first(v: SnakeView, dt: u64, state: u64)
    requires
        v.tick_due(dt),
        !v.tentative().in_bounds(),
    ensures
        step_result(v, dt, state).1 == StepOutcome::Died(DeathCause::OutOfBounds),
        !step_result(v, dt, state).0.alive,
{
}

/// On a generated map the outer ring is walled, so the head of a valid game
/// stands in the interior and its next cell is always on the grid.
pub proof fn lemma_head_stays_on_grid(v: SnakeView)
    requires
        v.valid(),
    ensures
        v.head().is_interior(),
        v.tentative().in_bounds(),
{
    assert(v.snake[0].in_bounds());
    assert(!v.map.spec_is_wall(v.snake[0]));
    v.map.lemma_walls_generated(v.snake[0]);
}

/// The head may enter the cell that the tail is leaving: the snake moves
/// and the run goes on.
pub proof fn lemma_tail_chase_is_legal(v: SnakeView, dt: u64, state: u64)
    requires
        v.valid(),
        v.tick_due(dt),
        v.tentative() == v.snake.last(),
    ensures
        step_result(v, dt, state).1 == StepOutcome::Moved,
        step_result(v, dt, state).0.alive,
        step_result(v, dt, state).0.snake[0] == v.snake.last(),
{
    let last = v.snake.len() - 1;
    assert(v.snake[last].in_bounds());
    assert(!v.map.spec_is_wall(v.snake[last]));
    assert forall|i: int| 0 <= i < v.snake.drop_last().len() implies v.snake.drop_last()[i]
        != v.snake[last] by {
        assert(v.snake.drop_last()[i] == v.snake[i]);
    }
    if let Some(f) = v.food {
        assert(v.snake.contains(v.snake[last]));
    }
}

/// A fatal move leaves the snake, its glyphs, the score, the food and the
/// map as they were: the game that is over is the game as it died.
pub proof fn lemma_death_keeps_the_game(v: SnakeView, dt: u64, state: u64)
    requires
        v.valid(),
        step_result(v, dt, state).1 is Died,
    ensures
        ({
            let r = step_result(v, dt, state);
            &&& !r.0.alive
            &&& r.0.snake == v.snake
            &&& r.0.body_chars == v.body_chars
            &&& r.0.score == v.score
            &&& r.0.food == v.food
            &&& r.0.food_char == v.food_char
            &&& r.0.map == v.map
            &&& r.2 == state
        }),
{
}

/// A move into a wall ends the run with the wall as its cause, and leaves
/// the snake, the score, the food and the map as they were.
pub proof fn lemma_wall_is_fatal(v: SnakeView, dt: u64, state: u64)
    requires
        v.valid(),
        v.tick_due(dt),
        v.tentative().in_bounds(),
        v.map.spec_is_wall(v.tentative()),
    ensures
        ({
            let r = step_result(v, dt, state);
            &&& r.1 == StepOutcome::Died(DeathCause::Wall)
            &&& !r.0.alive
            &&& r.0.snake == v.snake
            &&& r.0.score == v.score
            &&& r.0.food == v.food
            &&& r.0.map == v.map
        }),
{
}

} // verus!
