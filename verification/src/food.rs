//! Food placement: rejection sampling over the interior cells, with an
//! exhaustive scan behind it.

use vstd::prelude::*;
use crate::grid::{Cell, GRID_AREA, GRID_HEIGHT, GRID_WIDTH};
use crate::map::GridMap;
use crate::random::{advance, range_draw, RandomSource};

verus! {

/// Number of candidates that are drawn before the grid is scanned instead:
/// ten times the number of cells.
pub const SAMPLE_LIMIT: u32 = 7680;

/// Food may be placed on `c`: an interior cell that is neither a wall nor
/// occupied.
pub open spec fn is_free(occupied: Seq<Cell>, map: GridMap, c: Cell) -> bool {
    c.is_interior() && !map.spec_is_wall(c) && !occupied.contains(c)
}

/// The candidate that two draws starting at `state` name: first the column,
/// then the row.
pub open spec fn candidate(state: u64) -> Cell {
    Cell {
        x: range_draw(state, 1, (GRID_WIDTH - 1) as i32),
        y: range_draw(advance(state), 1, (GRID_HEIGHT - 1) as i32),
    }
}

/// The first free candidate among the next `attempts` candidates drawn from
/// `state`, if there is one.
pub open spec fn sampled_food(state: u64, occupied: Seq<Cell>, map: GridMap, attempts: nat) -> Option<
    Cell,
>
    decreases attempts,
{
    if attempts == 0 {
        None
    } else if is_free(occupied, map, candidate(state)) {
        Some(candidate(state))
    } else {
        sampled_food(advance(advance(state)), occupied, map, (attempts - 1) as nat)
    }
}

/// The state in which sampling at most `attempts` candidates from `state`
/// leaves the source: two draws on for every candidate looked at.
pub open spec fn state_after_sampling(
    state: u64,
    occupied: Seq<Cell>,
    map: GridMap,
    attempts: nat,
) -> u64
    decreases attempts,
{
    if attempts == 0 {
        state
    } else if is_free(occupied, map, candidate(state)) {
        advance(advance(state))
    } else {
        state_after_sampling(advance(advance(state)), occupied, map, (attempts - 1) as nat)
    }
}

/// The cell at position `i` of the grid in row-major order.
pub open spec fn cell_at(i: int) -> Cell {
    Cell { x: (i % (GRID_WIDTH as int)) as i32, y: (i / (GRID_WIDTH as int)) as i32 }
}

/// The first free cell at or after position `from` in row-major order, if
/// there is one.
pub open spec fn first_free(occupied: Seq<Cell>, map: GridMap, from: int) -> Option<Cell>
    decreases GRID_AREA - from,
{
    if from < 0 || from >= GRID_AREA {
        None
    } else if is_free(occupied, map, cell_at(from)) {
        Some(cell_at(from))
    } else {
        first_free(occupied, map, from + 1)
    }
}

/// Where food goes when the source stands at `state`: on the first free
/// candidate among `SAMPLE_LIMIT` draws, else on the first free cell of the
/// grid, else nowhere.
pub open spec fn spawned_food(state: u64, occupied: Seq<Cell>, map: GridMap) -> Option<Cell> {
    match sampled_food(state, occupied, map, SAMPLE_LIMIT as nat) {
        Some(c) => Some(c),
        None => first_free(occupied, map, 0),
    }
}

/// The state in which placing food leaves a source that stood at `state`.
pub open spec fn state_after_spawn(state: u64, occupied: Seq<Cell>, map: GridMap) -> u64 {
    state_after_sampling(state, occupied, map, SAMPLE_LIMIT as nat)
}

/// Whether `c` is among the first `end` of `cells`.
pub fn contains_before(cells: &[Cell], end: usize, c: Cell) -> (r: bool)
    requires
        end <= cells@.len(),
    ensures
        r == cells@.subrange(0, end as int).contains(c),
{
    let mut i: usize = 0;
    while i < end
        invariant
            0 <= i <= end <= cells@.len(),
            forall|j: int| 0 <= j < i ==> cells@[j] != c,
        decreases end - i,
    {
        if cells[i] == c {
            assert(cells@.subrange(0, end as int)[i as int] == c);
            return true;
        }
        i = i + 1;
    }
    false
}

/// Whether `c` is among `cells`.
pub fn contains_cell(cells: &[Cell], c: Cell) -> (r: bool)
    ensures
        r == cells@.contains(c),
{
    assert(cells@.subrange(0, cells@.len() as int) =~= cells@);
    contains_before(cells, cells.len(), c)
}

/// Whether food may be placed on `c`.
pub fn cell_is_free(occupied: &[Cell], map: &GridMap, c: Cell) -> (r: bool)
    requires
        map.wf(),
    ensures
        r == is_free(occupied@, *map, c),
{
    c.is_interior() && !map.is_wall(c) && !contains_cell(occupied, c)
}

/// Picks the cell for new food. Candidates are drawn uniformly from the
/// interior, column first, until one is free; after `SAMPLE_LIMIT` rejected
/// candidates the grid is scanned in row-major order instead. The result is
/// `None` exactly when no interior cell is free.
pub fn spawn_food(rng: &mut RandomSource, occupied: &[Cell], map: &GridMap) -> (r: Option<Cell>)
    requires
        map.wf(),
    ensures
        r == spawned_food(old(rng).state(), occupied@, *map),
        final(rng).state() == state_after_spawn(old(rng).state(), occupied@, *map),
        r matches Some(c) ==> is_free(occupied@, *map, c),
        r is None <==> forall|c: Cell| !is_free(occupied@, *map, c),
{
    let mut attempts: u32 = 0;
    while attempts < SAMPLE_LIMIT
        invariant
            map.wf(),
            attempts <= SAMPLE_LIMIT,
            sampled_food(old(rng).state(), occupied@, *map, SAMPLE_LIMIT as nat) == sampled_food(
                rng.state(),
                occupied@,
                *map,
                (SAMPLE_LIMIT - attempts) as nat,
            ),
            state_after_sampling(old(rng).state(), occupied@, *map, SAMPLE_LIMIT as nat)
                == state_after_sampling(
                rng.state(),
                occupied@,
                *map,
                (SAMPLE_LIMIT - attempts) as nat,
            ),
        decreases SAMPLE_LIMIT - attempts,
    {
        let x: i32 = rng.range(1, GRID_WIDTH - 1);
        let y: i32 = rng.range(1, GRID_HEIGHT - 1);
        let cell = Cell { x, y };
        if cell_is_free(occupied, map, cell) {
            return Some(cell);
        }
        attempts = attempts + 1;
    }
    let mut i: usize = 0;
    while i < GRID_AREA
        invariant
            map.wf(),
            0 <= i <= GRID_AREA,
            sampled_food(old(rng).state(), occupied@, *map, SAMPLE_LIMIT as nat) is None,
            rng.state() == state_after_sampling(
                old(rng).state(),
                occupied@,
                *map,
                SAMPLE_LIMIT as nat,
            ),
            first_free(occupied@, *map, 0) == first_free(occupied@, *map, i as int),
            forall|j: int| 0 <= j < i ==> !is_free(occupied@, *map, #[trigger] cell_at(j)),
        decreases GRID_AREA - i,
    {
        let cell = Cell {
            x: (i % (GRID_WIDTH as usize)) as i32,
            y: (i / (GRID_WIDTH as usize)) as i32,
        };
        assert(cell == cell_at(i as int));
        if cell_is_free(occupied, map, cell) {
            return Some(cell);
        }
        i = i + 1;
    }
    proof {
        assert forall|c: Cell| !is_free(occupied@, *map, c) by {
            if c.is_interior() {
                assert(cell_at(c.spec_index()) == c);
            }
        }
    }
    None
}

/// A candidate that sampling accepts is free.
pub proof fn lemma_sampled_food_is_free(
    state: u64,
    occupied: Seq<Cell>,
    map: GridMap,
    attempts: nat,
)
    ensures
        sampled_food(state, occupied, map, attempts) matches Some(c) ==> is_free(occupied, map, c),
    decreases attempts,
{
    if attempts > 0 && !is_free(occupied, map, candidate(state)) {
        lemma_sampled_food_is_free(
            advance(advance(state)),
            occupied,
            map,
            (attempts - 1) as nat,
        );
    }
}

/// A cell that the scan finds is free.
pub proof fn lemma_first_free_is_free(occupied: Seq<Cell>, map: GridMap, from: int)
    ensures
        first_free(occupied, map, from) matches Some(c) ==> is_free(occupied, map, c),
    decreases GRID_AREA - from,
{
    if 0 <= from < GRID_AREA && !is_free(occupied, map, cell_at(from)) {
        lemma_first_free_is_free(occupied, map, from + 1);
    }
}

/// Food is never placed on a wall, on an occupied cell or on the outer ring,
/// whatever the source's state.
pub proof fn lemma_spawned_food_is_free(state: u64, occupied: Seq<Cell>, map: GridMap)
    ensures
        spawned_food(state, occupied, map) matches Some(c) ==> c.is_interior() && !map.spec_is_wall(
            c,
        ) && !occupied.contains(c),
{
    lemma_sampled_food_is_free(state, occupied, map, SAMPLE_LIMIT as nat);
    lemma_first_free_is_free(occupied, map, 0);
}

} // verus!
