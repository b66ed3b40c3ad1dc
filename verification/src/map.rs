//! The obstacle map: which cells of the grid are walls.

use vstd::prelude::*;
use crate::grid::{Cell, GRID_AREA, GRID_HEIGHT, GRID_WIDTH};
use crate::random::{advance_by, range_draw, seeded_state, RandomSource};

verus! {

/// Number of draws that generating one map takes: one for each interior cell
/// outside the safe zone.
pub const MAP_DRAWS: usize = 635;

/// Number of safe-zone cells that come before `(x, y)` in row-major order.
pub open spec fn safe_cells_before(x: int, y: int) -> int {
    let full_rows = if y <= 10 { 0 } else if y >= 15 { 5 } else { y - 10 };
    let in_row = if y < 10 || y > 14 || x <= 14 {
        0
    } else if x >= 19 {
        5
    } else {
        x - 14
    };
    5 * full_rows + in_row
}

/// Number of draws made before the interior cell `(x, y)` gets its turn: the
/// interior cells outside the safe zone that come before it in row-major
/// order.
pub open spec fn draws_before(x: int, y: int) -> int {
    (y - 1) * (GRID_WIDTH - 2) + (x - 1) - safe_cells_before(x, y)
}

/// The state in which generating the map of `seed` leaves the source.
pub open spec fn state_after_map(seed: u64) -> u64 {
    advance_by(seeded_state(seed), MAP_DRAWS as nat)
}

/// The interior column whose turn is next when the scan stands at column `x`.
pub open spec fn column_of_turn(x: int) -> int {
    if x < 1 {
        1
    } else if x > GRID_WIDTH - 1 {
        GRID_WIDTH - 1
    } else {
        x
    }
}

/// The interior row whose turn is next when the scan stands at row `y`.
pub open spec fn row_of_turn(y: int) -> int {
    if y < 1 {
        1
    } else if y > GRID_HEIGHT - 1 {
        GRID_HEIGHT - 1
    } else {
        y
    }
}

/// The sample in hundredths drawn for the interior cell `c` on a map
/// generated from `seed`.
pub open spec fn cell_sample(seed: u64, c: Cell) -> i32 {
    range_draw(advance_by(seeded_state(seed), draws_before(c.x as int, c.y as int) as nat), 0, 100)
}

/// Whether `c` is a wall on the map generated from `seed` with a wall density
/// of `density` percent: every cell of the outer ring is, no cell of the safe
/// zone is, and any other interior cell is one if its sample is below the
/// density.
pub open spec fn generated_wall(seed: u64, density: u32, c: Cell) -> bool {
    c.in_bounds() && (!c.is_interior() || (!c.in_safe_zone() && cell_sample(seed, c) < density))
}

/// The walls of one map, with the seed and the wall density in percent that
/// they were generated from. A map does not change once it is made.
pub struct GridMap {
    cells: Vec<bool>,
    seed: u64,
    wall_density: u32,
}

impl GridMap {
    /// The seed that the map was generated from.
    pub closed spec fn spec_seed(&self) -> u64 {
        self.seed
    }

    /// The wall density in percent that the map was generated with.
    pub closed spec fn spec_wall_density(&self) -> u32 {
        self.wall_density
    }

    /// Whether `c` is a wall. Cells off the grid are not.
    pub closed spec fn spec_is_wall(&self, c: Cell) -> bool {
        c.in_bounds() && self.cells@[c.spec_index()]
    }

    /// The set of wall cells.
    pub open spec fn walls(&self) -> Set<Cell> {
        Set::new(|c: Cell| self.spec_is_wall(c))
    }

    /// The map holds exactly the walls that its seed and density generate.
    pub closed spec fn wf(&self) -> bool {
        &&& self.cells@.len() == GRID_AREA
        &&& forall|c: Cell|
            c.in_bounds() ==> self.cells@[#[trigger] c.spec_index()] == generated_wall(
                self.seed,
                self.wall_density,
                c,
            )
    }

    /// On a well-formed map the walls are those that `generated_wall` names.
    pub proof fn lemma_walls_generated(&self, c: Cell)
        requires
            self.wf(),
        ensures
            self.spec_is_wall(c) == generated_wall(self.spec_seed(), self.spec_wall_density(), c),
    {
    }

    #[verifier::when_used_as_spec(spec_seed)]
    pub fn seed(&self) -> (r: u64)
        ensures
            r == self.spec_seed(),
    {
        self.seed
    }

    #[verifier::when_used_as_spec(spec_wall_density)]
    pub fn wall_density(&self) -> (r: u32)
        ensures
            r == self.spec_wall_density(),
    {
        self.wall_density
    }

    /// Whether `c` is a wall.
    #[verifier::when_used_as_spec(spec_is_wall)]
    pub fn is_wall(&self, c: Cell) -> (r: bool)
        requires
            self.wf(),
        ensures
            r == self.spec_is_wall(c),
            r == generated_wall(self.spec_seed(), self.spec_wall_density(), c),
    {
        if c.in_bounds() {
            self.cells[c.index()]
        } else {
            false
        }
    }

    /// Generates the map of `seed` and `wall_density` (in percent) with a
    /// source of its own.
    pub fn generate(seed: u64, wall_density: u32) -> (r: GridMap)
        ensures
            r.wf(),
            r.spec_seed() == seed,
            r.spec_wall_density() == wall_density,
            forall|c: Cell| r.spec_is_wall(c) == generated_wall(seed, wall_density, c),
            forall|c: Cell| c.on_border() ==> r.spec_is_wall(c),
            forall|c: Cell| c.in_safe_zone() ==> !r.spec_is_wall(c),
    {
        let mut rng = RandomSource::seeded(seed);
        GridMap::generate_with(&mut rng, seed, wall_density)
    }

    /// Seeds `rng` with `seed` and generates the map from it: the outer ring
    /// is walled, the safe zone is left free, and every other interior cell,
    /// in row-major order, takes one draw in hundredths and becomes a wall if
    /// the draw is below `wall_density`. The source is left where the map's
    /// last draw left it.
    pub fn generate_with(rng: &mut RandomSource, seed: u64, wall_density: u32) -> (r: GridMap)
        ensures
            r.wf(),
            r.spec_seed() == seed,
            r.spec_wall_density() == wall_density,
            forall|c: Cell| r.spec_is_wall(c) == generated_wall(seed, wall_density, c),
            forall|c: Cell| c.on_border() ==> r.spec_is_wall(c),
            forall|c: Cell| c.in_safe_zone() ==> !r.spec_is_wall(c),
            final(rng).state() == state_after_map(seed),
    {
        rng.reseed(seed);
        let mut cells: Vec<bool> = Vec::new();
        let mut y: i32 = 0;
        let ghost mut drawn: int = 0;
        while y < GRID_HEIGHT
            invariant
                0 <= y <= GRID_HEIGHT,
                cells@.len() == y * GRID_WIDTH,
                drawn == draws_before(1, row_of_turn(y as int)),
                rng.state() == advance_by(seeded_state(seed), drawn as nat),
                forall|c: Cell|
                    c.in_bounds() && c.y < y ==> cells@[#[trigger] c.spec_index()]
                        == generated_wall(seed, wall_density, c),
            decreases GRID_HEIGHT - y,
        {
            let mut x: i32 = 0;
            while x < GRID_WIDTH
                invariant
                    0 <= y < GRID_HEIGHT,
                    0 <= x <= GRID_WIDTH,
                    cells@.len() == y * GRID_WIDTH + x,
                    0 <= drawn,
                    1 <= y < GRID_HEIGHT - 1 ==> drawn == draws_before(
                        column_of_turn(x as int),
                        y as int,
                    ),
                    !(1 <= y < GRID_HEIGHT - 1) ==> drawn == draws_before(
                        1,
                        row_of_turn(y as int),
                    ),
                    rng.state() == advance_by(seeded_state(seed), drawn as nat),
                    forall|c: Cell|
                        c.in_bounds() && (c.y < y || (c.y == y && c.x < x)) ==> cells@[
                            #[trigger] c.spec_index()] == generated_wall(seed, wall_density, c),
                decreases GRID_WIDTH - x,
            {
                let c = Cell { x, y };
                let ghost before = cells@;
                let wall = if !c.is_interior() {
                    true
                } else if c.in_safe_zone() {
                    false
                } else {
                    let sample: i32 = rng.range(0, 100);
                    proof {
                        drawn = drawn + 1;
                    }
                    sample < 0 || (sample as u32) < wall_density
                };
                cells.push(wall);
                proof {
                    assert(c.spec_index() == before.len());
                    assert forall|d: Cell|
                        d.in_bounds() && (d.y < y || (d.y == y && d.x < x + 1)) implies cells@[
                        #[trigger] d.spec_index()] == generated_wall(seed, wall_density, d) by {
                        if d.y == y && d.x == x {
                            assert(d == c);
                        } else {
                            assert(d.spec_index() < before.len());
                            assert(cells@[d.spec_index()] == before[d.spec_index()]);
                        }
                    }
                }
                x = x + 1;
            }
            y = y + 1;
        }
        let r = GridMap { cells, seed, wall_density };
        proof {
            assert(drawn == MAP_DRAWS);
            assert forall|c: Cell| r.spec_is_wall(c) == generated_wall(seed, wall_density, c) by {
                if c.in_bounds() {
                    assert(r.cells@[c.spec_index()] == generated_wall(seed, wall_density, c));
                }
            }
        }
        r
    }

    /// The wall cells, each once, in row-major order.
    pub fn wall_cells(&self) -> (r: Vec<Cell>)
        requires
            self.wf(),
        ensures
            forall|c: Cell| r@.contains(c) <==> self.spec_is_wall(c),
            forall|i: int, j: int|
                0 <= i < j < r@.len() ==> (#[trigger] r@[i]).spec_index() < (
                #[trigger] r@[j]).spec_index(),
    {
        let mut out: Vec<Cell> = Vec::new();
        let mut y: i32 = 0;
        while y < GRID_HEIGHT
            invariant
                self.wf(),
                0 <= y <= GRID_HEIGHT,
                forall|i: int| 0 <= i < out@.len() ==> (#[trigger] out@[i]).in_bounds() && out@[i].y < y,
                forall|c: Cell| out@.contains(c) <==> (self.spec_is_wall(c) && c.y < y),
                forall|i: int, j: int|
                    0 <= i < j < out@.len() ==> (#[trigger] out@[i]).spec_index() < (
                    #[trigger] out@[j]).spec_index(),
            decreases GRID_HEIGHT - y,
        {
            let mut x: i32 = 0;
            while x < GRID_WIDTH
                invariant
                    self.wf(),
                    0 <= y < GRID_HEIGHT,
                    0 <= x <= GRID_WIDTH,
                    forall|i: int|
                        0 <= i < out@.len() ==> (#[trigger] out@[i]).in_bounds() && (out@[i].y < y
                            || (out@[i].y == y && out@[i].x < x)),
                    forall|c: Cell|
                        out@.contains(c) <==> (self.spec_is_wall(c) && (c.y < y || (c.y == y && c.x
                            < x))),
                    forall|i: int, j: int|
                        0 <= i < j < out@.len() ==> (#[trigger] out@[i]).spec_index() < (
                        #[trigger] out@[j]).spec_index(),
                decreases GRID_WIDTH - x,
            {
                let c = Cell { x, y };
                if self.is_wall(c) {
                    let ghost before = out@;
                    out.push(c);
                    proof {
                        assert(out@ == before.push(c));
                        assert forall|d: Cell|
                            out@.contains(d) <==> (self.spec_is_wall(d) && (d.y < y || (d.y == y
                                && d.x < x + 1))) by {
                            if out@.contains(d) {
                                let i = choose|i: int| 0 <= i < out@.len() && out@[i] == d;
                                if i < before.len() {
                                    assert(before.contains(d));
                                }
                            }
                            if self.spec_is_wall(d) && (d.y < y || (d.y == y && d.x < x + 1)) {
                                if d == c {
                                    assert(out@[before.len() as int] == d);
                                } else {
                                    assert(before.contains(d));
                                    let i = choose|i: int| 0 <= i < before.len() && before[i] == d;
                                    assert(out@[i] == d);
                                }
                            }
                        }
                    }
                }
                x = x + 1;
            }
            y = y + 1;
        }
        out
    }
}

/// Two maps made from the same seed and density have the same walls.
pub proof fn lemma_generation_is_deterministic(a: GridMap, b: GridMap)
    requires
        a.wf(),
        b.wf(),
        a.spec_seed() == b.spec_seed(),
        a.spec_wall_density() == b.spec_wall_density(),
    ensures
        a.walls() == b.walls(),
{
    assert forall|c: Cell| a.spec_is_wall(c) == b.spec_is_wall(c) by {
        a.lemma_walls_generated(c);
        b.lemma_walls_generated(c);
    }
    assert(a.walls() =~= b.walls());
}

/// On every generated map each cell of the outer ring is a wall.
pub proof fn lemma_border_is_wall(m: GridMap, c: Cell)
    requires
        m.wf(),
        c.in_bounds(),
        c.x == 0 || c.x == GRID_WIDTH - 1 || c.y == 0 || c.y == GRID_HEIGHT - 1,
    ensures
        m.spec_is_wall(c),
{
    m.lemma_walls_generated(c);
}

/// On every generated map no cell within Chebyshev distance 2 of the centre
/// is a wall.
pub proof fn lemma_safe_zone_is_free(m: GridMap, c: Cell)
    requires
        m.wf(),
        c.in_safe_zone(),
    ensures
        !m.spec_is_wall(c),
{
    m.lemma_walls_generated(c);
}

} // verus!
