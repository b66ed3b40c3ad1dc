//! The decorative glyphs that cells are shown with.

use vstd::prelude::*;
use vstd::string::StrSliceExecFns;
use crate::grid::Cell;
use crate::random::{advance, range_draw, RandomSource};

verus! {

/// Number of glyphs to choose from.
pub const GLYPH_COUNT: i32 = 49;

/// The glyphs, in the order in which an index picks them.
pub open spec fn glyph_set() -> Seq<char> {
    "01<>[]{}()/\\|-=+*;:.,^~ABCDEFGHIJKLMNOPQRSTUVWXYZ"@
}

/// There are `GLYPH_COUNT` glyphs.
pub proof fn lemma_glyph_count()
    ensures
        glyph_set().len() == GLYPH_COUNT,
{
    reveal_strlit("01<>[]{}()/\\|-=+*;:.,^~ABCDEFGHIJKLMNOPQRSTUVWXYZ");
}

/// The glyph that a draw picks: the one at its index, or the first glyph for
/// a draw that is no index.
pub open spec fn spec_glyph_from_draw(draw: i32) -> char {
    if 0 <= draw < GLYPH_COUNT {
        glyph_set()[draw as int]
    } else {
        glyph_set()[0]
    }
}

/// The hash of a cell's coordinates that picks its wall glyph.
pub open spec fn cell_hash(c: Cell) -> int {
    let h = ((c.x * 73_856_093) as i64) ^ ((c.y * 19_349_663) as i64);
    if h >= 0 {
        h as int
    } else {
        -h
    }
}

/// The glyph at index `i`.
pub fn glyph_at(i: usize) -> (r: char)
    requires
        i < GLYPH_COUNT,
    ensures
        r == glyph_set()[i as int],
{
    proof {
        lemma_glyph_count();
    }
    "01<>[]{}()/\\|-=+*;:.,^~ABCDEFGHIJKLMNOPQRSTUVWXYZ".get_char(i)
}

/// The glyph that a draw picks.
#[verifier::when_used_as_spec(spec_glyph_from_draw)]
pub fn glyph_from_draw(draw: i32) -> (r: char)
    ensures
        r == spec_glyph_from_draw(draw),
{
    if 0 <= draw && draw < GLYPH_COUNT {
        glyph_at(draw as usize)
    } else {
        glyph_at(0)
    }
}

/// Draws one glyph from `rng`.
pub fn random_matrix_char(rng: &mut RandomSource) -> (r: char)
    ensures
        r == spec_glyph_from_draw(range_draw(old(rng).state(), 0, GLYPH_COUNT)),
        final(rng).state() == advance(old(rng).state()),
{
    let draw: i32 = rng.range(0, GLYPH_COUNT);
    glyph_from_draw(draw)
}

/// The glyph of a wall cell, fixed by a hash of its coordinates: the same
/// cell always shows the same glyph.
pub fn matrix_char_for_cell(c: Cell) -> (r: char)
    ensures
        r == glyph_set()[cell_hash(c) % (GLYPH_COUNT as int)],
{
    let hx: i64 = (c.x as i64) * 73_856_093;
    let hy: i64 = (c.y as i64) * 19_349_663;
    let h: i64 = hx ^ hy;
    let magnitude: u64 = if h >= 0 {
        h as u64
    } else {
        (-(h + 1)) as u64 + 1
    };
    glyph_at((magnitude % (GLYPH_COUNT as u64)) as usize)
}

} // verus!
