use snake_engine::glyph::{
    glyph_at, glyph_from_draw, matrix_char_for_cell, random_matrix_char, GLYPH_COUNT,
};
use snake_engine::grid::Cell;
use snake_engine::random::RandomSource;

const GLYPHS: &[u8] = b"01<>[]{}()/\\|-=+*;:.,^~ABCDEFGHIJKLMNOPQRSTUVWXYZ";

fn reference_char(c: Cell) -> char {
    let hx = (c.x as i64).wrapping_mul(73_856_093);
    let hy = (c.y as i64).wrapping_mul(19_349_663);
    let h = (hx ^ hy).unsigned_abs() as usize;
    GLYPHS[h % GLYPHS.len()] as char
}

#[test]
fn glyph_table_matches() {
    assert_eq!(GLYPH_COUNT as usize, GLYPHS.len());
    for i in 0..GLYPHS.len() {
        assert_eq!(glyph_at(i), GLYPHS[i] as char);
    }
    assert_eq!(glyph_at(0), '0');
    assert_eq!(glyph_at(11), '\\');
    assert_eq!(glyph_at(48), 'Z');
}

#[test]
fn glyph_from_draw_falls_back_to_the_first() {
    assert_eq!(glyph_from_draw(0), '0');
    assert_eq!(glyph_from_draw(23), 'A');
    assert_eq!(glyph_from_draw(48), 'Z');
    assert_eq!(glyph_from_draw(49), '0');
    assert_eq!(glyph_from_draw(-1), '0');
    assert_eq!(glyph_from_draw(i32::MAX), '0');
}

#[test]
fn cell_glyph_is_the_hash_of_the_cell() {
    assert_eq!(matrix_char_for_cell(Cell { x: 0, y: 0 }), '0');
    for y in -3..30 {
        for x in -3..40 {
            let c = Cell { x, y };
            assert_eq!(matrix_char_for_cell(c), reference_char(c));
        }
    }
    for c in [
        Cell { x: i32::MAX, y: i32::MIN },
        Cell { x: i32::MIN, y: i32::MIN },
        Cell { x: i32::MIN, y: i32::MAX },
        Cell { x: i32::MAX, y: i32::MAX },
        Cell { x: -1, y: 0 },
    ] {
        assert_eq!(matrix_char_for_cell(c), reference_char(c));
    }
}

#[test]
fn random_glyphs_follow_the_stream() {
    let generator = quad_rand::RandGenerator::new();
    generator.srand(31);
    let mut source = RandomSource::seeded(31);
    let mut seen_other = false;
    for _ in 0..100 {
        let index: usize = generator.gen_range(0, GLYPHS.len());
        let got = random_matrix_char(&mut source);
        assert_eq!(got, GLYPHS[index] as char);
        if got != '0' {
            seen_other = true;
        }
    }
    assert!(seen_other);
}
