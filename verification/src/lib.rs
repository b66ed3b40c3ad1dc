//! Simulation core of a grid-based snake game: a seeded obstacle map, the
//! per-tick movement and collision rules, and the machine that moves between
//! the lobby, settings, playing and game-over screens.

pub mod grid;
pub mod random;
pub mod map;
pub mod glyph;
pub mod food;
pub mod snake;
pub mod save;
pub mod input;
pub mod lobby;
pub mod screen;
pub mod wav;
