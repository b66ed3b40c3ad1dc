//! The record of best score and preferences that outlives a run.

use vstd::prelude::*;
use crate::snake::DEFAULT_MOVE_INTERVAL;

verus! {

/// Wall density in percent that is used when none was saved.
pub const DEFAULT_WALL_DENSITY: u32 = 10;

/// Volume in percent that is used when none was saved.
pub const DEFAULT_VOLUME: u32 = 100;

/// The saved record. A field that is zero counts as not saved. Densities and
/// volumes are in percent, the move interval is in microseconds.
#[derive(Copy, Clone, PartialEq, Eq, Debug, Structural)]
pub struct SaveData {
    pub best_score: u32,
    pub last_seed: u64,
    pub last_wall_density: u32,
    pub last_move_interval: u64,
    pub sound_volume: u32,
}

impl Default for SaveData {
    /// The record of a player who has saved nothing yet.
    fn default() -> (r: SaveData)
        ensures
            r == SaveData::empty(),
    {
        SaveData {
            best_score: 0,
            last_seed: 0,
            last_wall_density: 0,
            last_move_interval: 0,
            sound_volume: 0,
        }
    }
}

impl SaveData {
    /// The record with nothing saved.
    pub open spec fn empty() -> SaveData {
        SaveData {
            best_score: 0,
            last_seed: 0,
            last_wall_density: 0,
            last_move_interval: 0,
            sound_volume: 0,
        }
    }

    /// The saved seed, or `time_seed` where none was saved.
    pub open spec fn spec_seed_or(self, time_seed: u64) -> u64 {
        if self.last_seed == 0 {
            time_seed
        } else {
            self.last_seed
        }
    }

    /// The saved wall density, or the default where none was saved.
    pub open spec fn spec_wall_density(self) -> u32 {
        if self.last_wall_density == 0 {
            DEFAULT_WALL_DENSITY
        } else {
            self.last_wall_density
        }
    }

    /// The saved move interval, or the default where none was saved.
    pub open spec fn spec_move_interval(self) -> u64 {
        if self.last_move_interval == 0 {
            DEFAULT_MOVE_INTERVAL
        } else {
            self.last_move_interval
        }
    }

    /// The saved volume, or the default where none was saved.
    pub open spec fn spec_volume(self) -> u32 {
        if self.sound_volume == 0 {
            DEFAULT_VOLUME
        } else {
            self.sound_volume
        }
    }

    #[verifier::when_used_as_spec(spec_seed_or)]
    pub fn seed_or(self, time_seed: u64) -> (r: u64)
        ensures
            r == self.spec_seed_or(time_seed),
    {
        if self.last_seed == 0 {
            time_seed
        } else {
            self.last_seed
        }
    }

    #[verifier::when_used_as_spec(spec_wall_density)]
    pub fn wall_density(self) -> (r: u32)
        ensures
            r == self.spec_wall_density(),
    {
        if self.last_wall_density == 0 {
            DEFAULT_WALL_DENSITY
        } else {
            self.last_wall_density
        }
    }

    #[verifier::when_used_as_spec(spec_move_interval)]
    pub fn move_interval(self) -> (r: u64)
        ensures
            r == self.spec_move_interval(),
    {
        if self.last_move_interval == 0 {
            DEFAULT_MOVE_INTERVAL
        } else {
            self.last_move_interval
        }
    }

    #[verifier::when_used_as_spec(spec_volume)]
    pub fn volume(self) -> (r: u32)
        ensures
            r == self.spec_volume(),
    {
        if self.sound_volume == 0 {
            DEFAULT_VOLUME
        } else {
            self.sound_volume
        }
    }
}

} // verus!
