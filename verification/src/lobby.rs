//! The lobby: the parameters of the next run and the preview of its map.

use vstd::prelude::*;
use crate::grid::{Cell, Direction, CENTER_X, CENTER_Y};
use crate::input::Input;
use crate::map::{state_after_map, GridMap};
use crate::random::RandomSource;
use crate::save::SaveData;

verus! {

/// Highest wall density in percent that the lobby lets the player choose.
pub const MAX_WALL_DENSITY: u32 = 35;

/// Change of the wall density, in percent, on one key press.
pub const WALL_DENSITY_STEP: u32 = 2;

/// Shortest move interval in microseconds that the lobby lets the player
/// choose.
pub const MIN_MOVE_INTERVAL: u64 = 50_000;

/// Longest move interval in microseconds that the lobby lets the player
/// choose.
pub const MAX_MOVE_INTERVAL: u64 = 350_000;

/// Change of the move interval, in microseconds, on one key press.
pub const MOVE_INTERVAL_STEP: u64 = 20_000;

/// Multiplier of the step that makes a new seed from the current one.
pub const RESEED_MULTIPLIER: u64 = 6364136223846793005;

/// Number of entries in the lobby's menu.
pub const MENU_ENTRIES: i32 = 5;

/// Menu entry that starts a run.
pub const ENTRY_START: i32 = 0;

/// Menu entry that makes a new seed.
pub const ENTRY_RESEED: i32 = 1;

/// Menu entry that the left and right keys change the wall density on.
pub const ENTRY_DENSITY: i32 = 2;

/// Menu entry that the left and right keys change the speed on.
pub const ENTRY_SPEED: i32 = 3;

/// Menu entry that quits.
pub const ENTRY_QUIT: i32 = 4;

/// The seed that follows `seed`: `seed * 6364136223846793005 + 1`, with
/// wrap-around.
pub open spec fn spec_next_seed(seed: u64) -> u64 {
    (((seed as nat * RESEED_MULTIPLIER as nat) % 0x1_0000_0000_0000_0000 + 1)
        % 0x1_0000_0000_0000_0000) as u64
}

/// The wall density one step down, not below zero.
pub open spec fn spec_lower_density(density: u32) -> u32 {
    if density < WALL_DENSITY_STEP {
        0
    } else {
        (density - WALL_DENSITY_STEP) as u32
    }
}

/// The wall density one step up, not above the highest.
pub open spec fn spec_raise_density(density: u32) -> u32 {
    if density + WALL_DENSITY_STEP > MAX_WALL_DENSITY {
        MAX_WALL_DENSITY
    } else {
        (density + WALL_DENSITY_STEP) as u32
    }
}

/// The move interval one step longer, not above the longest.
pub open spec fn spec_slower(interval: u64) -> u64 {
    if interval + MOVE_INTERVAL_STEP > MAX_MOVE_INTERVAL {
        MAX_MOVE_INTERVAL
    } else {
        (interval + MOVE_INTERVAL_STEP) as u64
    }
}

/// The move interval one step shorter, not below the shortest.
pub open spec fn spec_faster(interval: u64) -> u64 {
    if interval - MOVE_INTERVAL_STEP < MIN_MOVE_INTERVAL {
        MIN_MOVE_INTERVAL
    } else {
        (interval - MOVE_INTERVAL_STEP) as u64
    }
}

#[verifier::when_used_as_spec(spec_next_seed)]
pub fn next_seed(seed: u64) -> (r: u64)
    ensures
        r == spec_next_seed(seed),
{
    seed.wrapping_mul(RESEED_MULTIPLIER).wrapping_add(1)
}

#[verifier::when_used_as_spec(spec_lower_density)]
pub fn lower_density(density: u32) -> (r: u32)
    ensures
        r == spec_lower_density(density),
{
    density.saturating_sub(WALL_DENSITY_STEP)
}

#[verifier::when_used_as_spec(spec_raise_density)]
pub fn raise_density(density: u32) -> (r: u32)
    ensures
        r == spec_raise_density(density),
{
    let raised: u32 = density.saturating_add(WALL_DENSITY_STEP);
    if raised > MAX_WALL_DENSITY {
        MAX_WALL_DENSITY
    } else {
        raised
    }
}

#[verifier::when_used_as_spec(spec_slower)]
pub fn slower(interval: u64) -> (r: u64)
    ensures
        r == spec_slower(interval),
{
    let raised: u64 = interval.saturating_add(MOVE_INTERVAL_STEP);
    if raised > MAX_MOVE_INTERVAL {
        MAX_MOVE_INTERVAL
    } else {
        raised
    }
}

#[verifier::when_used_as_spec(spec_faster)]
pub fn faster(interval: u64) -> (r: u64)
    ensures
        r == spec_faster(interval),
{
    let lowered: u64 = interval.saturating_sub(MOVE_INTERVAL_STEP);
    if lowered < MIN_MOVE_INTERVAL {
        MIN_MOVE_INTERVAL
    } else {
        lowered
    }
}

/// What the lobby asks of the screen machine at the end of a frame.
#[derive(Copy, Clone, PartialEq, Eq, Debug, Structural)]
pub enum LobbyRequest {
    /// Stay in the lobby.
    Stay,
    /// Start a run with the lobby's parameters.
    Start,
    /// Open the settings.
    OpenSettings,
    /// Quit the game.
    Quit,
}

/// The menu entry that is selected once the up and down keys of `input`
/// have moved the selection, each by one entry and round the ends.
pub open spec fn selected_after(selected: i32, input: Input) -> i32 {
    let s1 = if input.up {
        if selected <= 0 {
            (MENU_ENTRIES - 1) as i32
        } else {
            (selected - 1) as i32
        }
    } else {
        selected
    };
    if input.down {
        if s1 >= MENU_ENTRIES - 1 {
            0
        } else {
            (s1 + 1) as i32
        }
    } else {
        s1
    }
}

/// The wall density after the keys of `input`, with `selected` the menu
/// entry selected: left and right change it on the density entry, minus and
/// equal change it anywhere.
pub open spec fn density_after(density: u32, selected: i32, input: Input) -> u32 {
    let d1 = if input.left && selected == ENTRY_DENSITY {
        spec_lower_density(density)
    } else {
        density
    };
    let d2 = if input.right && selected == ENTRY_DENSITY {
        spec_raise_density(d1)
    } else {
        d1
    };
    let d3 = if input.minus {
        spec_lower_density(d2)
    } else {
        d2
    };
    if input.equal {
        spec_raise_density(d3)
    } else {
        d3
    }
}

/// The move interval after the keys of `input`, with `selected` the menu
/// entry selected: left slows down and right speeds up on the speed entry,
/// the bracket keys do so anywhere.
pub open spec fn interval_after(interval: u64, selected: i32, input: Input) -> u64 {
    let i1 = if input.left && selected == ENTRY_SPEED {
        spec_slower(interval)
    } else {
        interval
    };
    let i2 = if input.right && selected == ENTRY_SPEED {
        spec_faster(i1)
    } else {
        i1
    };
    let i3 = if input.left_bracket {
        spec_slower(i2)
    } else {
        i2
    };
    if input.right_bracket {
        spec_faster(i3)
    } else {
        i3
    }
}

/// The seed after the keys of `input`: the R key makes a new seed, and so
/// does Enter on the reseed entry.
pub open spec fn seed_after(seed: u64, selected: i32, input: Input) -> u64 {
    let s1 = if input.r {
        spec_next_seed(seed)
    } else {
        seed
    };
    if input.enter && selected == ENTRY_RESEED {
        spec_next_seed(s1)
    } else {
        s1
    }
}

/// What the lobby asks for after the keys of `input`: Enter acts on the
/// selected entry, and S opens the settings unless Enter starts a run or
/// quits.
pub open spec fn request_after(selected: i32, input: Input) -> LobbyRequest {
    if input.enter && selected == ENTRY_QUIT {
        LobbyRequest::Quit
    } else if input.enter && selected == ENTRY_START {
        LobbyRequest::Start
    } else if input.s {
        LobbyRequest::OpenSettings
    } else {
        LobbyRequest::Stay
    }
}

/// The preview head may stand on `c`: an interior cell that is no wall.
pub open spec fn preview_can_enter(map: GridMap, c: Cell) -> bool {
    c.is_interior() && !map.spec_is_wall(c)
}

/// Where the preview head goes from `pos`: one step in the first direction,
/// starting at `dir` and turning clockwise at most `tries` times in all,
/// that leads onto a cell it may enter; back to the centre, heading right,
/// where there is none.
pub open spec fn preview_target(map: GridMap, pos: Cell, dir: Direction, tries: nat) -> (
    Cell,
    Direction,
)
    decreases tries,
{
    if tries == 0 {
        (Cell { x: CENTER_X, y: CENTER_Y }, Direction::Right)
    } else if preview_can_enter(map, pos.spec_neighbor(dir)) {
        (pos.spec_neighbor(dir), dir)
    } else {
        preview_target(map, pos, dir.spec_clockwise(), (tries - 1) as nat)
    }
}

/// The time that the preview head rests between two steps: the move
/// interval, but at least the shortest one.
pub open spec fn preview_interval(move_interval: u64) -> u64 {
    if move_interval < MIN_MOVE_INTERVAL {
        MIN_MOVE_INTERVAL
    } else {
        move_interval
    }
}

/// How one frame with the keys `input` and `dt` microseconds turns the lobby
/// `before` into the lobby `after`: the keys move the selection and change
/// seed, density and speed; the preview head has moved if its time had come;
/// the preview map is the same unless seed or density changed.
pub open spec fn lobby_updated(before: LobbyState, after: LobbyState, input: Input, dt: u64) -> bool {
    &&& after.wf()
    &&& after.selected == selected_after(before.selected, input)
    &&& after.wall_density == density_after(before.wall_density, after.selected, input)
    &&& after.move_interval == interval_after(before.move_interval, after.selected, input)
    &&& after.seed == seed_after(before.seed, after.selected, input)
    &&& !before.preview_due(dt) ==> after.preview_elapsed == before.preview_accumulated(dt)
        && after.preview_pos == before.preview_pos && after.preview_dir == before.preview_dir
    &&& before.preview_due(dt) ==> after.preview_elapsed == 0 && (
        after.preview_pos,
        after.preview_dir,
    ) == preview_target(before.preview_map, before.preview_pos, before.preview_dir, 4)
    &&& after.seed == before.seed && after.wall_density == before.wall_density
        ==> after.preview_map == before.preview_map
}

/// The state of a source that stood at `state` after one frame of the lobby
/// `before`: a change of seed or density generates the preview map anew, and
/// that seeds the source anew.
pub open spec fn state_after_update(before: LobbyState, input: Input, state: u64) -> u64 {
    let selected = selected_after(before.selected, input);
    let seed = seed_after(before.seed, selected, input);
    let density = density_after(before.wall_density, selected, input);
    if seed == before.seed && density == before.wall_density {
        state
    } else {
        state_after_map(seed)
    }
}

/// The lobby as it is entered by a player with the record `save`: the saved
/// parameters, or `time_seed` and the defaults where none was saved, the
/// first menu entry selected, and the preview head at rest in the centre.
pub open spec fn lobby_entered(lobby: LobbyState, save: SaveData, time_seed: u64) -> bool {
    &&& lobby.wf()
    &&& lobby.seed == save.spec_seed_or(time_seed)
    &&& lobby.wall_density == save.spec_wall_density()
    &&& lobby.move_interval == save.spec_move_interval()
    &&& lobby.selected == 0
    &&& lobby.preview_pos == (Cell { x: CENTER_X, y: CENTER_Y })
    &&& lobby.preview_dir == Direction::Right
    &&& lobby.preview_elapsed == 0
}

/// The parameters of the next run, the menu selection, and the preview: the
/// map that the parameters give and a lone head that wanders over it.
pub struct LobbyState {
    pub seed: u64,
    /// Wall density in percent.
    pub wall_density: u32,
    /// Move interval in microseconds.
    pub move_interval: u64,
    /// The selected menu entry.
    pub selected: i32,
    pub preview_map: GridMap,
    pub preview_pos: Cell,
    pub preview_dir: Direction,
    /// Time since the preview head last moved, in microseconds.
    pub preview_elapsed: u64,
}

impl LobbyState {
    /// The preview shows the map of the lobby's seed and density, and its
    /// head stands on an interior cell.
    pub open spec fn wf(&self) -> bool {
        &&& self.preview_map.wf()
        &&& self.preview_map.spec_seed() == self.seed
        &&& self.preview_map.spec_wall_density() == self.wall_density
        &&& self.preview_pos.is_interior()
    }

    /// The time since the preview head last moved once `dt` is added. It
    /// stops at the largest value that fits.
    pub open spec fn preview_accumulated(&self, dt: u64) -> u64 {
        if self.preview_elapsed + dt > u64::MAX {
            u64::MAX
        } else {
            (self.preview_elapsed + dt) as u64
        }
    }

    /// With `dt` more microseconds the preview head is due to move.
    pub open spec fn preview_due(&self, dt: u64) -> bool {
        self.preview_accumulated(dt) >= preview_interval(self.move_interval)
    }

    /// The lobby for a player with the record `save`: the saved seed, density
    /// and speed, or `time_seed` and the defaults where none was saved, with
    /// the preview of that map. The source is seeded anew by the map.
    pub fn new(save: &SaveData, time_seed: u64, rng: &mut RandomSource) -> (r: LobbyState)
        ensures
            lobby_entered(r, *save, time_seed),
            final(rng).state() == state_after_map(r.seed),
    {
        let seed = save.seed_or(time_seed);
        let wall_density = save.wall_density();
        let move_interval = save.move_interval();
        let preview_map = GridMap::generate_with(rng, seed, wall_density);
        LobbyState {
            seed,
            wall_density,
            move_interval,
            selected: 0,
            preview_map,
            preview_pos: Cell { x: CENTER_X, y: CENTER_Y },
            preview_dir: Direction::Right,
            preview_elapsed: 0,
        }
    }

    /// Lets `dt` microseconds pass for the preview head. Once the time since
    /// its last step reaches the move interval it takes one step: straight
    /// on if it may enter that cell, else in the first direction clockwise
    /// that it may enter, else back to the centre.
    pub fn advance_preview(&mut self, dt: u64)
        requires
            old(self).wf(),
        ensures
            final(self).wf(),
            final(self).seed == old(self).seed,
            final(self).wall_density == old(self).wall_density,
            final(self).move_interval == old(self).move_interval,
            final(self).selected == old(self).selected,
            final(self).preview_map == old(self).preview_map,
            !old(self).preview_due(dt) ==> final(self).preview_elapsed == old(self).preview_accumulated(dt) && final(self).preview_pos == old(self).preview_pos
                && final(self).preview_dir == old(self).preview_dir,
            old(self).preview_due(dt) ==> final(self).preview_elapsed == 0 && (
                final(self).preview_pos,
                final(self).preview_dir,
            ) == preview_target(
                old(self).preview_map,
                old(self).preview_pos,
                old(self).preview_dir,
                4,
            ),
    {
        self.preview_elapsed = self.preview_elapsed.saturating_add(dt);
        let rest: u64 = if self.move_interval < MIN_MOVE_INTERVAL {
            MIN_MOVE_INTERVAL
        } else {
            self.move_interval
        };
        if self.preview_elapsed < rest {
            return ;
        }
        self.preview_elapsed = 0;
        let (pos, dir) = find_preview_target(&self.preview_map, self.preview_pos, self.preview_dir);
        self.preview_pos = pos;
        self.preview_dir = dir;
    }

    /// One frame in the lobby. The preview head gets its time; then the keys
    /// move the selection, change density, speed and seed within their
    /// bounds, and say what happens next. The preview map is generated anew
    /// where seed or density changed, which seeds `rng` anew.
    pub fn update(&mut self, input: &Input, dt: u64, rng: &mut RandomSource) -> (r: LobbyRequest)
        requires
            old(self).wf(),
        ensures
            final(self).wf(),
            lobby_updated(*old(self), *final(self), *input, dt),
            r == request_after(final(self).selected, *input),
            final(rng).state() == state_after_update(*old(self), *input, old(rng).state()),
    {
        self.advance_preview(dt);
        let selected = move_selection(self.selected, input);
        let wall_density = change_density(self.wall_density, selected, input);
        let move_interval = change_interval(self.move_interval, selected, input);
        let seed = change_seed(self.seed, selected, input);
        if seed != self.seed || wall_density != self.wall_density {
            self.preview_map = GridMap::generate_with(rng, seed, wall_density);
        }
        self.selected = selected;
        self.wall_density = wall_density;
        self.move_interval = move_interval;
        self.seed = seed;
        lobby_request(selected, input)
    }
}

/// Finds where the preview head goes from `pos` when it heads in `dir`.
pub fn find_preview_target(map: &GridMap, pos: Cell, dir: Direction) -> (r: (Cell, Direction))
    requires
        map.wf(),
        pos.is_interior(),
    ensures
        r == preview_target(*map, pos, dir, 4),
        r.0.is_interior(),
{
    let mut try_dir = dir;
    let mut tries: u32 = 0;
    while tries < 4
        invariant
            tries <= 4,
            pos.is_interior(),
            map.wf(),
            preview_target(*map, pos, dir, 4) == preview_target(
                *map,
                pos,
                try_dir,
                (4 - tries) as nat,
            ),
        decreases 4 - tries,
    {
        let tentative = pos.neighbor(try_dir);
        if tentative.is_interior() && !map.is_wall(tentative) {
            return (tentative, try_dir);
        }
        try_dir = try_dir.clockwise();
        tries = tries + 1;
    }
    (Cell { x: CENTER_X, y: CENTER_Y }, Direction::Right)
}

/// Moves the menu selection as the up and down keys ask.
pub fn move_selection(selected: i32, input: &Input) -> (r: i32)
    ensures
        r == selected_after(selected, *input),
{
    let s1: i32 = if input.up {
        if selected <= 0 {
            MENU_ENTRIES - 1
        } else {
            selected - 1
        }
    } else {
        selected
    };
    if input.down {
        if s1 >= MENU_ENTRIES - 1 {
            0
        } else {
            s1 + 1
        }
    } else {
        s1
    }
}

/// Changes the wall density as the keys ask.
pub fn change_density(density: u32, selected: i32, input: &Input) -> (r: u32)
    ensures
        r == density_after(density, selected, *input),
{
    let d1: u32 = if input.left && selected == ENTRY_DENSITY {
        lower_density(density)
    } else {
        density
    };
    let d2: u32 = if input.right && selected == ENTRY_DENSITY {
        raise_density(d1)
    } else {
        d1
    };
    let d3: u32 = if input.minus {
        lower_density(d2)
    } else {
        d2
    };
    if input.equal {
        raise_density(d3)
    } else {
        d3
    }
}

/// Changes the move interval as the keys ask.
pub fn change_interval(interval: u64, selected: i32, input: &Input) -> (r: u64)
    ensures
        r == interval_after(interval, selected, *input),
{
    let i1: u64 = if input.left && selected == ENTRY_SPEED {
        slower(interval)
    } else {
        interval
    };
    let i2: u64 = if input.right && selected == ENTRY_SPEED {
        faster(i1)
    } else {
        i1
    };
    let i3: u64 = if input.left_bracket {
        slower(i2)
    } else {
        i2
    };
    if input.right_bracket {
        faster(i3)
    } else {
        i3
    }
}

/// Changes the seed as the keys ask.
pub fn change_seed(seed: u64, selected: i32, input: &Input) -> (r: u64)
    ensures
        r == seed_after(seed, selected, *input),
{
    let s1: u64 = if input.r {
        next_seed(seed)
    } else {
        seed
    };
    if input.enter && selected == ENTRY_RESEED {
        next_seed(s1)
    } else {
        s1
    }
}

/// Says what the lobby asks for after the keys of `input`.
pub fn lobby_request(selected: i32, input: &Input) -> (r: LobbyRequest)
    ensures
        r == request_after(selected, *input),
{
    if input.enter && selected == ENTRY_QUIT {
        LobbyRequest::Quit
    } else if input.enter && selected == ENTRY_START {
        LobbyRequest::Start
    } else if input.s {
        LobbyRequest::OpenSettings
    } else {
        LobbyRequest::Stay
    }
}

} // verus!
