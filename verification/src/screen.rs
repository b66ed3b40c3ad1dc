//! The screen machine: lobby, settings, playing and game over, and what
//! moves the game from one to the next.

use vstd::prelude::*;
use crate::input::Input;
use crate::lobby::{
    density_after, interval_after, lobby_entered, lobby_updated, request_after, seed_after,
    selected_after, state_after_update, LobbyRequest, LobbyState,
};
use crate::map::{state_after_map, GridMap};
use crate::random::RandomSource;
use crate::save::SaveData;
use crate::snake::{
    accepted_direction, lemma_death_keeps_the_game, step_result, SnakeGame, SnakeView, StepOutcome,
    MAX_VOLUME,
};

verus! {

/// Change of the volume, in percent, on one key press.
pub const VOLUME_STEP: u32 = 5;

/// The settings screen: the volume in percent as the player is setting it.
#[derive(Copy, Clone, PartialEq, Eq, Debug, Structural)]
pub struct SettingsState {
    pub sound_volume: u32,
}

/// The volume after the keys of `input`: left or minus lower it by one step,
/// right or equal raise it by one step, both within 0 and 100, and M mutes
/// it, or sets it to 100 where it was mute.
pub open spec fn volume_after(volume: u32, input: Input) -> u32 {
    let v1 = if input.left || input.minus {
        if volume < VOLUME_STEP {
            0
        } else {
            (volume - VOLUME_STEP) as u32
        }
    } else {
        volume
    };
    let v2 = if input.right || input.equal {
        if v1 + VOLUME_STEP > MAX_VOLUME {
            MAX_VOLUME
        } else {
            (v1 + VOLUME_STEP) as u32
        }
    } else {
        v1
    };
    if input.m {
        if v2 > 0 {
            0
        } else {
            MAX_VOLUME
        }
    } else {
        v2
    }
}

impl SettingsState {
    /// One frame in the settings: changes the volume as the keys ask, and
    /// says whether the player confirmed with Enter or Escape.
    pub fn update(&mut self, input: &Input) -> (confirmed: bool)
        ensures
            final(self).sound_volume == volume_after(old(self).sound_volume, *input),
            confirmed == (input.enter || input.escape),
    {
        if input.left || input.minus {
            self.sound_volume = self.sound_volume.saturating_sub(VOLUME_STEP);
        }
        if input.right || input.equal {
            let raised: u32 = self.sound_volume.saturating_add(VOLUME_STEP);
            self.sound_volume = if raised > MAX_VOLUME {
                MAX_VOLUME
            } else {
                raised
            };
        }
        if input.m {
            self.sound_volume = if self.sound_volume > 0 {
                0
            } else {
                MAX_VOLUME
            };
        }
        input.enter || input.escape
    }
}

/// A sound that the game asks to be played.
#[derive(Copy, Clone, PartialEq, Eq, Debug, Structural)]
pub enum Cue {
    /// The snake ate.
    Ate,
    /// The run ended.
    Died,
}

/// The cue that goes with the outcome of a step, if any.
pub open spec fn spec_cue_of(outcome: StepOutcome) -> Option<Cue> {
    match outcome {
        StepOutcome::Ate => Some(Cue::Ate),
        StepOutcome::Died(_) => Some(Cue::Died),
        _ => None,
    }
}

/// How loud a cue is to be played, in ten-thousandths of full volume, at a
/// game volume of `volume` percent: eating at 35 percent of the game volume,
/// dying at 60 percent.
pub open spec fn spec_cue_volume(cue: Cue, volume: u32) -> int {
    match cue {
        Cue::Ate => 35 * volume,
        Cue::Died => 60 * volume,
    }
}

#[verifier::when_used_as_spec(spec_cue_of)]
pub fn cue_of(outcome: StepOutcome) -> (r: Option<Cue>)
    ensures
        r == spec_cue_of(outcome),
{
    match outcome {
        StepOutcome::Ate => Some(Cue::Ate),
        StepOutcome::Died(_) => Some(Cue::Died),
        _ => None,
    }
}

/// How loud a cue is to be played, in ten-thousandths of full volume.
pub fn cue_volume(cue: Cue, volume: u32) -> (r: u32)
    requires
        volume <= MAX_VOLUME,
    ensures
        r == spec_cue_volume(cue, volume),
        r <= 10_000,
{
    match cue {
        Cue::Ate => 35 * volume,
        Cue::Died => 60 * volume,
    }
}

/// What a frame asks of the world outside: a sound to play, a record to
/// write, or to quit.
#[derive(Copy, Clone, PartialEq, Eq, Debug)]
pub struct Effects {
    /// The sound to play, if any.
    pub cue: Option<Cue>,
    /// How loud to play it, in ten-thousandths of full volume.
    pub cue_volume: u32,
    /// The record to write, if it changed.
    pub save: Option<SaveData>,
    /// The player asked to quit.
    pub quit: bool,
}

impl Effects {
    /// Nothing to play, nothing to write, no wish to quit.
    pub open spec fn nothing() -> Effects {
        Effects { cue: None, cue_volume: 0, save: None, quit: false }
    }
}

/// The screen that is live. Exactly one is at any time, and a game belongs
/// to the one screen that holds it.
pub enum Screen {
    Lobby(LobbyState),
    Settings(SettingsState),
    Playing(SnakeGame),
    GameOver(SnakeGame),
}

impl Screen {
    /// What holds of the live screen between frames: a lobby shows the map
    /// of its parameters, a game being played is alive, and a game that is
    /// over is not.
    pub open spec fn wf(&self) -> bool {
        match self {
            Screen::Lobby(l) => l.wf(),
            Screen::Settings(_) => true,
            Screen::Playing(g) => g.wf() && g@.alive,
            Screen::GameOver(g) => g.wf() && !g@.alive,
        }
    }
}

/// The record after a run was started from the lobby with `seed`, `density`
/// and `interval`.
pub open spec fn save_on_start(save: SaveData, seed: u64, density: u32, interval: u64) -> SaveData {
    SaveData { last_seed: seed, last_wall_density: density, last_move_interval: interval, ..save }
}

/// The record after a run ended with `score`: a higher score becomes the
/// best score.
pub open spec fn save_on_game_over(save: SaveData, score: u32) -> SaveData {
    if score > save.best_score {
        SaveData { best_score: score, ..save }
    } else {
        save
    }
}

/// The game as `step` finds it in a frame of play: the game `g` after the
/// direction keys of `input` were taken.
pub open spec fn armed(g: SnakeView, input: Input) -> SnakeView {
    SnakeView { next_direction: accepted_direction(g, input.spec_direction()), ..g }
}

/// The machine that owns the live screen, the random source, the saved
/// record as last written, and the volume.
pub struct ScreenController {
    screen: Screen,
    rng: RandomSource,
    save: SaveData,
    sound_volume: u32,
}

impl ScreenController {
    /// The live screen.
    pub closed spec fn spec_screen(&self) -> Screen {
        self.screen
    }

    /// The state of the random source.
    pub closed spec fn rng_state(&self) -> u64 {
        self.rng.state()
    }

    /// The record as last written.
    pub closed spec fn spec_save(&self) -> SaveData {
        self.save
    }

    /// The volume in percent.
    pub closed spec fn spec_sound_volume(&self) -> u32 {
        self.sound_volume
    }

    /// The live screen is well-formed.
    pub open spec fn wf(&self) -> bool {
        self.spec_screen().wf()
    }

    /// What a frame in the lobby does. A start makes the map of the lobby's
    /// parameters and a fresh game on it, and writes the parameters to the
    /// record; S opens the settings; else the lobby stays, and Enter on its
    /// last entry asks to quit.
    pub open spec fn lobby_frame(
        self,
        lobby: LobbyState,
        input: Input,
        dt: u64,
        next: ScreenController,
        fx: Effects,
    ) -> bool {
        let selected = selected_after(lobby.selected, input);
        let seed = seed_after(lobby.seed, selected, input);
        let density = density_after(lobby.wall_density, selected, input);
        let interval = interval_after(lobby.move_interval, selected, input);
        let request = request_after(selected, input);
        &&& fx.cue is None
        &&& fx.cue_volume == 0
        &&& fx.quit == (request == LobbyRequest::Quit)
        &&& next.spec_sound_volume() == self.spec_sound_volume()
        &&& match request {
            LobbyRequest::Start => {
                &&& next.spec_save() == save_on_start(self.spec_save(), seed, density, interval)
                &&& fx.save == Some(next.spec_save())
                &&& next.spec_screen() matches Screen::Playing(g) && g@.map.spec_seed() == seed
                    && g@.map.spec_wall_density() == density && g@ == SnakeView::fresh(
                    g@.map,
                    interval,
                    self.spec_sound_volume(),
                    state_after_map(seed),
                )
                &&& next.rng_state() == SnakeView::state_after_fresh(
                    next.spec_screen()->Playing_0@.map,
                    state_after_map(seed),
                )
            },
            LobbyRequest::OpenSettings => {
                &&& next.spec_save() == self.spec_save()
                &&& fx.save is None
                &&& next.rng_state() == state_after_update(lobby, input, self.rng_state())
                &&& next.spec_screen() == Screen::Settings(
                    SettingsState { sound_volume: self.spec_sound_volume() },
                )
            },
            _ => {
                &&& next.spec_save() == self.spec_save()
                &&& fx.save is None
                &&& next.rng_state() == state_after_update(lobby, input, self.rng_state())
                &&& next.spec_screen() matches Screen::Lobby(after) && lobby_updated(
                    lobby,
                    after,
                    input,
                    dt,
                )
            },
        }
    }

    /// What a frame in the settings does: the keys change the volume, and
    /// Enter or Escape takes the new volume over, writes it to the record
    /// and enters the lobby.
    pub open spec fn settings_frame(
        self,
        settings: SettingsState,
        input: Input,
        clock: u64,
        next: ScreenController,
        fx: Effects,
    ) -> bool {
        let volume = volume_after(settings.sound_volume, input);
        &&& fx.cue is None
        &&& fx.cue_volume == 0
        &&& !fx.quit
        &&& if input.enter || input.escape {
            &&& next.spec_sound_volume() == volume
            &&& next.spec_save() == (SaveData { sound_volume: volume, ..self.spec_save() })
            &&& fx.save == Some(next.spec_save())
            &&& next.spec_screen() matches Screen::Lobby(l) && lobby_entered(
                l,
                next.spec_save(),
                clock,
            )
            &&& next.rng_state() == state_after_map(next.spec_save().spec_seed_or(clock))
        } else {
            &&& next.spec_sound_volume() == self.spec_sound_volume()
            &&& next.spec_save() == self.spec_save()
            &&& fx.save is None
            &&& next.rng_state() == self.rng_state()
            &&& next.spec_screen() == Screen::Settings(SettingsState { sound_volume: volume })
        }
    }

    /// What a frame of play does: the direction keys are taken, the game
    /// steps, and its cue is passed on. A game that died is handed to the
    /// game-over screen as it is, and its score is written to the record if
    /// it beats the best.
    pub open spec fn playing_frame(
        self,
        game: SnakeGame,
        input: Input,
        dt: u64,
        next: ScreenController,
        fx: Effects,
    ) -> bool {
        let stepped = step_result(armed(game@, input), dt, self.rng_state());
        &&& next.rng_state() == stepped.2
        &&& next.spec_sound_volume() == self.spec_sound_volume()
        &&& !fx.quit
        &&& fx.cue == spec_cue_of(stepped.1)
        &&& fx.cue_volume == match fx.cue {
            Some(cue) => spec_cue_volume(cue, game@.volume),
            None => 0,
        }
        &&& if stepped.0.alive {
            &&& next.spec_screen() matches Screen::Playing(g) && g@ == stepped.0
            &&& next.spec_save() == self.spec_save()
            &&& fx.save is None
        } else {
            &&& next.spec_screen() matches Screen::GameOver(g) && g@ == stepped.0
            &&& next.spec_save() == save_on_game_over(self.spec_save(), stepped.0.score)
            &&& fx.save == if stepped.0.score > self.spec_save().best_score {
                Some(next.spec_save())
            } else {
                None
            }
        }
    }

    /// What a frame after the end of a run does: Enter enters the lobby, R
    /// starts a fresh game on the same map at the same speed, and else the
    /// game that is over stays as it is.
    pub open spec fn game_over_frame(
        self,
        game: SnakeGame,
        input: Input,
        clock: u64,
        next: ScreenController,
        fx: Effects,
    ) -> bool {
        &&& fx == Effects::nothing()
        &&& next.spec_sound_volume() == self.spec_sound_volume()
        &&& next.spec_save() == self.spec_save()
        &&& if input.enter {
            &&& next.spec_screen() matches Screen::Lobby(l) && lobby_entered(
                l,
                self.spec_save(),
                clock,
            )
            &&& next.rng_state() == state_after_map(self.spec_save().spec_seed_or(clock))
        } else if input.r {
            &&& next.spec_screen() matches Screen::Playing(g) && g@ == SnakeView::fresh(
                game@.map,
                game@.move_interval,
                self.spec_sound_volume(),
                self.rng_state(),
            )
            &&& next.rng_state() == SnakeView::state_after_fresh(game@.map, self.rng_state())
        } else {
            &&& next.spec_screen() matches Screen::GameOver(g) && g@ == game@
            &&& next.rng_state() == self.rng_state()
        }
    }

    /// The machine at the start: in the lobby that the record `save` gives,
    /// with the saved volume, or full volume where none was saved. `clock`
    /// is the time in microseconds that serves as seed where none was saved.
    pub fn new(save: SaveData, clock: u64) -> (r: ScreenController)
        ensures
            r.wf(),
            r.spec_save() == save,
            r.spec_sound_volume() == save.spec_volume(),
            r.spec_screen() matches Screen::Lobby(l) && lobby_entered(l, save, clock),
            r.rng_state() == state_after_map(save.spec_seed_or(clock)),
    {
        let mut rng = RandomSource::seeded(clock);
        let lobby = LobbyState::new(&save, clock, &mut rng);
        ScreenController { screen: Screen::Lobby(lobby), rng, save, sound_volume: save.volume() }
    }

    /// Runs one frame: `input` holds the keys pressed since the last one,
    /// `dt` the microseconds since then, and `clock` the time in
    /// microseconds that seeds a lobby whose record holds no seed. The live
    /// screen acts on them, and the machine that comes back holds the screen
    /// that is live next.
    pub fn update(self, input: &Input, dt: u64, clock: u64) -> (r: (ScreenController, Effects))
        requires
            self.wf(),
        ensures
            r.0.wf(),
            match self.spec_screen() {
                Screen::Lobby(l) => self.lobby_frame(l, *input, dt, r.0, r.1),
                Screen::Settings(s) => self.settings_frame(s, *input, clock, r.0, r.1),
                Screen::Playing(g) => self.playing_frame(g, *input, dt, r.0, r.1),
                Screen::GameOver(g) => self.game_over_frame(g, *input, clock, r.0, r.1),
            },
    {
        let ScreenController { screen, rng, save, sound_volume } = self;
        match screen {
            Screen::Lobby(lobby) => update_lobby(lobby, rng, save, sound_volume, input, dt),
            Screen::Settings(settings) => update_settings(
                settings,
                rng,
                save,
                sound_volume,
                input,
                clock,
            ),
            Screen::Playing(game) => update_playing(game, rng, save, sound_volume, input, dt),
            Screen::GameOver(game) => update_game_over(game, rng, save, sound_volume, input, clock),
        }
    }

    /// The live screen.
    pub fn screen(&self) -> (r: &Screen)
        ensures
            *r == self.spec_screen(),
    {
        &self.screen
    }

    /// The record as last written.
    pub fn save(&self) -> (r: SaveData)
        ensures
            r == self.spec_save(),
    {
        self.save
    }

    /// The volume in percent.
    pub fn sound_volume(&self) -> (r: u32)
        ensures
            r == self.spec_sound_volume(),
    {
        self.sound_volume
    }
}

fn update_lobby(
    lobby: LobbyState,
    rng: RandomSource,
    save: SaveData,
    sound_volume: u32,
    input: &Input,
    dt: u64,
) -> (r: (ScreenController, Effects))
    requires
        lobby.wf(),
    ensures
        r.0.wf(),
        (ScreenController { screen: Screen::Lobby(lobby), rng, save, sound_volume }).lobby_frame(
            lobby,
            *input,
            dt,
            r.0,
            r.1,
        ),
{
    let mut lobby = lobby;
    let mut rng = rng;
    let request = lobby.update(input, dt, &mut rng);
    match request {
        LobbyRequest::Start => {
            let map = GridMap::generate_with(&mut rng, lobby.seed, lobby.wall_density);
            let game = SnakeGame::new(map, lobby.move_interval, sound_volume, &mut rng);
            let save = SaveData {
                last_seed: lobby.seed,
                last_wall_density: lobby.wall_density,
                last_move_interval: lobby.move_interval,
                ..save
            };
            (
                ScreenController { screen: Screen::Playing(game), rng, save, sound_volume },
                Effects { cue: None, cue_volume: 0, save: Some(save), quit: false },
            )
        },
        LobbyRequest::OpenSettings => (
            ScreenController {
                screen: Screen::Settings(SettingsState { sound_volume }),
                rng,
                save,
                sound_volume,
            },
            Effects { cue: None, cue_volume: 0, save: None, quit: false },
        ),
        LobbyRequest::Quit => (
            ScreenController { screen: Screen::Lobby(lobby), rng, save, sound_volume },
            Effects { cue: None, cue_volume: 0, save: None, quit: true },
        ),
        LobbyRequest::Stay => (
            ScreenController { screen: Screen::Lobby(lobby), rng, save, sound_volume },
            Effects { cue: None, cue_volume: 0, save: None, quit: false },
        ),
    }
}

fn update_settings(
    settings: SettingsState,
    rng: RandomSource,
    save: SaveData,
    sound_volume: u32,
    input: &Input,
    clock: u64,
) -> (r: (ScreenController, Effects))
    ensures
        r.0.wf(),
        (ScreenController {
            screen: Screen::Settings(settings),
            rng,
            save,
            sound_volume,
        }).settings_frame(settings, *input, clock, r.0, r.1),
{
    let mut settings = settings;
    let mut rng = rng;
    if settings.update(input) {
        let save = SaveData { sound_volume: settings.sound_volume, ..save };
        let lobby = LobbyState::new(&save, clock, &mut rng);
        (
            ScreenController {
                screen: Screen::Lobby(lobby),
                rng,
                save,
                sound_volume: settings.sound_volume,
            },
            Effects { cue: None, cue_volume: 0, save: Some(save), quit: false },
        )
    } else {
        (
            ScreenController { screen: Screen::Settings(settings), rng, save, sound_volume },
            Effects { cue: None, cue_volume: 0, save: None, quit: false },
        )
    }
}

fn update_playing(
    game: SnakeGame,
    rng: RandomSource,
    save: SaveData,
    sound_volume: u32,
    input: &Input,
    dt: u64,
) -> (r: (ScreenController, Effects))
    requires
        game.wf(),
    ensures
        r.0.wf(),
        (ScreenController { screen: Screen::Playing(game), rng, save, sound_volume }).playing_frame(
            game,
            *input,
            dt,
            r.0,
            r.1,
        ),
{
    let mut game = game;
    let mut rng = rng;
    game.handle_input(input.direction());
    let outcome = game.step(dt, &mut rng);
    let cue = cue_of(outcome);
    let volume: u32 = match cue {
        Some(c) => cue_volume(c, game.volume()),
        None => 0,
    };
    if game.is_alive() {
        (
            ScreenController { screen: Screen::Playing(game), rng, save, sound_volume },
            Effects { cue, cue_volume: volume, save: None, quit: false },
        )
    } else if game.score() > save.best_score {
        let save = SaveData { best_score: game.score(), ..save };
        (
            ScreenController { screen: Screen::GameOver(game), rng, save, sound_volume },
            Effects { cue, cue_volume: volume, save: Some(save), quit: false },
        )
    } else {
        (
            ScreenController { screen: Screen::GameOver(game), rng, save, sound_volume },
            Effects { cue, cue_volume: volume, save: None, quit: false },
        )
    }
}

fn update_game_over(
    game: SnakeGame,
    rng: RandomSource,
    save: SaveData,
    sound_volume: u32,
    input: &Input,
    clock: u64,
) -> (r: (ScreenController, Effects))
    requires
        game.wf(),
        !game@.alive,
    ensures
        r.0.wf(),
        (ScreenController {
            screen: Screen::GameOver(game),
            rng,
            save,
            sound_volume,
        }).game_over_frame(game, *input, clock, r.0, r.1),
{
    let mut rng = rng;
    let fx = Effects { cue: None, cue_volume: 0, save: None, quit: false };
    if input.enter {
        let lobby = LobbyState::new(&save, clock, &mut rng);
        (ScreenController { screen: Screen::Lobby(lobby), rng, save, sound_volume }, fx)
    } else if input.r {
        let move_interval = game.move_interval();
        let map = game.into_map();
        let fresh = SnakeGame::new(map, move_interval, sound_volume, &mut rng);
        (ScreenController { screen: Screen::Playing(fresh), rng, save, sound_volume }, fx)
    } else {
        (ScreenController { screen: Screen::GameOver(game), rng, save, sound_volume }, fx)
    }
}

/// A run that ends in a frame of play is handed to the game-over screen with
/// the score, the snake, the food and the map that it had when the frame
/// began.
pub proof fn lemma_game_over_keeps_the_game(
    before: ScreenController,
    game: SnakeGame,
    input: Input,
    dt: u64,
    next: ScreenController,
    fx: Effects,
)
    requires
        game.wf(),
        game@.alive,
        before.playing_frame(game, input, dt, next, fx),
        next.spec_screen() is GameOver,
    ensures
        next.spec_screen()->GameOver_0@.score == game@.score,
        next.spec_screen()->GameOver_0@.map == game@.map,
        next.spec_screen()->GameOver_0@.snake == game@.snake,
        next.spec_screen()->GameOver_0@.food == game@.food,
        fx.cue == Some(Cue::Died),
{
    let v = armed(game@, input);
    assert(v.valid());
    lemma_death_keeps_the_game(v, dt, before.rng_state());
}

} // verus!
