use snake_engine::grid::{Cell, Direction};
use snake_engine::input::Input;
use snake_engine::lobby::{
    change_density, change_interval, change_seed, faster, find_preview_target, lobby_request,
    lower_density, move_selection, next_seed, raise_density, slower, LobbyRequest, LobbyState,
};
use snake_engine::map::GridMap;
use snake_engine::random::RandomSource;
use snake_engine::save::SaveData;
use snake_engine::screen::{
    cue_of, cue_volume, Cue, Effects, Screen, ScreenController, SettingsState,
};
use snake_engine::snake::{DeathCause, SnakeGame, StepOutcome};

fn idle() -> Input {
    Input::default()
}

fn saved(seed: u64) -> SaveData {
    SaveData {
        best_score: 0,
        last_seed: seed,
        last_wall_density: 0,
        last_move_interval: 0,
        sound_volume: 0,
    }
}

fn quiet() -> Effects {
    Effects { cue: None, cue_volume: 0, save: None, quit: false }
}

fn lobby_of(controller: &ScreenController) -> &LobbyState {
    match controller.screen() {
        Screen::Lobby(lobby) => lobby,
        _ => panic!("the lobby is not live"),
    }
}

fn game_of(controller: &ScreenController) -> &SnakeGame {
    match controller.screen() {
        Screen::Playing(game) => game,
        Screen::GameOver(game) => game,
        _ => panic!("no game is live"),
    }
}

fn press(controller: ScreenController, input: Input, dt: u64) -> (ScreenController, Effects) {
    controller.update(&input, dt, 5)
}

fn start_open_run(seed: u64) -> ScreenController {
    let mut controller = ScreenController::new(saved(seed), 5);
    for _ in 0..5 {
        let (next, _) = press(controller, Input { minus: true, ..idle() }, 0);
        controller = next;
    }
    assert_eq!(lobby_of(&controller).wall_density, 0);
    let (next, _) = press(controller, Input { enter: true, ..idle() }, 0);
    next
}

#[test]
fn defaults_fill_an_empty_record() {
    let empty = SaveData::default();
    assert_eq!(empty.seed_or(99), 99);
    assert_eq!(empty.wall_density(), 10);
    assert_eq!(empty.move_interval(), 120_000);
    assert_eq!(empty.volume(), 100);
    let full = SaveData {
        best_score: 7,
        last_seed: 3,
        last_wall_density: 20,
        last_move_interval: 70_000,
        sound_volume: 45,
    };
    assert_eq!(full.seed_or(99), 3);
    assert_eq!(full.wall_density(), 20);
    assert_eq!(full.move_interval(), 70_000);
    assert_eq!(full.volume(), 45);
}

#[test]
fn the_machine_starts_in_the_lobby() {
    let controller = ScreenController::new(SaveData::default(), 4242);
    let lobby = lobby_of(&controller);
    assert_eq!(lobby.seed, 4242);
    assert_eq!(lobby.wall_density, 10);
    assert_eq!(lobby.move_interval, 120_000);
    assert_eq!(lobby.selected, 0);
    assert_eq!(lobby.preview_pos, Cell { x: 16, y: 12 });
    assert_eq!(lobby.preview_dir, Direction::Right);
    assert_eq!(lobby.preview_map.wall_cells(), GridMap::generate(4242, 10).wall_cells());
    assert_eq!(controller.sound_volume(), 100);
    assert_eq!(controller.save(), SaveData::default());
}

#[test]
fn the_lobby_takes_over_what_was_saved() {
    let save = SaveData {
        best_score: 9,
        last_seed: 17,
        last_wall_density: 24,
        last_move_interval: 200_000,
        sound_volume: 30,
    };
    let controller = ScreenController::new(save, 4242);
    let lobby = lobby_of(&controller);
    assert_eq!(lobby.seed, 17);
    assert_eq!(lobby.wall_density, 24);
    assert_eq!(lobby.move_interval, 200_000);
    assert_eq!(controller.sound_volume(), 30);
}

#[test]
fn next_seed_is_the_congruential_step() {
    assert_eq!(next_seed(0), 1);
    assert_eq!(next_seed(1), 6364136223846793006);
    assert_eq!(next_seed(2), 12728272447693586011);
    assert_eq!(next_seed(3), 3u64.wrapping_mul(6364136223846793005).wrapping_add(1));
    assert_eq!(next_seed(u64::MAX), u64::MAX.wrapping_mul(6364136223846793005).wrapping_add(1));
}

#[test]
fn density_and_speed_stay_within_bounds() {
    assert_eq!(lower_density(10), 8);
    assert_eq!(lower_density(1), 0);
    assert_eq!(lower_density(0), 0);
    assert_eq!(raise_density(10), 12);
    assert_eq!(raise_density(34), 35);
    assert_eq!(raise_density(35), 35);
    assert_eq!(raise_density(u32::MAX), 35);
    assert_eq!(slower(120_000), 140_000);
    assert_eq!(slower(340_000), 350_000);
    assert_eq!(slower(u64::MAX), 350_000);
    assert_eq!(faster(120_000), 100_000);
    assert_eq!(faster(60_000), 50_000);
    assert_eq!(faster(10), 50_000);
}

#[test]
fn lobby_keys_by_themselves() {
    let up = Input { up: true, ..idle() };
    let down = Input { down: true, ..idle() };
    assert_eq!(move_selection(0, &up), 4);
    assert_eq!(move_selection(3, &up), 2);
    assert_eq!(move_selection(4, &down), 0);
    assert_eq!(move_selection(1, &down), 2);
    assert_eq!(move_selection(2, &Input { up: true, down: true, ..idle() }), 2);
    let left = Input { left: true, ..idle() };
    let right = Input { right: true, ..idle() };
    assert_eq!(change_density(10, 2, &left), 8);
    assert_eq!(change_density(10, 2, &right), 12);
    assert_eq!(change_density(10, 3, &left), 10);
    assert_eq!(change_density(10, 0, &Input { minus: true, ..idle() }), 8);
    assert_eq!(change_density(10, 0, &Input { equal: true, ..idle() }), 12);
    assert_eq!(change_interval(120_000, 3, &left), 140_000);
    assert_eq!(change_interval(120_000, 3, &right), 100_000);
    assert_eq!(change_interval(120_000, 2, &left), 120_000);
    assert_eq!(change_interval(120_000, 0, &Input { left_bracket: true, ..idle() }), 140_000);
    assert_eq!(change_interval(120_000, 0, &Input { right_bracket: true, ..idle() }), 100_000);
    assert_eq!(change_seed(1, 0, &Input { r: true, ..idle() }), next_seed(1));
    assert_eq!(change_seed(1, 1, &Input { enter: true, ..idle() }), next_seed(1));
    assert_eq!(change_seed(1, 0, &Input { enter: true, ..idle() }), 1);
    assert_eq!(
        change_seed(1, 1, &Input { enter: true, r: true, ..idle() }),
        next_seed(next_seed(1))
    );
    assert_eq!(lobby_request(0, &Input { enter: true, ..idle() }), LobbyRequest::Start);
    assert_eq!(lobby_request(4, &Input { enter: true, ..idle() }), LobbyRequest::Quit);
    assert_eq!(lobby_request(2, &Input { enter: true, ..idle() }), LobbyRequest::Stay);
    assert_eq!(lobby_request(2, &Input { s: true, ..idle() }), LobbyRequest::OpenSettings);
    assert_eq!(lobby_request(0, &Input { s: true, enter: true, ..idle() }), LobbyRequest::Start);
    assert_eq!(lobby_request(0, &idle()), LobbyRequest::Stay);
}

#[test]
fn reseeding_regenerates_the_preview() {
    let controller = ScreenController::new(saved(1), 5);
    let (controller, fx) = press(controller, Input { r: true, ..idle() }, 0);
    assert_eq!(fx, quiet());
    let lobby = lobby_of(&controller);
    assert_eq!(lobby.seed, 6364136223846793006);
    assert_eq!(
        lobby.preview_map.wall_cells(),
        GridMap::generate(6364136223846793006, 10).wall_cells()
    );
    assert_eq!(lobby.preview_map.seed(), 6364136223846793006);
    assert_eq!(controller.save(), saved(1));
}

#[test]
fn density_keys_regenerate_the_preview() {
    let controller = ScreenController::new(saved(1), 5);
    let (controller, _) = press(controller, Input { equal: true, ..idle() }, 0);
    assert_eq!(lobby_of(&controller).wall_density, 12);
    assert_eq!(
        lobby_of(&controller).preview_map.wall_cells(),
        GridMap::generate(1, 12).wall_cells()
    );
    let (controller, _) = press(controller, Input { down: true, ..idle() }, 0);
    let (controller, _) = press(controller, Input { down: true, ..idle() }, 0);
    assert_eq!(lobby_of(&controller).selected, 2);
    let (controller, _) = press(controller, Input { left: true, ..idle() }, 0);
    assert_eq!(lobby_of(&controller).wall_density, 10);
    let (controller, _) = press(controller, Input { down: true, ..idle() }, 0);
    let (controller, _) = press(controller, Input { left: true, ..idle() }, 0);
    assert_eq!(lobby_of(&controller).wall_density, 10);
    assert_eq!(lobby_of(&controller).move_interval, 140_000);
    assert_eq!(lobby_of(&controller).preview_map.wall_density(), 10);
}

#[test]
fn the_preview_head_wanders() {
    let mut rng = RandomSource::seeded(1);
    let save = SaveData { last_wall_density: 0, ..saved(1) };
    let mut lobby = LobbyState::new(&save, 5, &mut rng);
    lobby.advance_preview(100_000);
    assert_eq!(lobby.preview_pos, Cell { x: 16, y: 12 });
    assert_eq!(lobby.preview_elapsed, 100_000);
    lobby.advance_preview(20_000);
    assert_eq!(lobby.preview_pos, Cell { x: 17, y: 12 });
    assert_eq!(lobby.preview_dir, Direction::Right);
    assert_eq!(lobby.preview_elapsed, 0);
}

#[test]
fn the_preview_head_turns_clockwise_when_blocked() {
    let open = GridMap::generate(1, 0);
    assert_eq!(
        find_preview_target(&open, Cell { x: 30, y: 12 }, Direction::Right),
        (Cell { x: 30, y: 13 }, Direction::Down)
    );
    assert_eq!(
        find_preview_target(&open, Cell { x: 30, y: 22 }, Direction::Right),
        (Cell { x: 29, y: 22 }, Direction::Left)
    );
    assert_eq!(
        find_preview_target(&open, Cell { x: 1, y: 1 }, Direction::Left),
        (Cell { x: 2, y: 1 }, Direction::Right)
    );
    assert_eq!(
        find_preview_target(&open, Cell { x: 5, y: 5 }, Direction::Up),
        (Cell { x: 5, y: 4 }, Direction::Up)
    );
    let full = GridMap::generate(1, 100);
    assert_eq!(
        find_preview_target(&full, Cell { x: 5, y: 5 }, Direction::Up),
        (Cell { x: 16, y: 12 }, Direction::Right)
    );
}

#[test]
fn enter_on_the_last_entry_asks_to_quit() {
    let controller = ScreenController::new(saved(1), 5);
    let (controller, _) = press(controller, Input { up: true, ..idle() }, 0);
    assert_eq!(lobby_of(&controller).selected, 4);
    let (controller, fx) = press(controller, Input { enter: true, ..idle() }, 0);
    assert!(fx.quit);
    assert_eq!(fx.save, None);
    assert_eq!(lobby_of(&controller).selected, 4);
}

#[test]
fn settings_change_the_volume_and_save_it() {
    let controller = ScreenController::new(saved(1), 5);
    let (controller, fx) = press(controller, Input { s: true, ..idle() }, 0);
    assert_eq!(fx, quiet());
    assert!(matches!(controller.screen(), Screen::Settings(s) if s.sound_volume == 100));
    let (controller, _) = press(controller, Input { left: true, ..idle() }, 0);
    let (controller, _) = press(controller, Input { minus: true, ..idle() }, 0);
    assert!(matches!(controller.screen(), Screen::Settings(s) if s.sound_volume == 90));
    assert_eq!(controller.sound_volume(), 100);
    let (controller, fx) = press(controller, Input { escape: true, ..idle() }, 0);
    assert_eq!(controller.sound_volume(), 90);
    assert_eq!(fx.save, Some(SaveData { sound_volume: 90, ..saved(1) }));
    assert_eq!(controller.save(), SaveData { sound_volume: 90, ..saved(1) });
    assert_eq!(lobby_of(&controller).seed, 1);
}

#[test]
fn settings_keys_by_themselves() {
    let mut settings = SettingsState { sound_volume: 3 };
    assert!(!settings.update(&Input { left: true, ..idle() }));
    assert_eq!(settings.sound_volume, 0);
    assert!(!settings.update(&Input { m: true, ..idle() }));
    assert_eq!(settings.sound_volume, 100);
    assert!(!settings.update(&Input { right: true, ..idle() }));
    assert_eq!(settings.sound_volume, 100);
    assert!(!settings.update(&Input { m: true, ..idle() }));
    assert_eq!(settings.sound_volume, 0);
    assert!(!settings.update(&Input { equal: true, ..idle() }));
    assert_eq!(settings.sound_volume, 5);
    assert!(settings.update(&Input { enter: true, ..idle() }));
    assert!(settings.update(&Input { escape: true, ..idle() }));
    assert_eq!(settings.sound_volume, 5);
}

#[test]
fn cues_and_their_volume() {
    assert_eq!(cue_of(StepOutcome::Idle), None);
    assert_eq!(cue_of(StepOutcome::Moved), None);
    assert_eq!(cue_of(StepOutcome::Ate), Some(Cue::Ate));
    assert_eq!(cue_of(StepOutcome::Died(DeathCause::Wall)), Some(Cue::Died));
    assert_eq!(cue_of(StepOutcome::Died(DeathCause::OutOfBounds)), Some(Cue::Died));
    assert_eq!(cue_of(StepOutcome::Died(DeathCause::SelfCollision)), Some(Cue::Died));
    assert_eq!(cue_volume(Cue::Ate, 100), 3500);
    assert_eq!(cue_volume(Cue::Died, 100), 6000);
    assert_eq!(cue_volume(Cue::Ate, 50), 1750);
    assert_eq!(cue_volume(Cue::Died, 0), 0);
}

#[test]
fn starting_saves_the_parameters_and_plays() {
    let controller = ScreenController::new(saved(1), 5);
    let (controller, _) = press(controller, Input { equal: true, left_bracket: true, ..idle() }, 0);
    let (controller, fx) = press(controller, Input { enter: true, ..idle() }, 0);
    let expected = SaveData {
        last_seed: 1,
        last_wall_density: 12,
        last_move_interval: 140_000,
        ..saved(1)
    };
    assert_eq!(fx, Effects { save: Some(expected), ..quiet() });
    assert_eq!(controller.save(), expected);
    assert!(matches!(controller.screen(), Screen::Playing(_)));
    let game = game_of(&controller);
    assert_eq!(game.map().wall_cells(), GridMap::generate(1, 12).wall_cells());
    assert_eq!(game.move_interval(), 140_000);
    assert_eq!(game.score(), 0);
    assert_eq!(game.volume(), 100);
    assert_eq!(
        game.snake(),
        &vec![Cell { x: 16, y: 12 }, Cell { x: 15, y: 12 }, Cell { x: 14, y: 12 }]
    );
}

#[test]
fn the_played_map_is_the_previewed_map() {
    let controller = ScreenController::new(saved(321), 5);
    let preview = lobby_of(&controller).preview_map.wall_cells();
    let (controller, _) = press(controller, Input { enter: true, ..idle() }, 0);
    assert_eq!(game_of(&controller).map().wall_cells(), preview);
}

fn run_into_left_wall(mut controller: ScreenController) -> (ScreenController, Effects, u32) {
    let tick = game_of(&controller).move_interval();
    let mut plan: Vec<Input> = Vec::new();
    plan.push(Input { down: true, ..idle() });
    plan.push(Input { a: true, ..idle() });
    plan.push(idle());
    plan.push(idle());
    plan.push(Input { w: true, ..idle() });
    plan.push(Input { left: true, ..idle() });
    for _ in 0..11 {
        plan.push(idle());
    }
    for input in plan {
        let (next, fx) = press(controller, input, tick);
        controller = next;
        assert!(!fx.quit);
        assert!(matches!(controller.screen(), Screen::Playing(_)));
    }
    assert_eq!(game_of(&controller).snake()[0], Cell { x: 1, y: 12 });
    let score = game_of(&controller).score();
    let (next, fx) = press(controller, idle(), tick);
    (next, fx, score)
}

#[test]
fn death_hands_the_game_to_game_over() {
    let controller = start_open_run(1);
    let walls = game_of(&controller).map().wall_cells();
    let (controller, fx, score) = run_into_left_wall(controller);
    assert!(matches!(controller.screen(), Screen::GameOver(_)));
    let game = game_of(&controller);
    assert!(!game.is_alive());
    assert_eq!(game.score(), score);
    assert_eq!(game.map().wall_cells(), walls);
    assert_eq!(game.snake()[0], Cell { x: 1, y: 12 });
    assert_eq!(fx.cue, Some(Cue::Died));
    assert_eq!(fx.cue_volume, 6000);
    if score > 0 {
        assert_eq!(fx.save.map(|s| s.best_score), Some(score));
    } else {
        assert_eq!(fx.save, None);
    }
    assert_eq!(controller.save().best_score, score);
}

#[test]
fn game_over_waits_for_a_key() {
    let controller = start_open_run(1);
    let (controller, _, score) = run_into_left_wall(controller);
    let snake = game_of(&controller).snake().clone();
    let (controller, fx) = press(controller, idle(), 500_000);
    assert_eq!(fx, quiet());
    assert!(matches!(controller.screen(), Screen::GameOver(_)));
    assert_eq!(game_of(&controller).snake(), &snake);
    assert_eq!(game_of(&controller).score(), score);
}

#[test]
fn restart_plays_again_on_the_same_map() {
    let controller = start_open_run(1);
    let (controller, _, _) = run_into_left_wall(controller);
    let walls = game_of(&controller).map().wall_cells();
    let tick = game_of(&controller).move_interval();
    let (controller, fx) = press(controller, Input { r: true, ..idle() }, 0);
    assert_eq!(fx, quiet());
    assert!(matches!(controller.screen(), Screen::Playing(_)));
    let game = game_of(&controller);
    assert!(game.is_alive());
    assert_eq!(game.score(), 0);
    assert_eq!(game.move_interval(), tick);
    assert_eq!(game.map().wall_cells(), walls);
    assert_eq!(
        game.snake(),
        &vec![Cell { x: 16, y: 12 }, Cell { x: 15, y: 12 }, Cell { x: 14, y: 12 }]
    );
}

#[test]
fn enter_after_game_over_returns_to_the_lobby() {
    let controller = start_open_run(1);
    let (controller, _, _) = run_into_left_wall(controller);
    let (controller, fx) = press(controller, Input { enter: true, r: true, ..idle() }, 0);
    assert_eq!(fx, quiet());
    let lobby = lobby_of(&controller);
    assert_eq!(lobby.seed, 1);
    assert_eq!(lobby.wall_density, 10);
    assert_eq!(lobby.move_interval, 120_000);
}

fn steer(controller: &ScreenController) -> Input {
    let game = game_of(controller);
    let head = game.snake()[0];
    let food = game.food().unwrap();
    let heading = game.direction();
    if food.y < head.y && heading != Direction::Down {
        Input { up: true, ..idle() }
    } else if food.y > head.y && heading != Direction::Up {
        Input { s: true, ..idle() }
    } else if food.x < head.x && heading != Direction::Right {
        Input { left: true, ..idle() }
    } else if food.x > head.x && heading != Direction::Left {
        Input { d: true, ..idle() }
    } else if food.y == head.y {
        Input { down: true, ..idle() }
    } else {
        Input { right: true, ..idle() }
    }
}

fn play_until_fed(mut controller: ScreenController) -> ScreenController {
    let tick = game_of(&controller).move_interval();
    for _ in 0..200 {
        let input = steer(&controller);
        let before = game_of(&controller).score();
        let (next, fx) = press(controller, input, tick);
        controller = next;
        assert!(matches!(controller.screen(), Screen::Playing(_)));
        if fx.cue == Some(Cue::Ate) {
            assert_eq!(fx.cue_volume, 3500);
            assert_eq!(fx.save, None);
            assert_eq!(game_of(&controller).score(), before + 1);
            assert_eq!(game_of(&controller).snake().len(), 4);
            return controller;
        }
        assert_eq!(fx, quiet());
    }
    panic!("the snake never reached the food");
}

fn play_until_dead(mut controller: ScreenController) -> (ScreenController, Effects) {
    let tick = game_of(&controller).move_interval();
    for _ in 0..40 {
        let (next, fx) = press(controller, idle(), tick);
        controller = next;
        if matches!(controller.screen(), Screen::GameOver(_)) {
            return (controller, fx);
        }
    }
    panic!("the snake never reached a wall");
}

#[test]
fn eating_in_play_gives_the_cue() {
    let controller = play_until_fed(start_open_run(1));
    assert_eq!(game_of(&controller).score(), 1);
    assert!(game_of(&controller).is_alive());
}

#[test]
fn a_better_score_is_saved_once() {
    let controller = play_until_fed(start_open_run(1));
    let before = controller.save();
    assert_eq!(before.best_score, 0);
    let (controller, fx) = play_until_dead(controller);
    assert_eq!(fx.cue, Some(Cue::Died));
    let score = game_of(&controller).score();
    assert!(score >= 1);
    assert_eq!(fx.save, Some(SaveData { best_score: score, ..before }));
    assert_eq!(controller.save(), SaveData { best_score: score, ..before });
    let (controller, fx) = press(controller, idle(), 120_000);
    assert_eq!(fx, quiet());
    let (controller, _) = press(controller, Input { r: true, ..idle() }, 0);
    let (controller, fx) = play_until_dead(controller);
    if game_of(&controller).score() <= score {
        assert_eq!(fx.save, None);
        assert_eq!(controller.save().best_score, score);
    }
}

#[test]
fn input_keys_map_to_directions() {
    assert_eq!(idle().direction(), None);
    assert_eq!(Input { up: true, ..idle() }.direction(), Some(Direction::Up));
    assert_eq!(Input { w: true, ..idle() }.direction(), Some(Direction::Up));
    assert_eq!(Input { down: true, ..idle() }.direction(), Some(Direction::Down));
    assert_eq!(Input { s: true, ..idle() }.direction(), Some(Direction::Down));
    assert_eq!(Input { left: true, ..idle() }.direction(), Some(Direction::Left));
    assert_eq!(Input { a: true, ..idle() }.direction(), Some(Direction::Left));
    assert_eq!(Input { right: true, ..idle() }.direction(), Some(Direction::Right));
    assert_eq!(Input { d: true, ..idle() }.direction(), Some(Direction::Right));
    assert_eq!(Input { right: true, up: true, ..idle() }.direction(), Some(Direction::Up));
    assert_eq!(Input { a: true, s: true, ..idle() }.direction(), Some(Direction::Down));
}
