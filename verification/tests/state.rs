use dino_rs::display::{Color, DrawCommand, Frame, Key, Text};
use dino_rs::obstacle::Obstacle;
use dino_rs::player::Player;
use dino_rs::state::{backdrop, GameMode, State};

fn still(x: i32) -> Obstacle {
    Obstacle { x, y: 40, velocity: 0, symbol: 'f', color: Color::Green }
}

fn moving(x: i32, y: i32, velocity: i32) -> Obstacle {
    Obstacle { x, y, velocity, symbol: '{', color: Color::Red }
}

fn running(player: Player, obstacles: Vec<Obstacle>, score: i32) -> State {
    State { player, frame_time: 0, obstacles, mode: GameMode::Playing, score }
}

fn at_rest(x: i32) -> Player {
    Player { x, y: 40, velocity: 0 }
}

fn ground_line(sky: Color) -> Vec<DrawCommand> {
    (0..80)
        .map(|x| DrawCommand::Put { x, y: 41, fg: Color::DarkGreen, bg: sky, glyph: '-' })
        .collect()
}

fn readout(sky: Color, score: i32, obstacles: usize) -> Vec<DrawCommand> {
    vec![
        DrawCommand::Print { x: 0, y: 1, fg: Color::Orange, bg: sky, text: Text::Score(score) },
        DrawCommand::Print {
            x: 0,
            y: 2,
            fg: Color::Orange,
            bg: sky,
            text: Text::Obstacles(obstacles),
        },
    ]
}

fn menu_commands() -> Vec<DrawCommand> {
    vec![
        DrawCommand::Clear,
        DrawCommand::PrintCentered { y: 5, text: Text::Welcome },
        DrawCommand::PrintCentered { y: 8, text: Text::PlayGame },
        DrawCommand::PrintCentered { y: 10, text: Text::QuitGame },
    ]
}

fn dead_commands(score: i32) -> Vec<DrawCommand> {
    vec![
        DrawCommand::Clear,
        DrawCommand::PrintCentered { y: 3, text: Text::Dead },
        DrawCommand::PrintCentered { y: 6, text: Text::Earned(score) },
        DrawCommand::PrintCentered { y: 8, text: Text::PlayAgain },
        DrawCommand::PrintCentered { y: 10, text: Text::QuitGame },
    ]
}

fn assert_fresh(state: &State, mode: GameMode) {
    assert_eq!(state.player, Player { x: 10, y: 40, velocity: 0 });
    assert_eq!(state.frame_time, 0);
    assert_eq!(state.mode, mode);
    assert_eq!(state.score, 0);
    assert_eq!(state.obstacles.len(), 1);
    let first = state.obstacles[0];
    assert!(80 <= first.x && first.x < 120);
    assert_eq!(first, still(first.x));
}

#[test]
fn a_new_session_waits_in_the_menu() {
    for _ in 0..50 {
        assert_fresh(&State::new(), GameMode::Menu);
    }
}

#[test]
fn the_sky_darkens_in_five_bands() {
    let bands = [
        (0, Color::White),
        (10, Color::White),
        (11, Color::LightGray),
        (20, Color::LightGray),
        (21, Color::Gray),
        (30, Color::Gray),
        (31, Color::DarkGray),
        (40, Color::DarkGray),
        (41, Color::Black),
        (49, Color::Black),
        (50, Color::White),
        (75, Color::Gray),
        (3799, Color::Black),
        (i32::MAX, Color::Black),
    ];
    for (score, color) in bands {
        let state = running(at_rest(10), vec![still(90)], score);
        assert_eq!(state.sky(), color, "score {}", score);
    }
}

#[test]
fn the_sky_of_a_negative_score() {
    for (score, color) in [(-1, Color::Black), (-10, Color::Black), (-50, Color::White), (-51, Color::Black)] {
        let state = running(at_rest(10), vec![still(90)], score);
        assert_eq!(state.sky(), color, "score {}", score);
    }
}

#[test]
fn the_backdrop_is_the_sky_and_the_ground() {
    let mut expected = vec![DrawCommand::Fill { bg: Color::Gray }];
    expected.extend(ground_line(Color::Gray));
    assert_eq!(backdrop(Color::Gray), expected);
    assert_eq!(expected.len(), 81);
}

#[test]
fn the_menu_draws_its_three_lines() {
    let mut state = State::new();
    let frame = state.main_menu(None);
    assert_eq!(frame, Frame { commands: menu_commands(), quitting: false });
    assert_fresh(&state, GameMode::Menu);
}

#[test]
fn the_menu_starts_a_run_on_p_or_space() {
    for key in [Key::P, Key::Space] {
        let mut state = State::new();
        state.score = 17;
        state.player = Player { x: 55, y: 36, velocity: 4 };
        let frame = state.main_menu(Some(key));
        assert_eq!(frame, Frame { commands: menu_commands(), quitting: false });
        assert_fresh(&state, GameMode::Playing);
    }
}

#[test]
fn the_menu_quits_on_q_c_or_escape() {
    for key in [Key::Q, Key::C, Key::Escape] {
        let mut state = State::new();
        let before = state.obstacles.clone();
        let frame = state.main_menu(Some(key));
        assert_eq!(frame, Frame { commands: menu_commands(), quitting: true });
        assert_eq!(state.mode, GameMode::Menu);
        assert_eq!(state.obstacles, before);
    }
}

#[test]
fn the_menu_ignores_other_keys() {
    for key in [Key::Up, Key::Other] {
        let mut state = State::new();
        let before = state.obstacles.clone();
        let frame = state.main_menu(Some(key));
        assert_eq!(frame, Frame { commands: menu_commands(), quitting: false });
        assert_eq!(state.mode, GameMode::Menu);
        assert_eq!(state.obstacles, before);
    }
}

#[test]
fn the_end_shows_the_score_of_the_run() {
    let mut state = State {
        player: Player { x: 300, y: 38, velocity: 2 },
        frame_time: 20_000,
        obstacles: vec![still(310), moving(390, 36, 120)],
        mode: GameMode::End,
        score: 23,
    };
    let frame = state.dead(None);
    assert_eq!(frame, Frame { commands: dead_commands(23), quitting: false });
    assert_eq!(
        state,
        State {
            player: Player { x: 300, y: 38, velocity: 2 },
            frame_time: 20_000,
            obstacles: vec![still(310), moving(390, 36, 120)],
            mode: GameMode::End,
            score: 23,
        }
    );
}

#[test]
fn restart_from_the_end_gives_a_fresh_run() {
    for key in [Key::P, Key::Space] {
        let mut state = State {
            player: Player { x: 300, y: 38, velocity: 2 },
            frame_time: 20_000,
            obstacles: vec![still(310), moving(390, 36, 120), still(395)],
            mode: GameMode::End,
            score: 23,
        };
        let frame = state.tick(Some(key), 16_000);
        assert_eq!(frame, Frame { commands: dead_commands(23), quitting: false });
        assert_fresh(&state, GameMode::Playing);
    }
}

#[test]
fn restart_discards_whatever_the_session_held() {
    let mut state = State {
        player: Player { x: -5, y: 99, velocity: 77 },
        frame_time: u32::MAX,
        obstacles: Vec::new(),
        mode: GameMode::Pause,
        score: -12,
    };
    state.restart();
    assert_fresh(&state, GameMode::Playing);
}

#[test]
fn the_end_quits_on_q_c_or_escape() {
    for key in [Key::Q, Key::C, Key::Escape] {
        let mut state = running(at_rest(10), vec![still(90)], 4);
        state.mode = GameMode::End;
        let frame = state.dead(Some(key));
        assert_eq!(frame, Frame { commands: dead_commands(4), quitting: true });
        assert_eq!(state.mode, GameMode::End);
        assert_eq!(state.score, 4);
    }
}

#[test]
fn a_pause_is_handled_like_the_end() {
    let mut state = running(Player { x: 40, y: 35, velocity: 1 }, vec![still(90)], 9);
    state.mode = GameMode::Pause;
    let frame = state.pause(Some(Key::Up));
    assert_eq!(frame, Frame { commands: dead_commands(9), quitting: false });
    assert_eq!(state.mode, GameMode::Pause);
    assert_eq!(state.player, Player { x: 40, y: 35, velocity: 1 });
    let frame = state.tick(Some(Key::Escape), 50_000);
    assert_eq!(frame, Frame { commands: dead_commands(9), quitting: true });
    assert_eq!(state.mode, GameMode::Pause);
    let frame = state.tick(Some(Key::Space), 50_000);
    assert_eq!(frame, Frame { commands: dead_commands(9), quitting: false });
    assert_fresh(&state, GameMode::Playing);
}

#[test]
fn a_tick_of_a_run_draws_the_whole_scene() {
    let mut state = running(at_rest(10), vec![still(50), moving(95, 37, 250)], 0);
    assert!(state.can_play(10_000));
    let frame = state.play(None, 10_000);
    let mut expected = vec![DrawCommand::Fill { bg: Color::White }];
    expected.extend(ground_line(Color::White));
    expected.push(DrawCommand::Put {
        x: 10,
        y: 40,
        fg: Color::Orange,
        bg: Color::White,
        glyph: '&',
    });
    expected.push(DrawCommand::Put { x: 40, y: 40, fg: Color::Green, bg: Color::White, glyph: 'f' });
    expected.push(DrawCommand::Put { x: 83, y: 37, fg: Color::Red, bg: Color::White, glyph: '{' });
    expected.extend(readout(Color::White, 0, 2));
    assert_eq!(frame, Frame { commands: expected, quitting: false });
    assert_eq!(
        state,
        State {
            player: at_rest(10),
            frame_time: 10_000,
            obstacles: vec![still(50), moving(93, 37, 250)],
            mode: GameMode::Playing,
            score: 0,
        }
    );
}

#[test]
fn the_runner_steps_only_when_the_clock_says_so() {
    let mut state = running(Player { x: 10, y: 30, velocity: 0 }, vec![still(200)], 0);
    state.play(None, 20_000);
    assert_eq!(state.player, Player { x: 10, y: 30, velocity: 0 });
    assert_eq!(state.frame_time, 20_000);
    state.play(None, 20_000);
    assert_eq!(state.player, Player { x: 11, y: 31, velocity: 1 });
    assert_eq!(state.frame_time, 0);
    state.play(None, 35_000);
    assert_eq!(state.player, Player { x: 11, y: 31, velocity: 1 });
    assert_eq!(state.frame_time, 35_000);
}

#[test]
fn p_pauses_a_run() {
    let mut state = running(at_rest(10), vec![still(200)], 0);
    let frame = state.play(Some(Key::P), 1_000);
    assert!(!frame.quitting);
    assert_eq!(state.mode, GameMode::Pause);
    assert_eq!(state.player, at_rest(10));
}

#[test]
fn space_and_up_make_a_runner_on_the_floor_jump() {
    for key in [Key::Space, Key::Up] {
        let mut state = running(at_rest(10), vec![still(200)], 0);
        let frame = state.play(Some(key), 1_000);
        assert!(!frame.quitting);
        assert_eq!(state.mode, GameMode::Playing);
        assert_eq!(state.player, Player { x: 10, y: 40, velocity: -3 });
    }
}

#[test]
fn a_runner_in_the_air_cannot_jump() {
    for key in [Key::Space, Key::Up] {
        let mut state = running(Player { x: 10, y: 39, velocity: 2 }, vec![still(200)], 0);
        state.play(Some(key), 1_000);
        assert_eq!(state.player, Player { x: 10, y: 39, velocity: 2 });
    }
}

#[test]
fn a_jump_is_decided_after_the_physics_step() {
    let mut landing = running(Player { x: 10, y: 38, velocity: 5 }, vec![still(200)], 0);
    landing.play(Some(Key::Space), 40_000);
    assert_eq!(landing.player, Player { x: 11, y: 40, velocity: -3 });
    let mut leaving = running(Player { x: 10, y: 40, velocity: -3 }, vec![still(200)], 0);
    leaving.play(Some(Key::Space), 40_000);
    assert_eq!(leaving.player, Player { x: 11, y: 37, velocity: -3 });
}

#[test]
fn escape_and_q_ask_to_end_a_run() {
    for key in [Key::Escape, Key::Q] {
        let mut state = running(at_rest(10), vec![still(200)], 0);
        let frame = state.play(Some(key), 1_000);
        assert!(frame.quitting);
        assert_eq!(state.mode, GameMode::Playing);
    }
}

#[test]
fn c_and_other_keys_mean_nothing_in_a_run() {
    for key in [Key::C, Key::Other] {
        let mut state = running(at_rest(10), vec![still(200)], 0);
        let frame = state.play(Some(key), 1_000);
        assert!(!frame.quitting);
        assert_eq!(state.mode, GameMode::Playing);
        assert_eq!(state.player, at_rest(10));
    }
}

#[test]
fn a_collision_ends_the_run() {
    let mut state = running(at_rest(10), vec![still(20), still(200)], 0);
    let frame = state.play(None, 0);
    assert!(!frame.quitting);
    assert_eq!(state.mode, GameMode::End);
    assert_eq!(state.score, 0);
}

#[test]
fn a_collision_outweighs_a_pause() {
    let mut state = running(at_rest(10), vec![still(20), still(200)], 0);
    state.play(Some(Key::P), 0);
    assert_eq!(state.mode, GameMode::End);
}

#[test]
fn a_collision_is_tested_after_the_move() {
    let mut state = running(at_rest(10), vec![moving(24, 40, 300), still(200)], 0);
    state.play(None, 40_000);
    assert_eq!(state.player.x, 11);
    assert_eq!(state.obstacles[0].x, 21);
    assert_eq!(state.mode, GameMode::End);
}

#[test]
fn a_jump_clears_a_low_obstacle() {
    let mut state = running(Player { x: 10, y: 37, velocity: -3 }, vec![still(20), still(200)], 0);
    state.play(None, 0);
    assert_eq!(state.mode, GameMode::Playing);
}

#[test]
fn retired_obstacles_score_a_point_each() {
    let mut state =
        running(at_rest(100), vec![still(95), moving(97, 36, 250), still(96), still(200)], 7);
    let frame = state.play(None, 0);
    assert_eq!(state.score, 9);
    assert_eq!(state.obstacles, vec![still(96), still(200)]);
    let n = frame.commands.len();
    assert_eq!(frame.commands[n - 2..].to_vec(), readout(Color::White, 9, 2));
    assert_eq!(n, 1 + 80 + 1 + 4 + 2);
}

#[test]
fn the_step_of_the_runner_counts_for_retirement() {
    let mut state = running(at_rest(100), vec![still(96), still(200)], 0);
    state.play(None, 40_000);
    assert_eq!(state.player.x, 101);
    assert_eq!(state.score, 1);
    assert_eq!(state.obstacles, vec![still(200)]);
}

#[test]
fn a_short_field_gets_one_new_obstacle() {
    for _ in 0..200 {
        let mut state = running(at_rest(100), vec![still(120), still(171)], 0);
        let frame = state.play(None, 0);
        assert_eq!(state.obstacles.len(), 3);
        assert_eq!(state.obstacles[..2].to_vec(), vec![still(120), still(171)]);
        let newest = state.obstacles[2];
        assert!(180 <= newest.x && newest.x < 220);
        assert_eq!(newest, still(newest.x));
        let n = frame.commands.len();
        assert_eq!(frame.commands[n - 2..].to_vec(), readout(Color::White, 0, 2));
    }
}

#[test]
fn a_field_that_reaches_far_enough_gets_none() {
    let mut state = running(at_rest(100), vec![still(120), still(172)], 0);
    state.play(None, 0);
    assert_eq!(state.obstacles, vec![still(120), still(172)]);
}

#[test]
fn a_new_obstacle_is_generated_at_the_new_score() {
    let mut seen_moving = false;
    for _ in 0..300 {
        let mut state = running(at_rest(100), vec![still(90), still(150)], 499);
        state.play(None, 0);
        assert_eq!(state.score, 500);
        assert_eq!(state.obstacles.len(), 2);
        let newest = state.obstacles[1];
        assert!(180 <= newest.x && newest.x < 220);
        assert!(35 <= newest.y && newest.y <= 40);
        assert!(0 <= newest.velocity && newest.velocity < 1000);
        seen_moving = seen_moving || newest.velocity > 0;
    }
    assert!(seen_moving);
}

#[test]
fn the_lookahead_is_measured_after_the_move() {
    let mut state = running(at_rest(100), vec![moving(173, 36, 200)], 0);
    state.play(None, 0);
    assert_eq!(state.obstacles.len(), 2);
    assert_eq!(state.obstacles[0], moving(171, 36, 200));
}

#[test]
fn a_tick_is_possible_only_while_the_field_lasts() {
    assert!(running(at_rest(10), vec![still(90)], 0).can_play(40_000));
    assert!(!running(at_rest(10), Vec::new(), 0).can_play(0));
    assert!(!running(at_rest(100), vec![still(95)], 0).can_play(0));
    assert!(running(at_rest(100), vec![still(96)], 0).can_play(0));
    assert!(!running(at_rest(100), vec![still(96)], 0).can_play(40_000));
    assert!(!running(at_rest(100), vec![moving(180, 36, 8500)], 0).can_play(0));
    assert!(running(at_rest(100), vec![moving(180, 36, 8400)], 0).can_play(0));
}

#[test]
fn a_tick_is_possible_only_within_the_integers() {
    assert!(!running(at_rest(i32::MAX), vec![still(i32::MAX)], 0).can_play(0));
    assert!(running(at_rest(i32::MAX - 72), vec![still(i32::MAX)], 0).can_play(0));
    assert!(!running(at_rest(i32::MAX - 72), vec![still(i32::MAX)], 0).can_play(40_000));
    assert!(!running(at_rest(i32::MAX - 100), vec![still(i32::MAX - 50)], 0).can_play(0));
    assert!(running(at_rest(i32::MAX - 119), vec![still(i32::MAX - 50)], 0).can_play(0));
    assert!(!running(at_rest(i32::MAX - 119), vec![still(i32::MAX - 50)], 0).can_play(40_000));
    assert!(!running(at_rest(100), vec![still(95), still(200)], i32::MAX).can_play(0));
    assert!(running(at_rest(100), vec![still(96), still(200)], i32::MAX).can_play(0));
    assert!(!running(at_rest(100), vec![still(150)], i32::MAX / 2 + 1).can_play(0));
    assert!(!running(at_rest(100), vec![moving(150, 36, -100)], 0).can_play(0));
    assert!(!running(at_rest(100), vec![still(150)], -75).can_play(0));
    assert!(running(at_rest(100), vec![still(150)], -74).can_play(0));
}

#[test]
fn a_tick_goes_to_the_handler_of_the_mode() {
    let mut menu = State::new();
    let frame = menu.tick(None, 16_000);
    assert_eq!(frame.commands, menu_commands());
    assert_eq!(menu.frame_time, 0);

    let mut ended = running(at_rest(10), vec![still(200)], 3);
    ended.mode = GameMode::End;
    assert_eq!(ended.tick(None, 16_000).commands, dead_commands(3));
    assert_eq!(ended.frame_time, 0);

    let mut paused = running(at_rest(10), vec![still(200)], 5);
    paused.mode = GameMode::Pause;
    assert_eq!(paused.tick(None, 16_000).commands, dead_commands(5));
    assert_eq!(paused.frame_time, 0);

    let mut playing = running(at_rest(10), vec![still(200)], 0);
    let frame = playing.tick(None, 16_000);
    assert_eq!(frame.commands.len(), 1 + 80 + 1 + 1 + 2);
    assert_eq!(playing.frame_time, 16_000);
}

#[test]
fn a_run_without_a_jump_ends_at_the_first_obstacle() {
    for _ in 0..20 {
        let mut state = State::new();
        state.tick(Some(Key::Space), 0);
        assert_fresh(&state, GameMode::Playing);
        let first = state.obstacles[0].x;
        let mut retired = 0;
        let mut ticks = 0;
        while state.mode == GameMode::Playing {
            assert!(state.can_play(36_000));
            let before = state.obstacles.len();
            let frame = state.tick(None, 36_000);
            ticks += 1;
            assert!(ticks <= 200);
            assert_eq!(state.player.y, 40);
            assert_eq!(state.player.x, 10 + ticks);
            match frame.commands[frame.commands.len() - 1] {
                DrawCommand::Print { text: Text::Obstacles(kept), .. } => retired += before - kept,
                other => panic!("unexpected command {:?}", other),
            }
            assert_eq!(state.score, retired as i32);
        }
        assert_eq!(state.mode, GameMode::End);
        assert_eq!(state.player.x, first - 10);
        assert_eq!(state.score, 0);
        assert_eq!(retired, 0);
    }
}

#[test]
fn a_long_run_stays_in_running_order() {
    let mut state = State::new();
    state.tick(Some(Key::P), 0);
    let mut best = 0;
    let mut runs = 1;
    for tick in 0..20_000 {
        if state.mode != GameMode::Playing {
            state.tick(Some(Key::P), 16_667);
            assert_fresh(&state, GameMode::Playing);
            runs += 1;
            continue;
        }
        assert!(state.can_play(16_667));
        let score = state.score;
        let key = if tick % 7 == 0 { Some(Key::Up) } else { None };
        state.tick(key, 16_667);
        assert!(state.score >= score);
        assert!(!state.obstacles.is_empty());
        let newest = state.obstacles[state.obstacles.len() - 1];
        assert!(newest.x - state.player.x >= 72);
        assert!(34 <= state.player.y && state.player.y <= 40);
        assert!(-3 <= state.player.velocity && state.player.velocity <= 10);
        for obstacle in &state.obstacles {
            assert!(obstacle.x > state.player.x - 5);
            assert!(obstacle.x < state.player.x + 120);
        }
        best = best.max(state.score);
    }
    assert!(runs >= 1);
    assert!(best >= 0);
}

#[test]
fn two_collisions_at_once_end_the_run_like_one() {
    let mut state =
        running(at_rest(10), vec![still(20), moving(22, 40, 200), still(200)], 3);
    let frame = state.play(None, 0);
    assert!(!frame.quitting);
    assert_eq!(state.mode, GameMode::End);
    assert_eq!(state.score, 3);
    assert_eq!(state.obstacles, vec![still(20), moving(20, 40, 200), still(200)]);
}

#[test]
fn steering_changes_the_mode_or_the_velocity_only() {
    let mut state = running(at_rest(33), vec![still(200)], 12);
    state.frame_time = 9_000;
    assert!(!state.steer(Some(Key::Up)));
    assert_eq!(
        state,
        State {
            player: Player { x: 33, y: 40, velocity: -3 },
            frame_time: 9_000,
            obstacles: vec![still(200)],
            mode: GameMode::Playing,
            score: 12,
        }
    );
    assert!(!state.steer(Some(Key::P)));
    assert_eq!(state.mode, GameMode::Pause);
    assert!(state.steer(Some(Key::Q)));
    assert!(state.steer(Some(Key::Escape)));
    assert!(!state.steer(None));
    assert_eq!(state.mode, GameMode::Pause);
    assert_eq!(state.player, Player { x: 33, y: 40, velocity: -3 });
}

#[test]
fn replenishing_adds_one_obstacle_or_none() {
    let mut short = running(at_rest(500), vec![still(571)], 0);
    short.replenish();
    assert_eq!(short.obstacles.len(), 2);
    assert_eq!(short.obstacles[0], still(571));
    assert!(580 <= short.obstacles[1].x && short.obstacles[1].x < 620);
    short.replenish();
    assert_eq!(short.obstacles.len(), 2);

    let mut stocked = running(at_rest(500), vec![still(510), still(572)], 0);
    stocked.replenish();
    assert_eq!(stocked.obstacles, vec![still(510), still(572)]);
}
