//! The game itself: the four modes, what a key does in each of them, and the
//! tick that drives the runner, the clock and the obstacle field.

use crate::clock::{accumulate, carried, step_due};
use crate::config::{
    FLOOR, FRAME_DURATION, LOOKAHEAD, PLAYER_COLUMN, RETIRE_DISTANCE, SCREEN_WIDTH, SPEED_SCALE,
};
use crate::display::{
    Color, DrawCommand, Frame, FrameView, Key, Text, GROUND_COLOR, GROUND_GLYPH, PLAYER_COLOR,
};
use crate::field::{
    any_hit, can_scroll, cells, lemma_scrolled_push, lemma_survivors_push, needs_obstacle, retire,
    runs_short, scroll, scrolled, survivors,
};
use crate::obstacle::Obstacle;
use crate::player::Player;
use vstd::prelude::*;

verus! {

/// The mode that the game is in.
#[derive(Clone, Copy, Debug, PartialEq, Eq)]
pub enum GameMode {
    Menu,
    Playing,
    Pause,
    End,
}

/// One session of the game.
#[derive(Debug, PartialEq, Eq)]
pub struct State {
    pub player: Player,
    /// The accumulator of the clock, in microseconds.
    pub frame_time: u32,
    /// The obstacle field, oldest obstacle first.
    pub obstacles: Vec<Obstacle>,
    pub mode: GameMode,
    pub score: i32,
}

/// A session as a mathematical value.
pub struct StateView {
    pub player: Player,
    pub frame_time: u32,
    pub obstacles: Seq<Obstacle>,
    pub mode: GameMode,
    pub score: i32,
}

impl View for State {
    type V = StateView;

    open spec fn view(&self) -> StateView {
        StateView {
            player: self.player,
            frame_time: self.frame_time,
            obstacles: self.obstacles@,
            mode: self.mode,
            score: self.score,
        }
    }
}

/// The remainder of the score by fifty, with the sign of the score.
pub open spec fn band(score: i32) -> int {
    if score >= 0 {
        score as int % 50
    } else {
        -((-score) % 50)
    }
}

/// The colour of the sky at a score. It darkens in five bands as the score
/// climbs through each fifty.
pub open spec fn sky_at(score: i32) -> Color {
    let band = band(score);
    if 0 <= band <= 10 {
        Color::White
    } else if 11 <= band <= 20 {
        Color::LightGray
    } else if 21 <= band <= 30 {
        Color::Gray
    } else if 31 <= band <= 40 {
        Color::DarkGray
    } else {
        Color::Black
    }
}

/// The ground line: one cell in every column of the row below the floor.
pub open spec fn ground(sky: Color) -> Seq<DrawCommand> {
    Seq::new(
        SCREEN_WIDTH as nat,
        |column: int|
            DrawCommand::Put {
                x: column as i32,
                y: (FLOOR + 1) as i32,
                fg: GROUND_COLOR,
                bg: sky,
                glyph: GROUND_GLYPH,
            },
    )
}

/// The two lines of the head-up display: the score and the size of the field.
pub open spec fn readout(sky: Color, score: i32, obstacles: nat) -> Seq<DrawCommand> {
    seq![
        DrawCommand::Print { x: 0, y: 1, fg: PLAYER_COLOR, bg: sky, text: Text::Score(score) },
        DrawCommand::Print {
            x: 0,
            y: 2,
            fg: PLAYER_COLOR,
            bg: sky,
            text: Text::Obstacles(obstacles as usize),
        },
    ]
}

/// Whether a key starts a run from the menu or after a run has ended.
pub open spec fn starts_run(key: Option<Key>) -> bool {
    key == Some(Key::P) || key == Some(Key::Space)
}

/// Whether a key ends the game while no run is on.
pub open spec fn quits_menu(key: Option<Key>) -> bool {
    key == Some(Key::Q) || key == Some(Key::C) || key == Some(Key::Escape)
}

/// What the menu draws, and whether the key asks to end the game.
pub open spec fn menu_frame(key: Option<Key>) -> FrameView {
    FrameView {
        commands: seq![
            DrawCommand::Clear,
            DrawCommand::PrintCentered { y: 5, text: Text::Welcome },
            DrawCommand::PrintCentered { y: 8, text: Text::PlayGame },
            DrawCommand::PrintCentered { y: 10, text: Text::QuitGame },
        ],
        quitting: quits_menu(key),
    }
}

/// Whether a key ends the game while a run is on.
pub open spec fn quits_run(key: Option<Key>) -> bool {
    key == Some(Key::Escape) || key == Some(Key::Q)
}

impl StateView {
    /// The colour of the sky at the session's score.
    pub open spec fn sky(self) -> Color {
        sky_at(self.score)
    }

    /// The session after the clock has taken in the time since the last
    /// tick: when a physics step is due, the runner has made it.
    pub open spec fn timed(self, elapsed: u32) -> StateView {
        StateView {
            frame_time: carried(self.frame_time, elapsed),
            player: if step_due(self.frame_time, elapsed) {
                self.player.stepped()
            } else {
                self.player
            },
            ..self
        }
    }

    /// The session after a key of a run has been obeyed: `P` pauses, and
    /// `Space` or `Up` makes a runner jump that stands on the floor.
    pub open spec fn steered(self, key: Option<Key>) -> StateView {
        match key {
            Some(Key::P) => StateView { mode: GameMode::Pause, ..self },
            Some(Key::Space) | Some(Key::Up) => if self.player.y == FLOOR {
                StateView { player: self.player.jumped(), ..self }
            } else {
                self
            },
            _ => self,
        }
    }

    /// The session after the obstacles have moved: a hit ends the run.
    pub open spec fn advanced(self) -> StateView {
        let moved = scrolled(self.obstacles);
        StateView {
            obstacles: moved,
            mode: if any_hit(moved, self.player) {
                GameMode::End
            } else {
                self.mode
            },
            ..self
        }
    }

    /// How many obstacles the runner has left behind.
    pub open spec fn passed(self) -> int {
        self.obstacles.len() - survivors(self.obstacles, self.player.x).len()
    }

    /// The session after the obstacles that the runner has left behind are
    /// retired, each for one point.
    pub open spec fn scored(self) -> StateView {
        StateView {
            obstacles: survivors(self.obstacles, self.player.x),
            score: (self.score + self.passed()) as i32,
            ..self
        }
    }

    /// The session after one tick of a run, before the field is replenished.
    pub open spec fn played(self, key: Option<Key>, elapsed: u32) -> StateView {
        self.timed(elapsed).steered(key).advanced().scored()
    }

    /// Whether the session is at the start of a run, in the given mode: the
    /// runner rests on the floor in its starting column, the clock is empty,
    /// the score is zero, and the field holds the one obstacle that the
    /// generator made, at score zero, a screen's width from the origin.
    pub open spec fn fresh(self, mode: GameMode) -> bool {
        &&& self.player == Player { x: PLAYER_COLUMN, y: FLOOR, velocity: 0 }
        &&& self.frame_time == 0
        &&& self.mode == mode
        &&& self.score == 0
        &&& self.obstacles.len() == 1
        &&& self.obstacles[0].spawned(SCREEN_WIDTH, 0)
    }

    /// Whether `after` is what a key makes of this session while no run is
    /// on: a key that starts a run gives a fresh session in mode `Playing`,
    /// any other changes nothing.
    pub open spec fn chosen(self, key: Option<Key>, after: StateView) -> bool {
        if starts_run(key) {
            after.fresh(GameMode::Playing)
        } else {
            after == self
        }
    }

    /// What is drawn after a run has ended or while it is paused, and whether
    /// the key asks to end the game.
    pub open spec fn dead_frame(self, key: Option<Key>) -> FrameView {
        FrameView {
            commands: seq![
                DrawCommand::Clear,
                DrawCommand::PrintCentered { y: 3, text: Text::Dead },
                DrawCommand::PrintCentered { y: 6, text: Text::Earned(self.score) },
                DrawCommand::PrintCentered { y: 8, text: Text::PlayAgain },
                DrawCommand::PrintCentered { y: 10, text: Text::QuitGame },
            ],
            quitting: quits_menu(key),
        }
    }

    /// Whether the field needs another obstacle.
    pub open spec fn runs_short(self) -> bool {
        runs_short(self.obstacles, self.player.x)
    }

    /// Whether this session is `before` with the field replenished: where
    /// the field of `before` runs short, one obstacle has been added behind
    /// the others, generated a screen's width ahead of the runner at the
    /// score of `before`; where it does not, nothing has changed.
    pub open spec fn replenishes(self, before: StateView) -> bool {
        &&& self.player == before.player
        &&& self.frame_time == before.frame_time
        &&& self.mode == before.mode
        &&& self.score == before.score
        &&& if before.runs_short() {
            &&& self.obstacles.len() == before.obstacles.len() + 1
            &&& self.obstacles.drop_last() == before.obstacles
            &&& self.obstacles.last().spawned(
                (before.player.x + SCREEN_WIDTH) as i32,
                before.score,
            )
        } else {
            self.obstacles == before.obstacles
        }
    }

    /// Whether a tick of a run stays within the machine's integers and
    /// leaves at least one obstacle on the field.
    pub open spec fn can_play(self, elapsed: u32) -> bool {
        let runner = self.timed(elapsed).player;
        let after = self.played(None, elapsed);
        &&& step_due(self.frame_time, elapsed) ==> self.player.can_step()
        &&& can_scroll(self.obstacles, runner.x)
        &&& after.obstacles.len() > 0
        &&& self.obstacles.len() - after.obstacles.len() <= i32::MAX
        &&& self.score + (self.obstacles.len() - after.obstacles.len()) <= i32::MAX
        &&& after.runs_short() ==> {
            &&& runner.x + SCREEN_WIDTH <= i32::MAX
            &&& Obstacle::can_spawn((runner.x + SCREEN_WIDTH) as i32, after.score)
        }
    }

    /// The key of a tick has no say in what becomes of the field, the runner's
    /// place or the score: it can only change the mode and make the runner
    /// jump.
    pub proof fn lemma_key_leaves_field(self, key: Option<Key>, elapsed: u32)
        ensures
            self.played(key, elapsed).obstacles == self.played(None, elapsed).obstacles,
            self.played(key, elapsed).score == self.played(None, elapsed).score,
            self.played(key, elapsed).frame_time == self.played(None, elapsed).frame_time,
            self.played(key, elapsed).player.x == self.played(None, elapsed).player.x,
            self.played(key, elapsed).player.y == self.played(None, elapsed).player.y,
            self.played(key, elapsed).runs_short() == self.played(None, elapsed).runs_short(),
    {
    }

    /// What a tick of a run draws: the sky, the ground, the runner, the
    /// obstacles where they stand after their move, and the readout with the
    /// new score and the number of obstacles that stay on the field.
    pub open spec fn play_frame(self, key: Option<Key>, elapsed: u32) -> FrameView {
        let sky = self.sky();
        let runner = self.timed(elapsed).steered(key).player;
        let after = self.played(key, elapsed);
        FrameView {
            commands: seq![DrawCommand::Fill { bg: sky }] + ground(sky) + seq![runner.cell(sky)]
                + cells(scrolled(self.obstacles), runner.x, sky) + readout(
                sky,
                after.score,
                after.obstacles.len(),
            ),
            quitting: quits_run(key),
        }
    }
}

/// The commands that draw the sky and the ground line.
pub fn backdrop(sky: Color) -> (commands: Vec<DrawCommand>)
    ensures
        commands@ == seq![DrawCommand::Fill { bg: sky }] + ground(sky),
{
    let mut commands: Vec<DrawCommand> = Vec::new();
    commands.push(DrawCommand::Fill { bg: sky });
    let mut column: i32 = 0;
    while column < SCREEN_WIDTH
        invariant
            0 <= column <= SCREEN_WIDTH,
            commands@.len() == 1 + column,
            commands@[0] == (DrawCommand::Fill { bg: sky }),
            forall|k: int| 0 <= k < column ==> commands@[1 + k] == ground(sky)[k],
        decreases SCREEN_WIDTH - column,
    {
        commands.push(
            DrawCommand::Put {
                x: column,
                y: FLOOR + 1,
                fg: GROUND_COLOR,
                bg: sky,
                glyph: GROUND_GLYPH,
            },
        );
        column += 1;
    }
    assert(commands@ == seq![DrawCommand::Fill { bg: sky }] + ground(sky));
    commands
}

impl State {
    /// A session that waits in the menu, set up for its first run.
    pub fn new() -> (state: State)
        ensures
            state@.fresh(GameMode::Menu),
    {
        let mut obstacles: Vec<Obstacle> = Vec::new();
        obstacles.push(Obstacle::new(SCREEN_WIDTH, 0));
        State {
            player: Player::new(PLAYER_COLUMN, FLOOR),
            frame_time: 0,
            obstacles,
            mode: GameMode::Menu,
            score: 0,
        }
    }

    /// The colour of the sky at the current score.
    pub fn sky(&self) -> (color: Color)
        ensures
            color == sky_at(self.score),
    {
        let modscore: i32 = self.score % 50;
        match modscore {
            0..=10 => Color::White,
            11..=20 => Color::LightGray,
            21..=30 => Color::Gray,
            31..=40 => Color::DarkGray,
            _ => Color::Black,
        }
    }

    /// Whether a tick of a run that takes in `elapsed` microseconds stays
    /// within the machine's integers and leaves at least one obstacle on the
    /// field: what `play` asks of its caller.
    pub fn can_play(&self, elapsed: u32) -> (fits: bool)
        ensures
            fits == self@.can_play(elapsed),
    {
        let due = self.frame_time as u64 + elapsed as u64 > FRAME_DURATION as u64;
        if due && !self.player.can_step() {
            return false;
        }
        let runner_x: i32 = if due { self.player.x + 1 } else { self.player.x };
        let mut kept: usize = 0;
        let mut newest: i32 = 0;
        let mut i: usize = 0;
        assert(self.obstacles@.take(0) == Seq::<Obstacle>::empty());
        assert(scrolled(Seq::<Obstacle>::empty()) == Seq::<Obstacle>::empty());
        while i < self.obstacles.len()
            invariant
                i <= self.obstacles.len(),
                runner_x == self@.timed(elapsed).player.x,
                can_scroll(self.obstacles@.take(i as int), runner_x),
                kept == survivors(scrolled(self.obstacles@.take(i as int)), runner_x).len(),
                kept <= i,
                kept > 0 ==> newest == survivors(
                    scrolled(self.obstacles@.take(i as int)),
                    runner_x,
                ).last().x,
            decreases self.obstacles.len() - i,
        {
            let obstacle = self.obstacles[i];
            if !obstacle.can_render(runner_x) {
                assert(!self.obstacles@[i as int].can_render(runner_x));
                return false;
            }
            let column: i32 = obstacle.x - obstacle.velocity / SPEED_SCALE;
            proof {
                let seen = self.obstacles@.take(i as int);
                assert(self.obstacles@.take(i + 1) == seen.push(obstacle));
                lemma_scrolled_push(seen, obstacle);
                lemma_survivors_push(scrolled(seen), obstacle.moved(), runner_x);
            }
            if column as i64 > runner_x as i64 - RETIRE_DISTANCE as i64 {
                kept += 1;
                newest = column;
            }
            i += 1;
        }
        assert(self.obstacles@.take(i as int) == self.obstacles@);
        if kept == 0 {
            return false;
        }
        let retired: usize = self.obstacles.len() - kept;
        if retired > i32::MAX as usize {
            return false;
        }
        let score: i64 = self.score as i64 + retired as i64;
        if score > i32::MAX as i64 {
            return false;
        }
        if (newest as i64 - runner_x as i64) < LOOKAHEAD as i64 {
            if runner_x > i32::MAX - SCREEN_WIDTH {
                return false;
            }
            return Obstacle::can_spawn(runner_x + SCREEN_WIDTH, score as i32);
        }
        true
    }

    /// Obeys a key during a run and says whether it asks to end the game.
    /// `P` pauses the run; `Space` or `Up` makes the runner jump if it stands
    /// on the floor; `Escape` or `Q` asks to end the game.
    pub fn steer(&mut self, key: Option<Key>) -> (quitting: bool)
        ensures
            final(self)@ == old(self)@.steered(key),
            quitting == quits_run(key),
    {
        let mut quitting = false;
        match key {
            Some(Key::P) => {
                self.mode = GameMode::Pause;
            },
            Some(Key::Space) | Some(Key::Up) => {
                if self.player.y == FLOOR {
                    self.player.jump();
                }
            },
            Some(Key::Escape) | Some(Key::Q) => {
                quitting = true;
            },
            _ => {},
        }
        quitting
    }

    /// Keeps the field stocked: where the newest obstacle is closer to the
    /// runner than nine tenths of the visible width, one obstacle is
    /// generated a screen's width ahead of the runner and added behind the
    /// others. Afterwards the newest obstacle is never that close.
    pub fn replenish(&mut self)
        requires
            old(self)@.obstacles.len() > 0,
            old(self)@.runs_short() ==> old(self).player.x + SCREEN_WIDTH <= i32::MAX
                && Obstacle::can_spawn(
                (old(self).player.x + SCREEN_WIDTH) as i32,
                old(self).score,
            ),
        ensures
            final(self)@.replenishes(old(self)@),
            final(self)@.obstacles.len() > 0,
            !final(self)@.runs_short(),
    {
        if needs_obstacle(&self.obstacles, self.player.x) {
            let obstacle = Obstacle::new(self.player.x + SCREEN_WIDTH, self.score);
            self.obstacles.push(obstacle);
            assert(self.obstacles@.drop_last() == old(self).obstacles@);
        }
    }

    /// One tick of a run. The sky and the ground are drawn; the clock takes
    /// in `elapsed` microseconds and, when a physics step is due, the runner
    /// makes it; the key is obeyed; the runner is drawn; every obstacle moves
    /// and is drawn, and a hit ends the run; the obstacles that the runner has
    /// left behind are retired, each for one point; where the newest obstacle
    /// is then closer than nine tenths of the visible width, a new one is
    /// generated a screen's width ahead of the runner; and the readout is
    /// drawn.
    pub fn play(&mut self, key: Option<Key>, elapsed: u32) -> (frame: Frame)
        requires
            old(self)@.can_play(elapsed),
        ensures
            frame@ == old(self)@.play_frame(key, elapsed),
            final(self)@.replenishes(old(self)@.played(key, elapsed)),
            final(self)@.obstacles.len() > 0,
            !final(self)@.runs_short(),
            final(self).score == old(self).score + old(self)@.timed(elapsed).steered(
                key,
            ).advanced().passed(),
            final(self).score >= old(self).score,
    {
        proof {
            old(self)@.lemma_key_leaves_field(key, elapsed);
        }
        let color = self.sky();
        let mut commands = backdrop(color);
        if accumulate(&mut self.frame_time, elapsed) {
            self.player.gravity_and_move();
        }
        let quitting = self.steer(key);
        commands.push(self.player.render(color));
        let ghost runner = self.player;
        if scroll(&mut self.obstacles, &self.player, color, &mut commands) {
            self.mode = GameMode::End;
        }
        let ghost drawn = commands@;
        let retired = retire(&mut self.obstacles, self.player.x);
        let newlen = self.obstacles.len();
        self.score += retired as i32;
        assert(self@ == old(self)@.played(key, elapsed));
        self.replenish();
        commands.push(
            DrawCommand::Print {
                x: 0,
                y: 1,
                fg: PLAYER_COLOR,
                bg: color,
                text: Text::Score(self.score),
            },
        );
        commands.push(
            DrawCommand::Print {
                x: 0,
                y: 2,
                fg: PLAYER_COLOR,
                bg: color,
                text: Text::Obstacles(newlen),
            },
        );
        assert(commands@ == drawn + readout(color, self.score, newlen as nat));
        assert(drawn == seq![DrawCommand::Fill { bg: color }] + ground(color) + seq![
            runner.cell(color),
        ] + cells(scrolled(old(self)@.obstacles), runner.x, color));
        Frame { commands, quitting }
    }

    /// Starts a run, the first or another one: whatever the session held is
    /// replaced by a fresh session in mode `Playing`.
    pub fn restart(&mut self)
        ensures
            final(self)@.fresh(GameMode::Playing),
    {
        self.player = Player::new(PLAYER_COLUMN, FLOOR);
        self.frame_time = 0;
        self.mode = GameMode::Playing;
        let mut obstacles: Vec<Obstacle> = Vec::new();
        obstacles.push(Obstacle::new(SCREEN_WIDTH, 0));
        self.obstacles = obstacles;
        self.score = 0;
    }

    /// One tick of the menu. `P` or `Space` starts a run; `Q`, `C` or
    /// `Escape` asks to end the game.
    pub fn main_menu(&mut self, key: Option<Key>) -> (frame: Frame)
        ensures
            frame@ == menu_frame(key),
            old(self)@.chosen(key, final(self)@),
    {
        let mut commands: Vec<DrawCommand> = Vec::new();
        let mut quitting = false;
        commands.push(DrawCommand::Clear);
        commands.push(DrawCommand::PrintCentered { y: 5, text: Text::Welcome });
        commands.push(DrawCommand::PrintCentered { y: 8, text: Text::PlayGame });
        commands.push(DrawCommand::PrintCentered { y: 10, text: Text::QuitGame });
        match key {
            Some(Key::P) | Some(Key::Space) => {
                self.restart();
            },
            Some(Key::Q) | Some(Key::C) | Some(Key::Escape) => {
                quitting = true;
            },
            _ => {},
        }
        assert(commands@ == menu_frame(key).commands);
        Frame { commands, quitting }
    }

    /// One tick after a run has ended. The score of the run is shown. `P` or
    /// `Space` starts another run; `Q`, `C` or `Escape` asks to end the game.
    pub fn dead(&mut self, key: Option<Key>) -> (frame: Frame)
        ensures
            frame@ == old(self)@.dead_frame(key),
            old(self)@.chosen(key, final(self)@),
    {
        let mut commands: Vec<DrawCommand> = Vec::new();
        let mut quitting = false;
        commands.push(DrawCommand::Clear);
        commands.push(DrawCommand::PrintCentered { y: 3, text: Text::Dead });
        commands.push(DrawCommand::PrintCentered { y: 6, text: Text::Earned(self.score) });
        commands.push(DrawCommand::PrintCentered { y: 8, text: Text::PlayAgain });
        commands.push(DrawCommand::PrintCentered { y: 10, text: Text::QuitGame });
        match key {
            Some(Key::P) | Some(Key::Space) => {
                self.restart();
            },
            Some(Key::Q) | Some(Key::C) | Some(Key::Escape) => {
                quitting = true;
            },
            _ => {},
        }
        assert(commands@ == old(self)@.dead_frame(key).commands);
        Frame { commands, quitting }
    }

    /// One tick of a paused run: a pause is handled like the end of a run.
    pub fn pause(&mut self, key: Option<Key>) -> (frame: Frame)
        ensures
            frame@ == old(self)@.dead_frame(key),
            old(self)@.chosen(key, final(self)@),
    {
        self.dead(key)
    }

    /// One tick of the game: the tick of the mode that the session is in.
    pub fn tick(&mut self, key: Option<Key>, elapsed: u32) -> (frame: Frame)
        requires
            old(self).mode == GameMode::Playing ==> old(self)@.can_play(elapsed),
        ensures
            old(self).mode == GameMode::Menu ==> frame@ == menu_frame(key) && old(self)@.chosen(
                key,
                final(self)@,
            ),
            old(self).mode == GameMode::End || old(self).mode == GameMode::Pause ==> frame@ == old(
                self,
            )@.dead_frame(key) && old(self)@.chosen(key, final(self)@),
            old(self).mode == GameMode::Playing ==> frame@ == old(self)@.play_frame(key, elapsed)
                && final(self)@.replenishes(old(self)@.played(key, elapsed))
                && final(self)@.obstacles.len() > 0 && !final(self)@.runs_short(),
    {
        match self.mode {
            GameMode::Menu => self.main_menu(key),
            GameMode::End => self.dead(key),
            GameMode::Playing => self.play(key, elapsed),
            GameMode::Pause => self.pause(key),
        }
    }
}

} // verus!
