//! Obstacles and the generator that makes them.
//!
//! The speed of an obstacle is kept in hundredths of a column per tick, so
//! that the generator's bounds, -1.5 and 0.02 columns for each point of
//! score, are whole numbers. An obstacle moves by the whole columns of its
//! speed.

use crate::config::{
    FLOOR, PLAYER_COLUMN, RETIRE_DISTANCE, SCORE_CAP, SCREEN_WIDTH, SLOWEST_DRAW, SPAWN_RISE,
    SPAWN_SPREAD, SPEED_PER_POINT, SPEED_SCALE,
};
use crate::display::{Color, DrawCommand, HAZARD_COLOR, LOW_GLYPH, SAFE_COLOR, TALL_GLYPH};
use crate::player::Player;
use crate::random::{draw, fresh_generator};
use vstd::prelude::*;

verus! {

/// An obstacle on the track. `x` is its world column, `y` its row and
/// `velocity` its speed towards the runner, in hundredths of a column per
/// tick.
#[derive(Clone, Copy, Debug, PartialEq, Eq)]
pub struct Obstacle {
    pub x: i32,
    pub y: i32,
    pub velocity: i32,
    pub symbol: char,
    pub color: Color,
}

/// Whether three draws lie in the ranges from which the generator takes them
/// at the given score: the offset in `[0, 40)`, the height in the six rows
/// that end with the floor, the speed in `[-150, 2 * score)`.
pub open spec fn draws_in_range(score: i32, x_diff: i32, height: i32, speed: i32) -> bool {
    &&& 0 <= x_diff < SPAWN_SPREAD
    &&& FLOOR - SPAWN_RISE <= height <= FLOOR
    &&& SLOWEST_DRAW <= speed < SPEED_PER_POINT * score
}

impl Obstacle {
    /// The whole columns by which the obstacle moves in one tick.
    pub open spec fn whole_speed(self) -> int {
        self.velocity as int / SPEED_SCALE as int
    }

    /// Whether the obstacle can move and be drawn, relative to a runner in
    /// world column `player_x`, within the machine's integers. Speeds are
    /// never negative.
    pub open spec fn spec_can_render(&self, player_x: i32) -> bool {
        &&& self.velocity >= 0
        &&& i32::MIN <= self.x - self.whole_speed()
        &&& i32::MIN <= self.x - self.whole_speed() - player_x <= i32::MAX
    }

    /// The obstacle one tick later.
    pub open spec fn moved(self) -> Obstacle {
        Obstacle { x: (self.x - self.whole_speed()) as i32, ..self }
    }

    /// The cell that shows the obstacle to a runner in world column `player_x`.
    pub open spec fn cell(self, player_x: i32, sky: Color) -> DrawCommand {
        DrawCommand::Put {
            x: (self.x - player_x) as i32,
            y: self.y,
            fg: self.color,
            bg: sky,
            glyph: self.symbol,
        }
    }

    /// Whether the obstacle stands exactly where the runner is: in the
    /// runner's screen column and in its row.
    pub open spec fn hits(self, player: Player) -> bool {
        player.x == self.x - PLAYER_COLUMN && player.y == self.y
    }

    /// Whether the obstacle lies far enough behind a runner in world column
    /// `player_x` to be retired.
    pub open spec fn passed(self, player_x: i32) -> bool {
        self.x <= player_x - RETIRE_DISTANCE
    }

    /// Whether the obstacle is where a run can have taken it, as seen by a
    /// runner in world column `player_x`: not yet passed, no further ahead
    /// than the generator places an obstacle, and no faster than the
    /// generator makes one while the score is at most `SCORE_CAP`.
    pub open spec fn in_play(self, player_x: i32) -> bool {
        &&& 0 <= self.velocity < SPEED_PER_POINT * SCORE_CAP
        &&& !self.passed(player_x)
        &&& self.x - player_x < SCREEN_WIDTH + SPAWN_SPREAD
    }

    /// The obstacle that the generator makes of three draws. A negative speed
    /// gives an obstacle that stands still on the floor, whatever height was
    /// drawn. Only an obstacle that moves is tall and red.
    pub open spec fn of_draws(x: i32, x_diff: i32, height: i32, speed: i32) -> Obstacle {
        Obstacle {
            x: (x + x_diff) as i32,
            y: if speed < 0 { FLOOR } else { height },
            velocity: if speed < 0 { 0 } else { speed },
            symbol: if speed > 0 { TALL_GLYPH } else { LOW_GLYPH },
            color: if speed > 0 { HAZARD_COLOR } else { SAFE_COLOR },
        }
    }

    /// Whether the generator can make this obstacle at spawn column `x` and
    /// the given score.
    pub open spec fn spawned(self, x: i32, score: i32) -> bool {
        exists|x_diff: i32, height: i32, speed: i32|
            draws_in_range(score, x_diff, height, speed) && self == #[trigger] Obstacle::of_draws(
                x,
                x_diff,
                height,
                speed,
            )
    }

    /// Whether the generator can run at spawn column `x` and the given score:
    /// the range of speeds is not empty and its bound fits the machine's
    /// integers, as does every column that can be drawn.
    pub open spec fn spec_can_spawn(x: i32, score: i32) -> bool {
        &&& x + SPAWN_SPREAD - 1 <= i32::MAX
        &&& SLOWEST_DRAW < SPEED_PER_POINT * score <= i32::MAX
    }

    /// Whether the obstacle can move and be drawn, relative to a runner in
    /// world column `player_x`, within the machine's integers.
    #[verifier::when_used_as_spec(spec_can_render)]
    pub fn can_render(&self, player_x: i32) -> (fits: bool)
        ensures
            fits == self.can_render(player_x),
    {
        if self.velocity < 0 {
            return false;
        }
        let column: i64 = self.x as i64 - (self.velocity / SPEED_SCALE) as i64;
        let screen_column: i64 = column - player_x as i64;
        i32::MIN as i64 <= column && i32::MIN as i64 <= screen_column && screen_column
            <= i32::MAX as i64
    }

    /// Whether the generator can run at spawn column `x` and the given score.
    #[verifier::when_used_as_spec(spec_can_spawn)]
    pub fn can_spawn(x: i32, score: i32) -> (fits: bool)
        ensures
            fits == Obstacle::can_spawn(x, score),
    {
        assert(SPEED_PER_POINT * score == score + score) by (nonlinear_arith)
            requires
                SPEED_PER_POINT == 2,
        ;
        let fastest: i64 = SPEED_PER_POINT as i64 * score as i64;
        x as i64 + SPAWN_SPREAD as i64 - 1 <= i32::MAX as i64 && (SLOWEST_DRAW as i64) < fastest
            && fastest <= i32::MAX as i64
    }

    /// Builds the obstacle from the generator's three draws.
    pub fn from_draws(x: i32, x_diff: i32, height: i32, speed: i32) -> (obstacle: Obstacle)
        requires
            i32::MIN <= x + x_diff <= i32::MAX,
        ensures
            obstacle == Obstacle::of_draws(x, x_diff, height, speed),
            obstacle.x == x + x_diff,
            speed < 0 ==> obstacle.y == FLOOR && obstacle.velocity == 0,
            speed >= 0 ==> obstacle.y == height && obstacle.velocity == speed,
            speed > 0 ==> obstacle.symbol == TALL_GLYPH && obstacle.color == HAZARD_COLOR,
            speed <= 0 ==> obstacle.symbol == LOW_GLYPH && obstacle.color == SAFE_COLOR,
    {
        let mut height = height;
        let mut velocity = speed;
        if velocity < 0 {
            velocity = 0;
            height = FLOOR;
        }
        Obstacle {
            x: x + x_diff,
            y: height,
            velocity,
            symbol: if velocity > 0 { TALL_GLYPH } else { LOW_GLYPH },
            color: if velocity > 0 { HAZARD_COLOR } else { SAFE_COLOR },
        }
    }

    /// Generates an obstacle past column `x`. Three numbers are drawn: how far
    /// past `x` it stands, its row, and its speed, whose upper bound grows
    /// with the score. The obstacle is then built as `from_draws` says.
    pub fn new(x: i32, score: i32) -> (obstacle: Obstacle)
        requires
            Obstacle::can_spawn(x, score),
        ensures
            obstacle.spawned(x, score),
    {
        let mut random = fresh_generator();
        let x_diff: i32 = draw(&mut random, 0, SPAWN_SPREAD);
        let height: i32 = draw(&mut random, FLOOR - SPAWN_RISE, FLOOR + 1);
        let speed: i32 = draw(&mut random, SLOWEST_DRAW, SPEED_PER_POINT * score);
        assert(draws_in_range(score, x_diff, height, speed));
        Obstacle::from_draws(x, x_diff, height, speed)
    }

    /// Moves the obstacle by the whole columns of its speed and returns the
    /// command that draws it where it then stands, as seen by a runner in
    /// world column `player_x`.
    pub fn render(&mut self, player_x: i32, sky: Color) -> (command: DrawCommand)
        requires
            old(self).can_render(player_x),
        ensures
            *final(self) == old(self).moved(),
            final(self).x == old(self).x - old(self).whole_speed(),
            command == final(self).cell(player_x, sky),
    {
        self.x -= self.velocity / SPEED_SCALE;
        let screen_x: i32 = self.x - player_x;
        DrawCommand::Put { x: screen_x, y: self.y, fg: self.color, bg: sky, glyph: self.symbol }
    }

    /// Whether the obstacle has hit the runner.
    pub fn hit_obstacle(&self, player: &Player) -> (hit: bool)
        ensures
            hit == self.hits(*player),
    {
        player.x as i64 == self.x as i64 - PLAYER_COLUMN as i64 && player.y == self.y
    }
}

/// The shape of what the generator makes. The obstacle stands at the spawn
/// column or less than forty columns past it, in one of the six rows that end
/// with the floor. Its speed is not negative and stays below two hundredths
/// of a column for each point of score. An obstacle that moves is tall and
/// red; one that stands still is low and green. At a score of zero every
/// draw of the speed is negative, so the obstacle stands still on the floor.
pub proof fn lemma_spawned_shape(obstacle: Obstacle, x: i32, score: i32)
    requires
        obstacle.spawned(x, score),
        x + SPAWN_SPREAD - 1 <= i32::MAX,
    ensures
        x <= obstacle.x < x + SPAWN_SPREAD,
        FLOOR - SPAWN_RISE <= obstacle.y <= FLOOR,
        0 <= obstacle.velocity,
        obstacle.velocity > 0 ==> obstacle.velocity < SPEED_PER_POINT * score,
        obstacle.velocity > 0 ==> obstacle.symbol == TALL_GLYPH && obstacle.color == HAZARD_COLOR,
        obstacle.velocity == 0 ==> obstacle.symbol == LOW_GLYPH && obstacle.color == SAFE_COLOR,
        score <= 0 ==> obstacle.velocity == 0 && obstacle.y == FLOOR,
{
    let (x_diff, height, speed) = choose|x_diff: i32, height: i32, speed: i32|
        draws_in_range(score, x_diff, height, speed) && obstacle == #[trigger] Obstacle::of_draws(
            x,
            x_diff,
            height,
            speed,
        );
    assert(score <= 0 ==> SPEED_PER_POINT * score <= 0) by (nonlinear_arith)
        requires
            SPEED_PER_POINT == 2,
    ;
}

} // verus!
