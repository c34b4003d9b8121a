//! The fixed dimensions of the track and the tuning of the simulation.

use vstd::prelude::*;

verus! {

/// Columns of the visible track.
pub const SCREEN_WIDTH: i32 = 80;

/// Rows of the screen.
pub const SCREEN_HEIGHT: i32 = 50;

/// Length of one physics step, in microseconds (35 ms).
pub const FRAME_DURATION: u32 = 35_000;

/// The row on which the runner and the low obstacles rest. Rows count
/// downwards, so every row above the ground has a smaller index.
pub const FLOOR: i32 = 40;

/// The screen column at which the runner is drawn, and its world column at
/// the start of a run.
pub const PLAYER_COLUMN: i32 = 10;

/// Fastest fall, in rows per physics step.
pub const TERMINAL_VELOCITY: i32 = 10;

/// Vertical velocity right after a jump.
pub const JUMP_VELOCITY: i32 = -3;

/// An obstacle this many columns behind the runner, or more, is retired.
pub const RETIRE_DISTANCE: i32 = 5;

/// The newest obstacle must lie at least this far ahead of the runner
/// (nine tenths of the visible width), or another one is spawned.
pub const LOOKAHEAD: i32 = 72;

/// A new obstacle is placed less than this many columns (half the visible
/// width) past its spawn column.
pub const SPAWN_SPREAD: i32 = 40;

/// The highest row at which an obstacle can spawn lies this far above the floor.
pub const SPAWN_RISE: i32 = 5;

/// Obstacle speeds are kept in hundredths of a column per tick.
pub const SPEED_SCALE: i32 = 100;

/// Lowest speed the generator can draw, in hundredths: -1.5 columns per tick.
pub const SLOWEST_DRAW: i32 = -150;

/// Each point of score raises the fastest possible draw by this many
/// hundredths of a column per tick (0.02 columns).
pub const SPEED_PER_POINT: i32 = 2;

/// The runner never rises more than this many rows above the floor.
pub const JUMP_HEIGHT: i32 = 6;

/// The score up to which the field is sure never to run dry: an obstacle
/// generated at a higher score can be fast enough to cross the whole
/// lookahead in one tick.
pub const SCORE_CAP: i32 = 3700;

/// The last world column from which the runner can step on while every
/// column that the generator can draw still fits the machine's integers.
pub const TRACK_END: i32 = 2_147_483_527;

/// A bound on the size of the field that keeps every count of obstacles, and
/// every score that they can add up to, within the machine's integers.
pub const FIELD_CAP: usize = 1_000_000_000;

} // verus!
