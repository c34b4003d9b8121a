//! The runner: its position on the track and its vertical motion.

use crate::config::{FLOOR, JUMP_HEIGHT, JUMP_VELOCITY, PLAYER_COLUMN, TERMINAL_VELOCITY};
use crate::display::{Color, DrawCommand, PLAYER_COLOR, PLAYER_GLYPH};
use vstd::prelude::*;

verus! {

/// The rows that a runner in the air has yet to climb before gravity turns it
/// round: the sum of the speeds at which it will still rise.
pub open spec fn rise(velocity: int) -> int {
    if velocity < 0 {
        (-velocity) * (-velocity - 1) / 2
    } else {
        0
    }
}

/// The runner. `x` is its world column, `y` its row and `velocity` its
/// vertical speed in rows per physics step, positive downwards.
#[derive(Clone, Copy, Debug, PartialEq, Eq)]
pub struct Player {
    pub x: i32,
    pub y: i32,
    pub velocity: i32,
}

impl Player {
    /// Whether gravity still accelerates the runner: it is above the floor
    /// and falls slower than the terminal velocity.
    pub open spec fn accelerating(self) -> bool {
        self.velocity < TERMINAL_VELOCITY && self.y < FLOOR
    }

    /// The velocity with which the runner moves in the coming physics step.
    pub open spec fn next_velocity(self) -> int {
        if self.accelerating() {
            self.velocity + 1
        } else {
            self.velocity as int
        }
    }

    /// Whether the coming physics step would carry the runner below the floor.
    pub open spec fn lands(self) -> bool {
        self.y + self.next_velocity() > FLOOR
    }

    /// Whether a physics step stays within the machine's integers.
    pub open spec fn spec_can_step(&self) -> bool {
        &&& self.x < i32::MAX
        &&& i32::MIN <= self.y + self.next_velocity() <= i32::MAX
    }

    /// The runner after one physics step.
    pub open spec fn stepped(self) -> Player {
        if self.lands() {
            Player { x: (self.x + 1) as i32, y: FLOOR, velocity: 0 }
        } else {
            Player {
                x: (self.x + 1) as i32,
                y: (self.y + self.next_velocity()) as i32,
                velocity: self.next_velocity() as i32,
            }
        }
    }

    /// The runner after the jump impulse.
    pub open spec fn jumped(self) -> Player {
        Player { x: self.x, y: self.y, velocity: JUMP_VELOCITY }
    }

    /// Whether the runner is where a run can have taken it: on the floor or
    /// above it, no faster than a jump upwards or the terminal velocity
    /// downwards, and, while in the air, on a course that stays within the
    /// height of a jump.
    pub open spec fn in_flight(self) -> bool {
        &&& JUMP_VELOCITY <= self.velocity <= TERMINAL_VELOCITY
        &&& self.y <= FLOOR
        &&& self.y == FLOOR || self.y - rise(self.velocity as int) >= FLOOR - JUMP_HEIGHT
    }

    /// The cell that shows the runner.
    pub open spec fn cell(self, sky: Color) -> DrawCommand {
        DrawCommand::Put { x: PLAYER_COLUMN, y: self.y, fg: PLAYER_COLOR, bg: sky, glyph: PLAYER_GLYPH }
    }

    /// A runner at rest at the given place.
    pub fn new(x: i32, y: i32) -> (player: Player)
        ensures
            player == (Player { x, y, velocity: 0 }),
    {
        Player { x, y, velocity: 0 }
    }

    /// Whether a physics step stays within the machine's integers.
    #[verifier::when_used_as_spec(spec_can_step)]
    pub fn can_step(&self) -> (fits: bool)
        ensures
            fits == self.can_step(),
    {
        let velocity: i64 = if self.velocity < TERMINAL_VELOCITY && self.y < FLOOR {
            self.velocity as i64 + 1
        } else {
            self.velocity as i64
        };
        let row: i64 = self.y as i64 + velocity;
        self.x < i32::MAX && i32::MIN as i64 <= row && row <= i32::MAX as i64
    }

    /// The command that draws the runner, always in the same screen column,
    /// over the given background.
    pub fn render(&self, sky: Color) -> (command: DrawCommand)
        ensures
            command == self.cell(sky),
    {
        DrawCommand::Put { x: PLAYER_COLUMN, y: self.y, fg: PLAYER_COLOR, bg: sky, glyph: PLAYER_GLYPH }
    }

    /// One physics step. Gravity adds one to the velocity while the runner is
    /// above the floor and below the terminal velocity; the runner then moves
    /// down by the velocity and one column forward. A runner that would pass
    /// the floor comes to rest on it.
    pub fn gravity_and_move(&mut self)
        requires
            old(self).can_step(),
        ensures
            *final(self) == old(self).stepped(),
            final(self).x == old(self).x + 1,
            final(self).y <= FLOOR,
            old(self).lands() ==> final(self).y == FLOOR && final(self).velocity == 0,
            !old(self).lands() ==> final(self).y == old(self).y + old(self).next_velocity()
                && final(self).velocity == old(self).next_velocity(),
    {
        if self.velocity < TERMINAL_VELOCITY && self.y < FLOOR {
            self.velocity += 1;
        }
        self.y += self.velocity;
        self.x += 1;
        if self.y > FLOOR {
            self.y = FLOOR;
            self.velocity = 0;
        }
    }

    /// The jump impulse: the velocity becomes -3, whatever it was. The place
    /// does not change. Whether the runner may jump is the caller's decision.
    pub fn jump(&mut self)
        ensures
            *final(self) == old(self).jumped(),
            final(self).velocity == -3,
    {
        self.velocity = JUMP_VELOCITY;
    }
}

/// A runner in flight is never more than the height of a jump above the
/// floor.
pub proof fn lemma_flight_is_low(player: Player)
    requires
        player.in_flight(),
    ensures
        FLOOR - JUMP_HEIGHT <= player.y <= FLOOR,
{
    lemma_rise();
}

/// A physics step keeps a runner in flight, and a runner in flight that is
/// not at the end of the track can make one.
pub proof fn lemma_step_keeps_flight(player: Player)
    requires
        player.in_flight(),
        player.x < i32::MAX,
    ensures
        player.can_step(),
        player.stepped().in_flight(),
        player.stepped().x == player.x + 1,
{
    lemma_rise();
}

/// A jump off the floor keeps a runner in flight.
pub proof fn lemma_jump_keeps_flight(player: Player)
    requires
        player.in_flight(),
        player.y == FLOOR,
    ensures
        player.jumped().in_flight(),
{
}

/// The rows still to climb at each velocity of a jump.
proof fn lemma_rise()
    ensures
        rise(-1) == 0,
        rise(-2) == 1,
        rise(-3) == 3,
{
}

} // verus!
