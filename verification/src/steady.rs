//! The running order of a session: what holds at the start of every run and
//! what every tick of a run keeps, so that the next tick can be made.

use crate::config::{
    FIELD_CAP, FLOOR, PLAYER_COLUMN, SCORE_CAP, SCREEN_WIDTH, SPEED_PER_POINT, TRACK_END,
};
use crate::display::Key;
use crate::field::{ahead_of, lemma_survivors_push, scrolled, survivors};
use crate::obstacle::{lemma_spawned_shape, Obstacle};
use crate::player::{lemma_flight_is_low, lemma_jump_keeps_flight, lemma_step_keeps_flight};
use crate::state::{GameMode, StateView};
use vstd::prelude::*;

verus! {

impl StateView {
    /// Whether the session is within the bounds up to which a run stays in
    /// running order: the runner short of the end of the track, the score at
    /// most `SCORE_CAP`, the field no larger than `FIELD_CAP`.
    pub open spec fn within_limits(self) -> bool {
        &&& self.player.x <= TRACK_END
        &&& self.score <= SCORE_CAP
        &&& self.obstacles.len() <= FIELD_CAP
    }

    /// Whether the session is in running order: within its limits, the
    /// runner in flight at or past its starting column, the score not
    /// negative, every obstacle in play, and the newest obstacle at least as
    /// far ahead of the runner as the first obstacle of a run.
    pub open spec fn steady(self) -> bool {
        &&& self.within_limits()
        &&& self.player.in_flight()
        &&& PLAYER_COLUMN <= self.player.x
        &&& 0 <= self.score
        &&& self.obstacles.len() > 0
        &&& forall|i: int|
            0 <= i < self.obstacles.len() ==> (#[trigger] self.obstacles[i]).in_play(self.player.x)
        &&& self.obstacles.last().x - self.player.x >= SCREEN_WIDTH - PLAYER_COLUMN
    }
}

/// Where the newest obstacle of a field is not yet behind the runner, it is
/// the newest of the survivors.
pub proof fn lemma_newest_survives(obstacles: Seq<Obstacle>, player_x: i32)
    requires
        obstacles.len() > 0,
        !obstacles.last().passed(player_x),
    ensures
        survivors(obstacles, player_x).len() > 0,
        survivors(obstacles, player_x).last() == obstacles.last(),
{
    assert(obstacles == obstacles.drop_last().push(obstacles.last()));
    lemma_survivors_push(obstacles.drop_last(), obstacles.last(), player_x);
}

/// Every survivor is an obstacle of the field that is not yet behind the
/// runner.
pub proof fn lemma_survivor_was_ahead(obstacles: Seq<Obstacle>, player_x: i32, j: int)
    requires
        0 <= j < survivors(obstacles, player_x).len(),
    ensures
        !survivors(obstacles, player_x)[j].passed(player_x),
        exists|i: int|
            0 <= i < obstacles.len() && #[trigger] obstacles[i] == survivors(
                obstacles,
                player_x,
            )[j],
{
    let kept = survivors(obstacles, player_x);
    obstacles.lemma_filter_pred(ahead_of(player_x), j);
    assert(kept.contains(kept[j]));
    obstacles.lemma_filter_contains_rev(ahead_of(player_x), kept[j]);
}

/// A session at the start of a run is in running order.
pub proof fn lemma_fresh_is_steady(session: StateView, mode: GameMode)
    requires
        session.fresh(mode),
    ensures
        session.steady(),
{
    lemma_spawned_shape(session.obstacles[0], SCREEN_WIDTH, 0);
}

/// A session in running order can make a tick of a run, whatever time has
/// passed.
pub proof fn lemma_steady_can_play(session: StateView, elapsed: u32)
    requires
        session.steady(),
    ensures
        session.can_play(elapsed),
{
    lemma_flight_is_low(session.player);
    lemma_step_keeps_flight(session.player);
    let runner = session.timed(elapsed).player;
    let moved = scrolled(session.obstacles);
    assert forall|i: int| 0 <= i < session.obstacles.len() implies (
    #[trigger] session.obstacles[i]).can_render(runner.x) by {
        assert(session.obstacles[i].in_play(session.player.x));
    }
    assert(session.obstacles.last().in_play(session.player.x));
    assert(moved.last() == session.obstacles.last().moved());
    lemma_newest_survives(moved, runner.x);
    moved.lemma_filter_len(ahead_of(runner.x));
}

/// A tick of a run keeps a session in running order, so long as it leaves
/// the session within its limits.
pub proof fn lemma_tick_keeps_steady(
    session: StateView,
    key: Option<Key>,
    elapsed: u32,
    after: StateView,
)
    requires
        session.steady(),
        after.replenishes(session.played(key, elapsed)),
        after.within_limits(),
    ensures
        after.steady(),
        after.score >= session.score,
{
    lemma_steady_can_play(session, elapsed);
    session.lemma_key_leaves_field(key, elapsed);
    lemma_flight_is_low(session.player);
    lemma_step_keeps_flight(session.player);
    let timed = session.timed(elapsed);
    if timed.player.y == FLOOR {
        lemma_jump_keeps_flight(timed.player);
    }
    let runner = timed.steered(key).player;
    let moved = scrolled(session.obstacles);
    let played = session.played(key, elapsed);
    let kept = played.obstacles;
    assert(kept == survivors(moved, runner.x));
    moved.lemma_filter_len(ahead_of(runner.x));
    assert(session.obstacles.last().in_play(session.player.x));
    assert(moved.last() == session.obstacles.last().moved());
    lemma_newest_survives(moved, runner.x);
    assert forall|j: int| 0 <= j < kept.len() implies (#[trigger] kept[j]).in_play(runner.x) by {
        lemma_survivor_was_ahead(moved, runner.x, j);
        let i = choose|i: int| 0 <= i < moved.len() && #[trigger] moved[i] == kept[j];
        assert(session.obstacles[i].in_play(session.player.x));
    }
    if played.runs_short() {
        let newest = after.obstacles.last();
        lemma_spawned_shape(newest, (runner.x + SCREEN_WIDTH) as i32, played.score);
        assert(newest.velocity > 0 ==> newest.velocity < SPEED_PER_POINT * SCORE_CAP)
            by (nonlinear_arith)
            requires
                newest.velocity > 0 ==> newest.velocity < SPEED_PER_POINT * played.score,
                played.score <= SCORE_CAP,
                SPEED_PER_POINT == 2,
        ;
        assert forall|j: int| 0 <= j < after.obstacles.len() implies (
        #[trigger] after.obstacles[j]).in_play(runner.x) by {
            if j < kept.len() {
                assert(after.obstacles[j] == after.obstacles.drop_last()[j]);
            }
        }
    }
}

} // verus!
