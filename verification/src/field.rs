//! The obstacle field: the obstacles on the track, oldest first, and what a
//! tick does to them. They move and are drawn, they are tested against the
//! runner, and those that the runner has left behind are retired.

use crate::config::{LOOKAHEAD, RETIRE_DISTANCE};
use crate::display::{Color, DrawCommand};
use crate::obstacle::Obstacle;
use crate::player::Player;
use vstd::prelude::*;

verus! {

/// The test that an obstacle passes while it is not yet far enough behind a
/// runner in world column `player_x` to be retired.
pub open spec fn ahead_of(player_x: i32) -> spec_fn(Obstacle) -> bool {
    |obstacle: Obstacle| !obstacle.passed(player_x)
}

/// Whether every obstacle can move and be drawn within the machine's integers.
pub open spec fn can_scroll(obstacles: Seq<Obstacle>, player_x: i32) -> bool {
    forall|i: int| 0 <= i < obstacles.len() ==> (#[trigger] obstacles[i]).can_render(player_x)
}

/// The field one tick later: every obstacle has moved.
pub open spec fn scrolled(obstacles: Seq<Obstacle>) -> Seq<Obstacle> {
    obstacles.map_values(|obstacle: Obstacle| obstacle.moved())
}

/// The cells that show the field to a runner in world column `player_x`, in
/// the order of the field.
pub open spec fn cells(obstacles: Seq<Obstacle>, player_x: i32, sky: Color) -> Seq<DrawCommand> {
    obstacles.map_values(|obstacle: Obstacle| obstacle.cell(player_x, sky))
}

/// Whether any obstacle of the field hits the runner.
pub open spec fn any_hit(obstacles: Seq<Obstacle>, player: Player) -> bool {
    exists|i: int| 0 <= i < obstacles.len() && (#[trigger] obstacles[i]).hits(player)
}

/// The obstacles that stay on the field, in their old order.
pub open spec fn survivors(obstacles: Seq<Obstacle>, player_x: i32) -> Seq<Obstacle> {
    obstacles.filter(ahead_of(player_x))
}

/// Whether the newest obstacle is so close to the runner that the field
/// needs another one.
pub open spec fn runs_short(obstacles: Seq<Obstacle>, player_x: i32) -> bool {
    obstacles.last().x - player_x < LOOKAHEAD
}

/// A field with one more obstacle, one tick later, is the field one tick
/// later with that obstacle, moved, behind it.
pub proof fn lemma_scrolled_push(obstacles: Seq<Obstacle>, newest: Obstacle)
    ensures
        scrolled(obstacles.push(newest)) == scrolled(obstacles).push(newest.moved()),
{
    assert(scrolled(obstacles.push(newest)) =~= scrolled(obstacles).push(newest.moved()));
}

/// The survivors of a field with one more obstacle are the survivors of the
/// field, followed by that obstacle if it is not yet behind the runner.
pub proof fn lemma_survivors_push(obstacles: Seq<Obstacle>, newest: Obstacle, player_x: i32)
    ensures
        survivors(obstacles.push(newest), player_x) == if newest.passed(player_x) {
            survivors(obstacles, player_x)
        } else {
            survivors(obstacles, player_x).push(newest)
        },
{
    obstacles.lemma_filter_push(newest, ahead_of(player_x));
}

/// A field with one more obstacle hits the runner exactly when the field
/// does or the new obstacle does.
proof fn lemma_any_hit_push(obstacles: Seq<Obstacle>, newest: Obstacle, player: Player)
    ensures
        any_hit(obstacles.push(newest), player) == (any_hit(obstacles, player) || newest.hits(
            player,
        )),
{
    let longer = obstacles.push(newest);
    if any_hit(obstacles, player) {
        let k = choose|k: int| 0 <= k < obstacles.len() && (#[trigger] obstacles[k]).hits(player);
        assert(longer[k].hits(player));
    }
    if newest.hits(player) {
        assert(longer[obstacles.len() as int].hits(player));
    }
    if any_hit(longer, player) {
        let k = choose|k: int| 0 <= k < longer.len() && (#[trigger] longer[k]).hits(player);
        if k < obstacles.len() {
            assert(obstacles[k].hits(player));
        }
    }
}

/// Moves every obstacle by one tick, appends the command that draws each to
/// `commands`, in the order of the field, and says whether any of them now
/// hits the runner.
pub fn scroll(
    obstacles: &mut Vec<Obstacle>,
    player: &Player,
    sky: Color,
    commands: &mut Vec<DrawCommand>,
) -> (hit: bool)
    requires
        can_scroll(old(obstacles)@, player.x),
    ensures
        final(obstacles)@ == scrolled(old(obstacles)@),
        final(commands)@ == old(commands)@ + cells(final(obstacles)@, player.x, sky),
        hit == any_hit(final(obstacles)@, *player),
{
    let ghost before = obstacles@;
    let ghost drawn = commands@;
    let mut hit = false;
    let mut i: usize = 0;
    while i < obstacles.len()
        invariant
            i <= obstacles.len(),
            obstacles.len() == before.len(),
            can_scroll(before, player.x),
            forall|k: int| 0 <= k < i ==> obstacles@[k] == (#[trigger] before[k]).moved(),
            forall|k: int| i <= k < before.len() ==> obstacles@[k] == before[k],
            commands@.len() == drawn.len() + i,
            forall|k: int| 0 <= k < drawn.len() ==> commands@[k] == drawn[k],
            forall|k: int|
                0 <= k < i ==> commands@[drawn.len() + k] == (#[trigger] obstacles@[k]).cell(
                    player.x,
                    sky,
                ),
            hit == any_hit(obstacles@.take(i as int), *player),
        decreases obstacles.len() - i,
    {
        let ghost seen = obstacles@.take(i as int);
        assert(before[i as int].can_render(player.x));
        let mut obstacle = obstacles[i];
        let command = obstacle.render(player.x, sky);
        let struck = obstacle.hit_obstacle(player);
        obstacles.set(i, obstacle);
        commands.push(command);
        proof {
            assert(obstacles@.take(i + 1) == seen.push(obstacle));
            lemma_any_hit_push(seen, obstacle, *player);
        }
        if struck {
            hit = true;
        }
        i += 1;
    }
    assert(obstacles@.take(i as int) == obstacles@);
    assert(obstacles@ == scrolled(before));
    assert(commands@ == drawn + cells(obstacles@, player.x, sky));
    hit
}

/// Removes every obstacle that lies five columns or more behind a runner in
/// world column `player_x` and returns how many were removed. Those that stay
/// keep their order.
pub fn retire(obstacles: &mut Vec<Obstacle>, player_x: i32) -> (retired: usize)
    ensures
        final(obstacles)@ == survivors(old(obstacles)@, player_x),
        retired == old(obstacles)@.len() - final(obstacles)@.len(),
{
    let mut kept: Vec<Obstacle> = Vec::new();
    let mut retired: usize = 0;
    let mut i: usize = 0;
    assert(obstacles@.take(0) == Seq::<Obstacle>::empty());
    while i < obstacles.len()
        invariant
            i <= obstacles.len(),
            kept@ == survivors(obstacles@.take(i as int), player_x),
            retired + kept@.len() == i,
        decreases obstacles.len() - i,
    {
        let obstacle = obstacles[i];
        proof {
            assert(obstacles@.take(i + 1) == obstacles@.take(i as int).push(obstacle));
            lemma_survivors_push(obstacles@.take(i as int), obstacle, player_x);
        }
        if obstacle.x as i64 > player_x as i64 - RETIRE_DISTANCE as i64 {
            kept.push(obstacle);
        } else {
            retired += 1;
        }
        i += 1;
    }
    assert(obstacles@.take(i as int) == obstacles@);
    *obstacles = kept;
    retired
}

/// Whether the newest obstacle lies less than nine tenths of the visible
/// width ahead of a runner in world column `player_x`.
pub fn needs_obstacle(obstacles: &Vec<Obstacle>, player_x: i32) -> (short: bool)
    requires
        obstacles@.len() > 0,
    ensures
        short == runs_short(obstacles@, player_x),
{
    let newest = obstacles[obstacles.len() - 1];
    (newest.x as i64 - player_x as i64) < LOOKAHEAD as i64
}

} // verus!
