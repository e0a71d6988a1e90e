//! Facts about whole steps and sequences of steps of a session.

use vstd::prelude::*;
use crate::entity::{Bullet, Direction, Enemy, PLAYER_START_X, PLAYER_START_Y};
use crate::state::{
    bump, crash, despawn_line, fire_view, first_crash_from, first_hit_from, key_view,
    kept_bullets, kept_enemies, move_all, prune, shoot_down_upto, shot_from,
    step_view, tick_timers, clamp_dt, GameView, Key,
};

verus! {

/// The session after one step for each duration in `dts`, the `i`-th step
/// drawing a spawned enemy at `rolls[i]`.
pub open spec fn run(g: GameView, dts: Seq<int>, rolls: Seq<int>) -> GameView
    decreases dts.len(),
{
    if dts.len() == 0 {
        g
    } else {
        run(step_view(g, dts[0], rolls[0]), dts.drop_first(), rolls.drop_first())
    }
}

/// Sum of the durations in `dts`.
pub open spec fn total(dts: Seq<int>) -> int
    decreases dts.len(),
{
    if dts.len() == 0 {
        0
    } else {
        dts[0] + total(dts.drop_first())
    }
}

proof fn lemma_total_nonneg(dts: Seq<int>)
    requires
        forall|i: int| 0 <= i < dts.len() ==> dts[i] >= 0,
    ensures
        total(dts) >= 0,
    decreases dts.len(),
{
    if dts.len() > 0 {
        assert forall|i: int| 0 <= i < dts.drop_first().len() implies dts.drop_first()[i] >= 0 by {
            assert(dts.drop_first()[i] == dts[i + 1]);
        }
        lemma_total_nonneg(dts.drop_first());
    }
}

/// Shooting enemies down touches only enemies, bullets and the score.
proof fn lemma_shoot_down_frame(g: GameView, n: int)
    ensures
        shoot_down_upto(g, n).player == g.player,
        shoot_down_upto(g, n).bullet_state == g.bullet_state,
        shoot_down_upto(g, n).enemy_state == g.enemy_state,
        shoot_down_upto(g, n).restart == g.restart,
        shoot_down_upto(g, n).assets == g.assets,
        shoot_down_upto(g, n).screen_width == g.screen_width,
        shoot_down_upto(g, n).screen_height == g.screen_height,
    decreases n,
{
    if n > 0 {
        lemma_shoot_down_frame(g, n - 1);
    }
}

/// A step while the gun is cooling down and the countdown outlasts `dt`
/// leaves the gun blocked and takes at most `dt` off the countdown.
proof fn lemma_step_keeps_cooldown(g: GameView, dt: int, x_roll: int)
    requires
        !g.bullet_state.can_shoot,
        0 <= dt <= g.bullet_state.can_shoot_timer <= g.bullet_state.can_shoot_timer_max,
    ensures
        !step_view(g, dt, x_roll).bullet_state.can_shoot,
        step_view(g, dt, x_roll).bullet_state.can_shoot_timer >= g.bullet_state.can_shoot_timer
            - dt,
        step_view(g, dt, x_roll).bullet_state.can_shoot_timer <= step_view(
            g,
            dt,
            x_roll,
        ).bullet_state.can_shoot_timer_max,
        step_view(g, dt, x_roll).bullet_state.can_shoot_timer_max
            == g.bullet_state.can_shoot_timer_max,
{
    let g1 = move_all(tick_timers(g, dt, x_roll), dt);
    lemma_shoot_down_frame(g1, g1.enemies.len() as int);
}

proof fn lemma_run_keeps_cooldown(g: GameView, dts: Seq<int>, rolls: Seq<int>)
    requires
        !g.bullet_state.can_shoot,
        forall|i: int| 0 <= i < dts.len() ==> dts[i] >= 0,
        total(dts) <= g.bullet_state.can_shoot_timer <= g.bullet_state.can_shoot_timer_max,
    ensures
        !run(g, dts, rolls).bullet_state.can_shoot,
    decreases dts.len(),
{
    if dts.len() > 0 {
        let rest = dts.drop_first();
        assert forall|i: int| 0 <= i < rest.len() implies rest[i] >= 0 by {
            assert(rest[i] == dts[i + 1]);
        }
        lemma_total_nonneg(rest);
        lemma_step_keeps_cooldown(g, dts[0], rolls[0]);
        lemma_run_keeps_cooldown(step_view(g, dts[0], rolls[0]), rest, rolls.drop_first());
    }
}

/// Firing is rate-limited: a fire request from a live craft with a free gun
/// adds exactly one bullet, and a second request after any run of steps
/// lasting less than the cooldown in all adds none.
pub proof fn lemma_fire_rate_limited(g: GameView, dts: Seq<int>, rolls: Seq<int>)
    requires
        g.wf(),
        g.player.alive,
        g.bullet_state.can_shoot,
        forall|i: int| 0 <= i < dts.len() ==> dts[i] >= 0,
        total(dts) < g.bullet_state.can_shoot_timer_max,
    ensures
        fire_view(g).bullets == g.bullets.push(shot_from(g.assets, g.player)),
        fire_view(run(fire_view(g), dts, rolls)) == run(fire_view(g), dts, rolls),
{
    lemma_run_keeps_cooldown(fire_view(g), dts, rolls);
}

proof fn lemma_kept_bullets(s: Seq<Bullet>)
    ensures
        forall|k: int|
            0 <= k < kept_bullets(s).len() ==> (#[trigger] kept_bullets(s)[k]).alive
                && kept_bullets(s)[k].y >= 0,
    decreases s.len(),
{
    if s.len() > 0 {
        let rest = kept_bullets(s.drop_last());
        lemma_kept_bullets(s.drop_last());
        assert forall|k: int| 0 <= k < kept_bullets(s).len() implies (#[trigger] kept_bullets(
            s,
        )[k]).alive && kept_bullets(s)[k].y >= 0 by {
            if k < rest.len() {
                assert(kept_bullets(s)[k] == rest[k]);
            }
        }
    }
}

/// No bullet that is dead or above the top edge once the step has moved
/// it is left in the session after the step.
pub proof fn lemma_step_drops_escaped_bullets(g: GameView, dt: int, x_roll: int)
    ensures
        forall|i: int|
            0 <= i < step_view(g, dt, x_roll).bullets.len() ==> (#[trigger] step_view(
                g,
                dt,
                x_roll,
            ).bullets[i]).alive && step_view(g, dt, x_roll).bullets[i].y >= 0,
{
    let d = clamp_dt(dt);
    let g1 = move_all(tick_timers(g, d, x_roll), d);
    let g2 = crash(shoot_down_upto(g1, g1.enemies.len() as int));
    lemma_kept_bullets(g2.bullets);
}

/// A live bullet and a live enemy whose boxes coincide make one hit: the
/// score goes up by one, the craft is not touched by that enemy any more, and
/// pruning removes both.
pub proof fn lemma_coinciding_hit(g: GameView, e: Enemy, b: Bullet)
    requires
        g.enemies == seq![e],
        g.bullets == seq![b],
        e.alive,
        b.alive,
        e.x == b.x,
        e.y == b.y,
        g.assets.enemy_width == g.assets.bullet_width > 0,
        g.assets.enemy_height == g.assets.bullet_height > 0,
    ensures
        crash(shoot_down_upto(g, 1)).score == bump(g.score),
        g.score < u64::MAX ==> crash(shoot_down_upto(g, 1)).score == g.score + 1,
        crash(shoot_down_upto(g, 1)).player == g.player,
        prune(crash(shoot_down_upto(g, 1))).bullets.len() == 0,
        prune(crash(shoot_down_upto(g, 1))).enemies.len() == 0,
{
    let g1 = shoot_down_upto(g, 1);
    assert(shoot_down_upto(g, 0) == g);
    assert(first_hit_from(g.assets, e, g.bullets, 0) == Some(0int));
    assert(!g1.enemies[0].alive);
    assert(!g1.bullets[0].alive);
    assert(first_crash_from(g1.assets, g1.player, g1.enemies, 1) == None::<int>);
    assert(first_crash_from(g1.assets, g1.player, g1.enemies, 0) == None::<int>);
    let g2 = crash(g1);
    assert(g2.bullets.drop_last().len() == 0);
    assert(kept_bullets(g2.bullets.drop_last()).len() == 0);
    assert(g2.enemies.drop_last().len() == 0);
    assert(kept_enemies(g2.enemies.drop_last(), despawn_line(g2.screen_height as int)).len() == 0);
}

/// After a restart request, the next step of a dead, idle craft brings the
/// session back to its start: the craft alive at its start position, no
/// bullets or enemies, a zero score and no request pending.
pub proof fn lemma_restart(g: GameView, dt: int, x_roll: int)
    requires
        g.wf(),
        !g.player.alive,
        g.player.direction == Direction::Idle,
    ensures
        step_view(key_view(g, Key::R), dt, x_roll).player.alive,
        step_view(key_view(g, Key::R), dt, x_roll).player.x == PLAYER_START_X,
        step_view(key_view(g, Key::R), dt, x_roll).player.y == PLAYER_START_Y,
        step_view(key_view(g, Key::R), dt, x_roll).score == 0,
        step_view(key_view(g, Key::R), dt, x_roll).bullets.len() == 0,
        step_view(key_view(g, Key::R), dt, x_roll).enemies.len() == 0,
        !step_view(key_view(g, Key::R), dt, x_roll).restart,
{
    let h = key_view(g, Key::R);
    let d = clamp_dt(dt);
    let g1 = move_all(tick_timers(h, d, x_roll), d);
    lemma_shoot_down_frame(g1, g1.enemies.len() as int);
}

} // verus!
