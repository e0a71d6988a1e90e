use first_ggez::entity::{
    Assets, Bullet, Direction, Enemy, Player, ENEMY_START_Y, PLAYER_START_X, PLAYER_START_Y,
};
use first_ggez::geometry::is_collision;
use first_ggez::state::{BulletState, EnemyState, Key, MainState};

const TICK: i64 = 16_667;

fn assets() -> Assets {
    Assets::new(50, 40, 10, 20, 40, 30)
}

fn session() -> MainState {
    MainState::new(assets(), 480, 800)
}

/// An enemy drawn here falls far from the craft's line of fire.
const FAR_ROLL: i64 = 450_000;

fn steps(s: &mut MainState, n: usize, dt: i64) {
    for _ in 0..n {
        s.step(dt, FAR_ROLL);
    }
}

#[test]
fn overlap_is_symmetric() {
    let cases = [
        (0, 0, 10, 10, 5, 5, 10, 10),
        (0, 0, 10, 10, 10, 0, 10, 10),
        (-5, -5, 3, 3, -4, -4, 1, 1),
        (100, 0, 5, 5, 0, 100, 5, 5),
    ];
    for (ax, ay, aw, ah, bx, by, bw, bh) in cases {
        assert_eq!(
            is_collision(ax, ay, aw, ah, bx, by, bw, bh),
            is_collision(bx, by, bw, bh, ax, ay, aw, ah)
        );
    }
}

#[test]
fn overlap_is_half_open() {
    assert!(is_collision(0, 0, 10, 10, 5, 5, 10, 10));
    assert!(!is_collision(0, 0, 10, 10, 10, 0, 10, 10));
    assert!(!is_collision(0, 0, 10, 10, 0, 10, 10, 10));
    assert!(is_collision(0, 0, 10, 10, 9, 9, 10, 10));
    assert!(is_collision(i64::MAX - 1, 0, 10, 10, i64::MAX - 2, 0, 10, 10));
}

#[test]
fn craft_stops_at_right_edge() {
    let mut p = Player::new();
    p.direction = Direction::Right;
    p.x = 429_000;
    p.player_handle_input(TICK, 50, 480);
    assert_eq!(p.x, 430_000);
    p.player_handle_input(TICK, 50, 480);
    assert_eq!(p.x, 430_000);
}

#[test]
fn craft_stops_at_left_edge() {
    let mut p = Player::new();
    p.direction = Direction::Left;
    p.x = 1_000;
    p.player_handle_input(TICK, 50, 480);
    assert_eq!(p.x, 0);
    p.player_handle_input(TICK, 50, 480);
    assert_eq!(p.x, 0);
}

#[test]
fn craft_moves_by_speed_times_time() {
    let mut p = Player::new();
    p.direction = Direction::Right;
    p.player_handle_input(TICK, 50, 480);
    assert_eq!(p.x, PLAYER_START_X + 3_333);
    p.direction = Direction::Idle;
    p.player_handle_input(TICK, 50, 480);
    assert_eq!(p.x, PLAYER_START_X + 3_333);
}

#[test]
fn bullet_leaves_middle_of_craft() {
    let b = Bullet::new(200_000, 700_000, 50);
    assert_eq!(b, Bullet { x: 225_000, y: 700_000, alive: true });
}

#[test]
fn bullet_flies_up() {
    let mut b = Bullet::new(0, 700_000, 50);
    b.handle(TICK);
    assert_eq!(b.y, 700_000 - 8_333);
    assert_eq!(b.x, 25_000);
}

#[test]
fn spawned_enemy_is_shifted_left() {
    let e = Enemy::spawn_at(10_000);
    assert_eq!(e, Enemy { x: -40_000, y: ENEMY_START_Y, alive: true });
}

#[test]
fn random_enemy_stays_in_spawn_range() {
    for _ in 0..200 {
        let e = Enemy::new(480);
        assert!(e.x >= -40_000 && e.x < 430_000);
        assert_eq!(e.y, -10_000);
        assert!(e.alive);
    }
}

#[test]
fn fresh_session() {
    let s = session();
    assert_eq!(s.player, Player::new());
    assert_eq!(s.bullet_state, BulletState::new());
    assert_eq!(s.enemy_state, EnemyState::new());
    assert!(s.bullets.is_empty());
    assert!(s.enemies.is_empty());
    assert_eq!(s.score, 0);
    assert!(!s.restart);
    assert!(!s.show_restart_prompt());
}

#[test]
fn enemy_spawns_when_interval_runs_out() {
    let mut s = session();
    steps(&mut s, 23, TICK);
    assert!(s.enemies.is_empty());
    s.step(TICK, FAR_ROLL);
    assert_eq!(s.enemies.len(), 1);
    assert_eq!(s.enemies[0].x, FAR_ROLL - 50_000);
    assert_eq!(s.enemy_state.create_timer, 400_000);
}

#[test]
fn firing_is_rate_limited() {
    let mut s = session();
    s.key_down_event(Key::Space);
    assert_eq!(s.bullets.len(), 1);
    assert!(!s.bullet_state.can_shoot);
    steps(&mut s, 11, TICK);
    s.key_down_event(Key::Space);
    assert_eq!(s.bullets.len(), 1);
    s.step(TICK, FAR_ROLL);
    assert!(s.bullet_state.can_shoot);
    s.fire();
    assert_eq!(s.bullets.len(), 2);
}

#[test]
fn dead_craft_does_not_fire() {
    let mut s = session();
    s.player.alive = false;
    s.fire();
    assert!(s.bullets.is_empty());
    assert!(s.show_restart_prompt());
}

#[test]
fn escaped_bullet_is_pruned() {
    let mut s = session();
    s.bullets.push(Bullet { x: 0, y: 5_000, alive: true });
    s.step(TICK, FAR_ROLL);
    assert!(s.bullets.is_empty());
}

#[test]
fn coinciding_bullet_and_enemy_score_once() {
    let mut s = MainState::new(Assets::new(50, 40, 30, 30, 30, 30), 480, 800);
    s.score = 7;
    s.bullets.push(Bullet { x: 100_000, y: 300_000, alive: true });
    s.enemies.push(Enemy { x: 100_000, y: 300_000, alive: true });
    s.step(0, FAR_ROLL);
    assert_eq!(s.score, 8);
    assert!(s.bullets.is_empty());
    assert!(s.enemies.is_empty());
}

#[test]
fn one_bullet_hits_only_one_enemy() {
    let mut s = session();
    s.bullets.push(Bullet { x: 100_000, y: 300_000, alive: true });
    s.enemies.push(Enemy { x: 95_000, y: 290_000, alive: true });
    s.enemies.push(Enemy { x: 96_000, y: 291_000, alive: true });
    s.step(0, FAR_ROLL);
    assert_eq!(s.score, 1);
    assert!(s.bullets.is_empty());
    assert_eq!(s.enemies, vec![Enemy { x: 96_000, y: 291_000, alive: true }]);
}

#[test]
fn enemy_crash_kills_craft() {
    let mut s = session();
    s.enemies.push(Enemy { x: PLAYER_START_X, y: PLAYER_START_Y, alive: true });
    s.step(0, FAR_ROLL);
    assert!(!s.player.alive);
    assert!(s.enemies.is_empty());
    assert_eq!(s.score, 0);
    assert!(s.show_restart_prompt());
}

#[test]
fn enemy_below_screen_is_pruned() {
    let mut s = session();
    s.enemies.push(Enemy { x: 0, y: 849_000, alive: true });
    s.step(TICK, FAR_ROLL);
    assert!(s.enemies.is_empty());
}

#[test]
fn negative_step_counts_as_zero() {
    let mut s = session();
    s.key_down_event(Key::Right);
    s.step(-5_000, FAR_ROLL);
    assert_eq!(s.player.x, PLAYER_START_X);
    assert_eq!(s.enemy_state.create_timer, 400_000);
}

#[test]
fn one_second_to_the_right() {
    let mut s = session();
    s.key_down_event(Key::Right);
    assert_eq!(s.player.direction, Direction::Right);
    steps(&mut s, 60, TICK);
    assert_eq!(s.player.x - PLAYER_START_X, 199_980);
    assert!(s.player.x <= 430_000);
    s.key_up_event();
    assert_eq!(s.player.direction, Direction::Idle);
}

#[test]
fn one_second_to_the_right_near_edge_is_clamped() {
    let mut s = session();
    s.player.x = 300_000;
    s.key_down_event(Key::D);
    steps(&mut s, 60, TICK);
    assert_eq!(s.player.x, 430_000);
}

#[test]
fn fired_bullet_leaves_at_top() {
    let mut s = session();
    s.key_down_event(Key::Space);
    assert_eq!(s.bullets[0], Bullet { x: 225_000, y: 700_000, alive: true });
    steps(&mut s, 84, TICK);
    assert_eq!(s.bullets.len(), 1);
    assert_eq!(s.bullets[0].y, 28);
    s.step(TICK, FAR_ROLL);
    assert_eq!(s.bullets.len(), 0);
}

#[test]
fn restart_after_death() {
    let mut s = session();
    s.key_down_event(Key::Space);
    steps(&mut s, 30, TICK);
    s.score = 3;
    s.player.x = 10_000;
    s.player.alive = false;
    assert!(!s.key_down_event(Key::R));
    assert!(s.restart);
    s.step(TICK, FAR_ROLL);
    assert!(s.player.alive);
    assert_eq!(s.player.x, PLAYER_START_X);
    assert_eq!(s.player.y, PLAYER_START_Y);
    assert_eq!(s.score, 0);
    assert!(s.bullets.is_empty());
    assert!(s.enemies.is_empty());
    assert!(!s.restart);
    assert_eq!(s.bullet_state.can_shoot_timer, 200_000);
    assert_eq!(s.enemy_state.create_timer, 400_000);
}

#[test]
fn restart_request_ignored_while_alive() {
    let mut s = session();
    s.score = 2;
    s.key_down_event(Key::R);
    s.step(TICK, FAR_ROLL);
    assert_eq!(s.score, 2);
    assert!(s.restart);
}

#[test]
fn escape_asks_to_quit() {
    let mut s = session();
    assert!(s.key_down_event(Key::Escape));
    assert!(!s.key_down_event(Key::Other));
    assert!(!s.key_down_event(Key::A));
    assert_eq!(s.player.direction, Direction::Left);
}

#[test]
fn random_updates_keep_enemies_in_range() {
    let mut s = session();
    for _ in 0..100 {
        s.update(TICK);
    }
    assert!(!s.enemies.is_empty());
    for e in &s.enemies {
        assert!(e.x >= -40_000 && e.x < 430_000);
        assert!(e.alive);
    }
}

#[test]
fn score_saturates() {
    let mut s = MainState::new(Assets::new(50, 40, 30, 30, 30, 30), 480, 800);
    s.score = u64::MAX;
    s.bullets.push(Bullet { x: 100_000, y: 300_000, alive: true });
    s.enemies.push(Enemy { x: 100_000, y: 300_000, alive: true });
    s.step(0, FAR_ROLL);
    assert_eq!(s.score, u64::MAX);
}
