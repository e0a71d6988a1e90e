//! The simulation: the session state, one fixed step of it, and the
//! keyboard events that steer it.

use vstd::prelude::*;
use crate::entity::{
    random_in,
    player_bound, moved_x, travel, travel_distance, Assets, Bullet, Direction, Enemy, Player,
    BULLET_SPEED, COORD_LIMIT, ENEMY_SPEED, ENEMY_START_Y, MAX_SCREEN, MAX_SPEED, MAX_STEP, MILLI,
    PLAYER_SPEED, PLAYER_START_X, PLAYER_START_Y, SPAWN_MIN_X, SPAWN_SHIFT,
};
use crate::geometry::{is_collision, rects_overlap};

verus! {

/// Shortest time between two shots, in microseconds.
pub const SHOT_COOLDOWN: i64 = 200_000;

/// Time between two enemy spawns, in microseconds.
pub const SPAWN_INTERVAL: i64 = 400_000;

/// How far below the bottom edge an enemy travels before it is dropped, in
/// milli-pixels.
pub const DESPAWN_MARGIN: i64 = 50_000;

/// The shot cooldown: firing is allowed again once the countdown has run out.
#[derive(Clone, Copy, Debug, PartialEq, Eq, Structural)]
pub struct BulletState {
    pub can_shoot: bool,
    pub can_shoot_timer_max: i64,
    pub can_shoot_timer: i64,
}

impl BulletState {
    pub fn new() -> (r: BulletState)
        ensures
            r == (BulletState {
                can_shoot: true,
                can_shoot_timer_max: SHOT_COOLDOWN,
                can_shoot_timer: SHOT_COOLDOWN,
            }),
    {
        BulletState {
            can_shoot: true,
            can_shoot_timer_max: SHOT_COOLDOWN,
            can_shoot_timer: SHOT_COOLDOWN,
        }
    }
}

/// The spawn interval: an enemy appears each time the countdown runs out.
#[derive(Clone, Copy, Debug, PartialEq, Eq, Structural)]
pub struct EnemyState {
    pub create_timer: i64,
    pub create_timer_max: i64,
}

impl EnemyState {
    pub fn new() -> (r: EnemyState)
        ensures
            r == (EnemyState { create_timer: SPAWN_INTERVAL, create_timer_max: SPAWN_INTERVAL }),
    {
        EnemyState { create_timer: SPAWN_INTERVAL, create_timer_max: SPAWN_INTERVAL }
    }
}

/// A key the player can press.
#[derive(Clone, Copy, Debug, PartialEq, Eq, Structural)]
pub enum Key {
    Left,
    Right,
    A,
    D,
    Space,
    R,
    Escape,
    Other,
}

/// One game session. Screen sizes are in pixels.
pub struct MainState {
    pub assets: Assets,
    pub screen_width: u32,
    pub screen_height: u32,
    pub player: Player,
    pub bullet_state: BulletState,
    pub bullets: Vec<Bullet>,
    pub enemy_state: EnemyState,
    pub enemies: Vec<Enemy>,
    pub score: u64,
    pub restart: bool,
}

/// A session as a mathematical value.
#[verifier::ext_equal]
pub struct GameView {
    pub assets: Assets,
    pub screen_width: u32,
    pub screen_height: u32,
    pub player: Player,
    pub bullet_state: BulletState,
    pub bullets: Seq<Bullet>,
    pub enemy_state: EnemyState,
    pub enemies: Seq<Enemy>,
    pub score: u64,
    pub restart: bool,
}

impl View for MainState {
    type V = GameView;

    open spec fn view(&self) -> GameView {
        GameView {
            assets: self.assets,
            screen_width: self.screen_width,
            screen_height: self.screen_height,
            player: self.player,
            bullet_state: self.bullet_state,
            bullets: self.bullets@,
            enemy_state: self.enemy_state,
            enemies: self.enemies@,
            score: self.score,
            restart: self.restart,
        }
    }
}

/// Screen and sprite sizes a session can be played with: the screen leaves
/// room for the spawn range and for the craft at its start position.
pub open spec fn playfield_ok(assets: Assets, screen_width: u32, screen_height: u32) -> bool {
    &&& assets.in_range()
    &&& 10 < screen_width <= MAX_SCREEN
    &&& screen_height <= MAX_SCREEN
    &&& assets.player_width <= screen_width
    &&& PLAYER_START_X <= player_bound(screen_width as int, assets.player_width as int)
}

/// Depth, in milli-pixels, at which an enemy leaves the playfield.
pub open spec fn despawn_line(screen_height: int) -> int {
    screen_height * 1000 + DESPAWN_MARGIN
}

pub open spec fn coord_ok(v: i64) -> bool {
    -COORD_LIMIT <= v <= COORD_LIMIT
}

pub open spec fn bullet_bounded(b: Bullet) -> bool {
    coord_ok(b.x) && coord_ok(b.y)
}

pub open spec fn enemy_bounded(e: Enemy) -> bool {
    coord_ok(e.x) && coord_ok(e.y)
}

/// Score after one more enemy was shot down; it stops at the largest `u64`.
pub open spec fn bump(score: u64) -> u64 {
    if score < u64::MAX {
        (score + 1) as u64
    } else {
        score
    }
}

/// A countdown after `dt` more microseconds; one that has run out stays put.
pub open spec fn countdown(v: int, dt: int) -> int {
    if v < 0 {
        v
    } else {
        v - dt
    }
}

/// Negative step lengths count as zero.
pub open spec fn clamp_dt(dt: int) -> int {
    if dt < 0 {
        0
    } else {
        dt
    }
}

pub open spec fn spawned(x_roll: int) -> Enemy {
    Enemy { x: (x_roll - SPAWN_SHIFT) as i64, y: ENEMY_START_Y, alive: true }
}

/// The horizontal draws for a new enemy that a session can take.
pub open spec fn roll_ok(g: GameView, x_roll: int) -> bool {
    SPAWN_MIN_X <= x_roll < g.screen_width * 1000
}

impl GameView {
    /// Sizes, timers and the craft are in range, and every coordinate is
    /// bounded; this holds between the phases of a step too.
    pub open spec fn loose(self) -> bool {
        &&& playfield_ok(self.assets, self.screen_width, self.screen_height)
        &&& 0 <= self.player.x <= player_bound(
            self.screen_width as int,
            self.assets.player_width as int,
        )
        &&& 0 <= self.player.y <= COORD_LIMIT
        &&& 0 <= self.player.speed <= MAX_SPEED
        &&& 0 < self.bullet_state.can_shoot_timer_max <= MAX_STEP
        &&& -MAX_STEP <= self.bullet_state.can_shoot_timer <= self.bullet_state.can_shoot_timer_max
        &&& 0 < self.enemy_state.create_timer_max <= MAX_STEP
        &&& 0 <= self.enemy_state.create_timer <= self.enemy_state.create_timer_max
        &&& forall|i: int| 0 <= i < self.bullets.len() ==> bullet_bounded(#[trigger] self.bullets[i])
        &&& forall|i: int| 0 <= i < self.enemies.len() ==> enemy_bounded(#[trigger] self.enemies[i])
    }

    /// The state between two steps: besides `loose`, every bullet and enemy
    /// is alive and still on its way through the playfield.
    pub open spec fn wf(self) -> bool {
        &&& self.loose()
        &&& forall|i: int|
            0 <= i < self.bullets.len() ==> (#[trigger] self.bullets[i]).alive && 0
                <= self.bullets[i].y
        &&& forall|i: int|
            0 <= i < self.enemies.len() ==> (#[trigger] self.enemies[i]).alive
                && self.enemies[i].y < despawn_line(self.screen_height as int)
    }
}

/// A fresh session.
pub open spec fn initial_view(assets: Assets, screen_width: u32, screen_height: u32) -> GameView {
    GameView {
        assets,
        screen_width,
        screen_height,
        player: Player {
            x: PLAYER_START_X,
            y: PLAYER_START_Y,
            speed: PLAYER_SPEED,
            direction: Direction::Idle,
            alive: true,
        },
        bullet_state: BulletState {
            can_shoot: true,
            can_shoot_timer_max: SHOT_COOLDOWN,
            can_shoot_timer: SHOT_COOLDOWN,
        },
        bullets: Seq::empty(),
        enemy_state: EnemyState { create_timer: SPAWN_INTERVAL, create_timer_max: SPAWN_INTERVAL },
        enemies: Seq::empty(),
        score: 0,
        restart: false,
    }
}

/// First phase of a step: both countdowns run; the shot cooldown frees the
/// gun when it runs out, and the spawn countdown restarts and brings in an
/// enemy at `x_roll` when it runs out.
pub open spec fn tick_timers(g: GameView, dt: int, x_roll: int) -> GameView {
    let shot = countdown(g.bullet_state.can_shoot_timer as int, dt);
    let spawn = g.enemy_state.create_timer - dt;
    let bullet_state = BulletState {
        can_shoot: g.bullet_state.can_shoot || shot < 0,
        can_shoot_timer: shot as i64,
        ..g.bullet_state
    };
    if spawn < 0 {
        GameView {
            bullet_state,
            enemy_state: EnemyState {
                create_timer: g.enemy_state.create_timer_max,
                ..g.enemy_state
            },
            enemies: g.enemies.push(spawned(x_roll)),
            ..g
        }
    } else {
        GameView {
            bullet_state,
            enemy_state: EnemyState { create_timer: spawn as i64, ..g.enemy_state },
            ..g
        }
    }
}

pub open spec fn bullet_moved(b: Bullet, dt: int) -> Bullet {
    Bullet { y: (b.y - travel(BULLET_SPEED as int, dt)) as i64, ..b }
}

pub open spec fn enemy_moved(e: Enemy, dt: int) -> Enemy {
    Enemy { y: (e.y + travel(ENEMY_SPEED as int, dt)) as i64, ..e }
}

/// Second phase: bullets fly up and enemies fall for `dt` microseconds.
pub open spec fn move_all(g: GameView, dt: int) -> GameView {
    GameView {
        bullets: g.bullets.map_values(|b: Bullet| bullet_moved(b, dt)),
        enemies: g.enemies.map_values(|e: Enemy| enemy_moved(e, dt)),
        ..g
    }
}

/// A live bullet `b` touches enemy `e`.
pub open spec fn bullet_hits(a: Assets, e: Enemy, b: Bullet) -> bool {
    b.alive && rects_overlap(
        e.x as int,
        e.y as int,
        a.enemy_width * 1000,
        a.enemy_height * 1000,
        b.x as int,
        b.y as int,
        a.bullet_width * 1000,
        a.bullet_height * 1000,
    )
}

/// Index of the first bullet at or after `k` that hits `e`.
pub open spec fn first_hit_from(a: Assets, e: Enemy, bs: Seq<Bullet>, k: int) -> Option<int>
    decreases bs.len() - k,
{
    if 0 <= k < bs.len() {
        if bullet_hits(a, e, bs[k]) {
            Some(k)
        } else {
            first_hit_from(a, e, bs, k + 1)
        }
    } else {
        None
    }
}

/// Enemy `i`, if alive, is shot down by the first live bullet that hits it:
/// both die and the score goes up by one.
pub open spec fn shoot_down(g: GameView, i: int) -> GameView {
    let e = g.enemies[i];
    if e.alive {
        match first_hit_from(g.assets, e, g.bullets, 0) {
            Some(j) => GameView {
                enemies: g.enemies.update(i, Enemy { alive: false, ..e }),
                bullets: g.bullets.update(j, Bullet { alive: false, ..g.bullets[j] }),
                score: bump(g.score),
                ..g
            },
            None => g,
        }
    } else {
        g
    }
}

/// Third phase, over the first `n` enemies in order.
pub open spec fn shoot_down_upto(g: GameView, n: int) -> GameView
    decreases n,
{
    if n <= 0 {
        g
    } else {
        shoot_down(shoot_down_upto(g, n - 1), n - 1)
    }
}

/// A live enemy `e` touches the craft.
pub open spec fn enemy_crashes(a: Assets, p: Player, e: Enemy) -> bool {
    e.alive && rects_overlap(
        e.x as int,
        e.y as int,
        a.enemy_width * 1000,
        a.enemy_height * 1000,
        p.x as int,
        p.y as int,
        a.player_width * 1000,
        a.player_height * 1000,
    )
}

/// Index of the first enemy at or after `k` that crashes into the craft.
pub open spec fn first_crash_from(a: Assets, p: Player, es: Seq<Enemy>, k: int) -> Option<int>
    decreases es.len() - k,
{
    if 0 <= k < es.len() {
        if enemy_crashes(a, p, es[k]) {
            Some(k)
        } else {
            first_crash_from(a, p, es, k + 1)
        }
    } else {
        None
    }
}

/// Fourth phase: a live craft that the first live enemy crashes into dies,
/// and so does that enemy.
pub open spec fn crash(g: GameView) -> GameView {
    if g.player.alive {
        match first_crash_from(g.assets, g.player, g.enemies, 0) {
            Some(i) => GameView {
                enemies: g.enemies.update(i, Enemy { alive: false, ..g.enemies[i] }),
                player: Player { alive: false, ..g.player },
                ..g
            },
            None => g,
        }
    } else {
        g
    }
}

/// The bullets that are alive and not above the top edge, in order.
pub open spec fn kept_bullets(s: Seq<Bullet>) -> Seq<Bullet>
    decreases s.len(),
{
    if s.len() == 0 {
        s
    } else {
        let rest = kept_bullets(s.drop_last());
        if s.last().alive && s.last().y >= 0 {
            rest.push(s.last())
        } else {
            rest
        }
    }
}

/// The enemies that are alive and above depth `line`, in order.
pub open spec fn kept_enemies(s: Seq<Enemy>, line: int) -> Seq<Enemy>
    decreases s.len(),
{
    if s.len() == 0 {
        s
    } else {
        let rest = kept_enemies(s.drop_last(), line);
        if s.last().alive && s.last().y < line {
            rest.push(s.last())
        } else {
            rest
        }
    }
}

/// Fifth phase: dead entities and those that left the playfield go.
pub open spec fn prune(g: GameView) -> GameView {
    GameView {
        bullets: kept_bullets(g.bullets),
        enemies: kept_enemies(g.enemies, despawn_line(g.screen_height as int)),
        ..g
    }
}

/// Sixth phase: a dead craft with a restart pending starts over: no bullets
/// or enemies, both countdowns full, the craft alive at its start position,
/// the score at zero and the request consumed.
pub open spec fn apply_restart(g: GameView) -> GameView {
    if !g.player.alive && g.restart {
        GameView {
            player: Player { x: PLAYER_START_X, y: PLAYER_START_Y, alive: true, ..g.player },
            bullet_state: BulletState {
                can_shoot_timer: g.bullet_state.can_shoot_timer_max,
                ..g.bullet_state
            },
            bullets: Seq::empty(),
            enemy_state: EnemyState {
                create_timer: g.enemy_state.create_timer_max,
                ..g.enemy_state
            },
            enemies: Seq::empty(),
            score: 0,
            restart: false,
            ..g
        }
    } else {
        g
    }
}

/// Last phase: the craft moves in its direction, kept on the screen.
pub open spec fn move_player(g: GameView, dt: int) -> GameView {
    GameView {
        player: Player {
            x: moved_x(
                g.player.x as int,
                g.player.speed as int,
                g.player.direction,
                dt,
                player_bound(g.screen_width as int, g.assets.player_width as int),
            ) as i64,
            ..g.player
        },
        ..g
    }
}

/// One fixed step of `dt` microseconds, where a spawned enemy is drawn at
/// `x_roll`.
pub open spec fn step_view(g: GameView, dt: int, x_roll: int) -> GameView {
    let dt = clamp_dt(dt);
    let g1 = move_all(tick_timers(g, dt, x_roll), dt);
    let g2 = shoot_down_upto(g1, g1.enemies.len() as int);
    move_player(apply_restart(prune(crash(g2))), dt)
}

/// The bullet a craft at `p` fires.
pub open spec fn shot_from(a: Assets, p: Player) -> Bullet {
    Bullet { x: (p.x + a.player_width * 500) as i64, y: p.y, alive: true }
}

/// A fire request: a live craft whose gun is free fires one bullet, and the
/// cooldown starts over; otherwise nothing happens.
pub open spec fn fire_view(g: GameView) -> GameView {
    if g.player.alive && g.bullet_state.can_shoot {
        GameView {
            bullets: g.bullets.push(shot_from(g.assets, g.player)),
            bullet_state: BulletState {
                can_shoot: false,
                can_shoot_timer: g.bullet_state.can_shoot_timer_max,
                ..g.bullet_state
            },
            ..g
        }
    } else {
        g
    }
}

pub open spec fn steer(g: GameView, direction: Direction) -> GameView {
    GameView { player: Player { direction, ..g.player }, ..g }
}

/// A key press: arrows and A / D steer, space fires, R asks for a restart.
pub open spec fn key_view(g: GameView, key: Key) -> GameView {
    match key {
        Key::Left | Key::A => steer(g, Direction::Left),
        Key::Right | Key::D => steer(g, Direction::Right),
        Key::Space => fire_view(g),
        Key::R => GameView { restart: true, ..g },
        Key::Escape | Key::Other => g,
    }
}

pub open spec fn opt_index(r: Option<usize>) -> Option<int> {
    match r {
        Some(j) => Some(j as int),
        None => None,
    }
}

fn advance_bullets(bs: &mut Vec<Bullet>, dt: i64)
    requires
        0 <= dt <= MAX_STEP,
        forall|i: int|
            0 <= i < old(bs).len() ==> bullet_bounded(#[trigger] old(bs)[i]) && 0 <= old(bs)[i].y,
    ensures
        final(bs)@ == old(bs)@.map_values(|b: Bullet| bullet_moved(b, dt as int)),
        forall|i: int| 0 <= i < final(bs).len() ==> bullet_bounded(#[trigger] final(bs)[i]),
{
    let d = travel_distance(BULLET_SPEED, dt);
    let n = bs.len();
    let mut i: usize = 0;
    while i < n
        invariant
            n == bs.len() == old(bs).len(),
            i <= n,
            0 <= d <= MAX_SPEED * MAX_STEP / 1000,
            d == travel(BULLET_SPEED as int, dt as int),
            forall|k: int| 0 <= k < i ==> bs[k] == bullet_moved(#[trigger] old(bs)[k], dt as int),
            forall|k: int| i <= k < n ==> bs[k] == #[trigger] old(bs)[k],
            forall|k: int|
                0 <= k < n ==> bullet_bounded(#[trigger] old(bs)[k]) && 0 <= old(bs)[k].y,
        decreases n - i,
    {
        proof {
            assert(bs[i as int] == old(bs)[i as int]);
        }
        let mut b = bs[i];
        b.y = b.y - d;
        bs.set(i, b);
        i = i + 1;
    }
    assert(bs@ =~= old(bs)@.map_values(|b: Bullet| bullet_moved(b, dt as int)));
}

fn advance_enemies(es: &mut Vec<Enemy>, dt: i64)
    requires
        0 <= dt <= MAX_STEP,
        forall|i: int|
            0 <= i < old(es).len() ==> enemy_bounded(#[trigger] old(es)[i]) && old(es)[i].y
                <= COORD_LIMIT / 2,
    ensures
        final(es)@ == old(es)@.map_values(|e: Enemy| enemy_moved(e, dt as int)),
        forall|i: int| 0 <= i < final(es).len() ==> enemy_bounded(#[trigger] final(es)[i]),
{
    let d = travel_distance(ENEMY_SPEED, dt);
    let n = es.len();
    let mut i: usize = 0;
    while i < n
        invariant
            n == es.len() == old(es).len(),
            i <= n,
            0 <= d <= MAX_SPEED * MAX_STEP / 1000,
            d == travel(ENEMY_SPEED as int, dt as int),
            forall|k: int| 0 <= k < i ==> es[k] == enemy_moved(#[trigger] old(es)[k], dt as int),
            forall|k: int| i <= k < n ==> es[k] == #[trigger] old(es)[k],
            forall|k: int|
                0 <= k < n ==> enemy_bounded(#[trigger] old(es)[k]) && old(es)[k].y <= COORD_LIMIT
                    / 2,
        decreases n - i,
    {
        proof {
            assert(es[i as int] == old(es)[i as int]);
        }
        let mut e = es[i];
        e.y = e.y + d;
        es.set(i, e);
        i = i + 1;
    }
    assert(es@ =~= old(es)@.map_values(|e: Enemy| enemy_moved(e, dt as int)));
}

fn keep_bullets(bs: &Vec<Bullet>) -> (r: Vec<Bullet>)
    requires
        forall|i: int| 0 <= i < bs.len() ==> bullet_bounded(#[trigger] bs[i]),
    ensures
        r@ == kept_bullets(bs@),
        forall|i: int|
            0 <= i < r.len() ==> bullet_bounded(#[trigger] r[i]) && r[i].alive && 0 <= r[i].y,
{
    let mut r: Vec<Bullet> = Vec::new();
    let n = bs.len();
    let mut i: usize = 0;
    while i < n
        invariant
            n == bs.len(),
            i <= n,
            r@ == kept_bullets(bs@.subrange(0, i as int)),
            forall|k: int| 0 <= k < n ==> bullet_bounded(#[trigger] bs[k]),
            forall|k: int|
                0 <= k < r.len() ==> bullet_bounded(#[trigger] r[k]) && r[k].alive && 0 <= r[k].y,
        decreases n - i,
    {
        assert(bs@.subrange(0, i + 1).drop_last() =~= bs@.subrange(0, i as int));
        let b = bs[i];
        if b.alive && b.y >= 0 {
            r.push(b);
        }
        i = i + 1;
    }
    assert(bs@.subrange(0, n as int) =~= bs@);
    r
}

fn keep_enemies(es: &Vec<Enemy>, line: i64) -> (r: Vec<Enemy>)
    requires
        forall|i: int| 0 <= i < es.len() ==> enemy_bounded(#[trigger] es[i]),
    ensures
        r@ == kept_enemies(es@, line as int),
        forall|i: int|
            0 <= i < r.len() ==> enemy_bounded(#[trigger] r[i]) && r[i].alive && r[i].y < line,
{
    let mut r: Vec<Enemy> = Vec::new();
    let n = es.len();
    let mut i: usize = 0;
    while i < n
        invariant
            n == es.len(),
            i <= n,
            r@ == kept_enemies(es@.subrange(0, i as int), line as int),
            forall|k: int| 0 <= k < n ==> enemy_bounded(#[trigger] es[k]),
            forall|k: int|
                0 <= k < r.len() ==> enemy_bounded(#[trigger] r[k]) && r[k].alive && r[k].y < line,
        decreases n - i,
    {
        assert(es@.subrange(0, i + 1).drop_last() =~= es@.subrange(0, i as int));
        let e = es[i];
        if e.alive && e.y < line {
            r.push(e);
        }
        i = i + 1;
    }
    assert(es@.subrange(0, n as int) =~= es@);
    r
}

impl MainState {
    pub open spec fn wf(&self) -> bool {
        self@.wf()
    }

    /// A fresh session on a screen of the given size.
    pub fn new(assets: Assets, screen_width: u32, screen_height: u32) -> (r: MainState)
        requires
            playfield_ok(assets, screen_width, screen_height),
        ensures
            r@ == initial_view(assets, screen_width, screen_height),
            r.wf(),
    {
        let r = MainState {
            assets,
            screen_width,
            screen_height,
            player: Player::new(),
            bullet_state: BulletState::new(),
            bullets: Vec::new(),
            enemy_state: EnemyState::new(),
            enemies: Vec::new(),
            score: 0,
            restart: false,
        };
        assert(r@ =~= initial_view(assets, screen_width, screen_height));
        r
    }

    fn tick_timers(&mut self, dt: i64, x_roll: i64)
        requires
            old(self).wf(),
            0 <= dt <= MAX_STEP,
            roll_ok(old(self)@, x_roll as int),
        ensures
            final(self)@ == tick_timers(old(self)@, dt as int, x_roll as int),
            final(self).wf(),
    {
        if self.bullet_state.can_shoot_timer >= 0 {
            self.bullet_state.can_shoot_timer = self.bullet_state.can_shoot_timer - dt;
        }
        if self.bullet_state.can_shoot_timer < 0 {
            self.bullet_state.can_shoot = true;
        }
        self.enemy_state.create_timer = self.enemy_state.create_timer - dt;
        if self.enemy_state.create_timer < 0 {
            self.enemy_state.create_timer = self.enemy_state.create_timer_max;
            let enemy = Enemy::spawn_at(x_roll);
            self.enemies.push(enemy);
        }
        assert(self@ =~= tick_timers(old(self)@, dt as int, x_roll as int));
    }
    fn move_all(&mut self, dt: i64)
        requires
            old(self).wf(),
            0 <= dt <= MAX_STEP,
        ensures
            final(self)@ == move_all(old(self)@, dt as int),
            final(self)@.loose(),
    {
        advance_bullets(&mut self.bullets, dt);
        advance_enemies(&mut self.enemies, dt);
        assert(self@ =~= move_all(old(self)@, dt as int));
    }

    fn find_hit(&self, e: Enemy) -> (r: Option<usize>)
        requires
            self@.loose(),
            enemy_bounded(e),
        ensures
            opt_index(r) == first_hit_from(self.assets, e, self.bullets@, 0),
            r matches Some(j) ==> j < self.bullets.len(),
    {
        let a = self.assets;
        let n = self.bullets.len();
        let mut j: usize = 0;
        while j < n
            invariant
                n == self.bullets.len(),
                j <= n,
                a == self.assets,
                a.in_range(),
                first_hit_from(a, e, self.bullets@, 0) == first_hit_from(
                    a,
                    e,
                    self.bullets@,
                    j as int,
                ),
            decreases n - j,
        {
            let b = self.bullets[j];
            if b.alive && is_collision(
                e.x,
                e.y,
                a.enemy_width as i64 * MILLI,
                a.enemy_height as i64 * MILLI,
                b.x,
                b.y,
                a.bullet_width as i64 * MILLI,
                a.bullet_height as i64 * MILLI,
            ) {
                return Some(j);
            }
            j = j + 1;
        }
        None
    }

    fn shoot_down_all(&mut self)
        requires
            old(self)@.loose(),
        ensures
            final(self)@ == shoot_down_upto(old(self)@, old(self).enemies.len() as int),
            final(self)@.loose(),
    {
        let n = self.enemies.len();
        let m = self.bullets.len();
        let mut i: usize = 0;
        while i < n
            invariant
                n == self.enemies.len() == old(self).enemies.len(),
                m == self.bullets.len(),
                i <= n,
                self@ == shoot_down_upto(old(self)@, i as int),
                self@.loose(),
            decreases n - i,
        {
            let e = self.enemies[i];
            proof {
                assert(enemy_bounded(self@.enemies[i as int]));
            }
            if e.alive {
                match self.find_hit(e) {
                    Some(j) => {
                        let mut b = self.bullets[j];
                        b.alive = false;
                        self.bullets.set(j, b);
                        let mut dead = e;
                        dead.alive = false;
                        self.enemies.set(i, dead);
                        if self.score < u64::MAX {
                            self.score = self.score + 1;
                        }
                    },
                    None => {},
                }
            }
            proof {
                let prev = shoot_down_upto(old(self)@, i as int);
                assert(self@ =~= shoot_down(prev, i as int));
            }
            i = i + 1;
        }
    }

    fn find_crash(&self) -> (r: Option<usize>)
        requires
            self@.loose(),
        ensures
            opt_index(r) == first_crash_from(self.assets, self.player, self.enemies@, 0),
            r matches Some(j) ==> j < self.enemies.len(),
    {
        let a = self.assets;
        let p = self.player;
        let n = self.enemies.len();
        let mut i: usize = 0;
        while i < n
            invariant
                n == self.enemies.len(),
                i <= n,
                a == self.assets,
                p == self.player,
                a.in_range(),
                first_crash_from(a, p, self.enemies@, 0) == first_crash_from(
                    a,
                    p,
                    self.enemies@,
                    i as int,
                ),
            decreases n - i,
        {
            let e = self.enemies[i];
            if e.alive && is_collision(
                e.x,
                e.y,
                a.enemy_width as i64 * MILLI,
                a.enemy_height as i64 * MILLI,
                p.x,
                p.y,
                a.player_width as i64 * MILLI,
                a.player_height as i64 * MILLI,
            ) {
                return Some(i);
            }
            i = i + 1;
        }
        None
    }

    fn crash(&mut self)
        requires
            old(self)@.loose(),
        ensures
            final(self)@ == crash(old(self)@),
            final(self)@.loose(),
    {
        if self.player.alive {
            match self.find_crash() {
                Some(i) => {
                    let mut e = self.enemies[i];
                    e.alive = false;
                    self.enemies.set(i, e);
                    self.player.alive = false;
                },
                None => {},
            }
        }
        assert(self@ =~= crash(old(self)@));
    }

    fn prune(&mut self)
        requires
            old(self)@.loose(),
        ensures
            final(self)@ == prune(old(self)@),
            final(self).wf(),
    {
        let line = self.screen_height as i64 * MILLI + DESPAWN_MARGIN;
        self.bullets = keep_bullets(&self.bullets);
        self.enemies = keep_enemies(&self.enemies, line);
        assert(self@ =~= prune(old(self)@));
    }
    fn restart_if_requested(&mut self)
        requires
            old(self).wf(),
        ensures
            final(self)@ == apply_restart(old(self)@),
            final(self).wf(),
    {
        if !self.player.alive && self.restart {
            self.bullets.clear();
            self.enemies.clear();
            self.bullet_state.can_shoot_timer = self.bullet_state.can_shoot_timer_max;
            self.enemy_state.create_timer = self.enemy_state.create_timer_max;
            self.player.x = PLAYER_START_X;
            self.player.y = PLAYER_START_Y;
            self.player.alive = true;
            self.score = 0;
            self.restart = false;
        }
        assert(self@ =~= apply_restart(old(self)@));
    }

    /// Runs one fixed step of `dt` microseconds; a negative `dt` counts as
    /// zero. An enemy spawned in this step is drawn at `x_roll` milli-pixels
    /// before its leftward shift.
    pub fn step(&mut self, dt: i64, x_roll: i64)
        requires
            old(self).wf(),
            dt <= MAX_STEP,
            roll_ok(old(self)@, x_roll as int),
        ensures
            final(self)@ == step_view(old(self)@, dt as int, x_roll as int),
            final(self).wf(),
    {
        let dt = if dt < 0 {
            0
        } else {
            dt
        };
        self.tick_timers(dt, x_roll);
        self.move_all(dt);
        self.shoot_down_all();
        self.crash();
        self.prune();
        self.restart_if_requested();
        let player_width = self.assets.player_width;
        let screen_width = self.screen_width;
        self.player.player_handle_input(dt, player_width, screen_width);
        assert(self@ =~= step_view(old(self)@, dt as int, x_roll as int));
    }

    /// Runs one fixed step of `dt` microseconds, drawing the position of an
    /// enemy that may spawn at random.
    pub fn update(&mut self, dt: i64)
        requires
            old(self).wf(),
            dt <= MAX_STEP,
        ensures
            exists|x_roll: int|
                roll_ok(old(self)@, x_roll) && final(self)@ == step_view(
                    old(self)@,
                    dt as int,
                    x_roll,
                ),
            final(self).wf(),
    {
        let x_roll = random_in(SPAWN_MIN_X, self.screen_width as i64 * MILLI);
        self.step(dt, x_roll);
        assert(roll_ok(old(self)@, x_roll as int));
    }

    /// Fires a bullet if the craft is alive and its gun is free.
    pub fn fire(&mut self)
        requires
            old(self).wf(),
        ensures
            final(self)@ == fire_view(old(self)@),
            final(self).wf(),
    {
        if self.player.alive && self.bullet_state.can_shoot {
            let bullet = Bullet::new(self.player.x, self.player.y, self.assets.player_width);
            self.bullets.push(bullet);
            self.bullet_state.can_shoot = false;
            self.bullet_state.can_shoot_timer = self.bullet_state.can_shoot_timer_max;
        }
        assert(self@ =~= fire_view(old(self)@));
    }

    /// Handles a key press; the result tells whether the player asked to
    /// quit.
    pub fn key_down_event(&mut self, key: Key) -> (quit: bool)
        requires
            old(self).wf(),
        ensures
            final(self)@ == key_view(old(self)@, key),
            final(self).wf(),
            quit == (key == Key::Escape),
    {
        match key {
            Key::Left | Key::A => {
                self.player.direction = Direction::Left;
            },
            Key::Right | Key::D => {
                self.player.direction = Direction::Right;
            },
            Key::Space => {
                self.fire();
            },
            Key::R => {
                self.restart = true;
            },
            Key::Escape => {
                return true;
            },
            Key::Other => {},
        }
        assert(self@ =~= key_view(old(self)@, key));
        false
    }

    /// Handles the release of any key: the craft stops.
    pub fn key_up_event(&mut self)
        requires
            old(self).wf(),
        ensures
            final(self)@ == steer(old(self)@, Direction::Idle),
            final(self).wf(),
    {
        self.player.direction = Direction::Idle;
        assert(self@ =~= steer(old(self)@, Direction::Idle));
    }

    /// Whether the renderer should offer a restart: the craft is dead.
    pub fn show_restart_prompt(&self) -> (r: bool)
        ensures
            r == !self.player.alive,
    {
        !self.player.alive
    }
}

} // verus!
