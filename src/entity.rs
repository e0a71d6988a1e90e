//! The game's entities: the player's craft, its bullets and the enemies, and
//! the sprite sizes their collision boxes are made of.

use vstd::prelude::*;
use rand::Rng;

verus! {

/// Milli-pixels in one pixel.
pub const MILLI: i64 = 1000;

/// Largest screen or sprite side, in pixels.
pub const MAX_SCREEN: u32 = 1_000_000;

/// Longest single step, in microseconds.
pub const MAX_STEP: i64 = 1_000_000_000;

/// Fastest the player's craft may be, in pixels per second.
pub const MAX_SPEED: i64 = 100_000;

/// Bound on every coordinate of an entity, in milli-pixels.
pub const COORD_LIMIT: i64 = 1_000_000_000_000;

/// Where the player's craft starts, in milli-pixels.
pub const PLAYER_START_X: i64 = 200_000;

pub const PLAYER_START_Y: i64 = 700_000;

/// Speed of the player's craft, in pixels per second.
pub const PLAYER_SPEED: i64 = 200;

/// Upward speed of a bullet, in pixels per second.
pub const BULLET_SPEED: i64 = 500;

/// Downward speed of an enemy, in pixels per second.
pub const ENEMY_SPEED: i64 = 200;

/// Height at which an enemy appears, just above the top edge, in milli-pixels.
pub const ENEMY_START_Y: i64 = -10_000;

/// Lowest horizontal draw for a new enemy, in milli-pixels.
pub const SPAWN_MIN_X: i64 = 10_000;

/// Shift to the left applied to a drawn enemy position, in milli-pixels.
pub const SPAWN_SHIFT: i64 = 50_000;

/// Distance, in milli-pixels, covered in `dt` microseconds at `speed` pixels
/// per second.
pub open spec fn travel(speed: int, dt: int) -> int {
    speed * dt / 1000
}

pub fn travel_distance(speed: i64, dt: i64) -> (r: i64)
    requires
        0 <= speed <= MAX_SPEED,
        0 <= dt <= MAX_STEP,
    ensures
        r == travel(speed as int, dt as int),
        0 <= r <= MAX_SPEED * MAX_STEP / 1000,
{
    proof {
        assert(0 <= speed * dt <= MAX_SPEED * MAX_STEP) by (nonlinear_arith)
            requires
                0 <= speed <= MAX_SPEED,
                0 <= dt <= MAX_STEP,
        ;
    }
    speed * dt / MILLI
}

#[derive(Clone, Copy, Debug, PartialEq, Eq, Structural)]
pub enum Direction {
    Idle,
    Left,
    Right,
}

#[derive(Clone, Copy, Debug, PartialEq, Eq, Structural)]
pub struct Player {
    pub x: i64,
    pub y: i64,
    /// Pixels per second.
    pub speed: i64,
    pub direction: Direction,
    pub alive: bool,
}

/// Rightmost position of the player's craft, in milli-pixels.
pub open spec fn player_bound(screen_width: int, player_width: int) -> int {
    (screen_width - player_width) * 1000
}

/// Horizontal position after moving `dt` microseconds from `x`: a craft
/// already at or past an edge does not move further out, and one that would
/// pass an edge stops on it.
pub open spec fn moved_x(x: int, speed: int, direction: Direction, dt: int, bound: int) -> int {
    let d = travel(speed, dt);
    match direction {
        Direction::Left => if x > 0 {
            if x - d < 0 {
                0
            } else {
                x - d
            }
        } else {
            x
        },
        Direction::Right => if x < bound {
            if x + d > bound {
                bound
            } else {
                x + d
            }
        } else {
            x
        },
        Direction::Idle => x,
    }
}

impl Player {
    pub open spec fn in_range(self) -> bool {
        &&& -COORD_LIMIT <= self.x <= COORD_LIMIT
        &&& 0 <= self.speed <= MAX_SPEED
    }

    /// A fresh craft at the start position, idle and alive.
    pub fn new() -> (r: Player)
        ensures
            r == (Player {
                x: PLAYER_START_X,
                y: PLAYER_START_Y,
                speed: PLAYER_SPEED,
                direction: Direction::Idle,
                alive: true,
            }),
    {
        Player {
            x: PLAYER_START_X,
            y: PLAYER_START_Y,
            speed: PLAYER_SPEED,
            direction: Direction::Idle,
            alive: true,
        }
    }

    /// Moves the craft for `dt` microseconds in its direction, kept inside
    /// `[0, (screen_width - player_width)]` pixels.
    pub fn player_handle_input(&mut self, dt: i64, player_width: u32, screen_width: u32)
        requires
            old(self).in_range(),
            0 <= dt <= MAX_STEP,
            player_width <= screen_width <= MAX_SCREEN,
        ensures
            *final(self) == (Player {
                x: moved_x(
                    old(self).x as int,
                    old(self).speed as int,
                    old(self).direction,
                    dt as int,
                    player_bound(screen_width as int, player_width as int),
                ) as i64,
                ..*old(self)
            }),
            0 <= old(self).x <= player_bound(screen_width as int, player_width as int) ==> 0
                <= final(self).x <= player_bound(screen_width as int, player_width as int),
    {
        let d = travel_distance(self.speed, dt);
        let bound = (screen_width as i64 - player_width as i64) * MILLI;
        match self.direction {
            Direction::Left => {
                if self.x > 0 {
                    self.x = if self.x - d < 0 {
                        0
                    } else {
                        self.x - d
                    };
                }
            },
            Direction::Right => {
                if self.x < bound {
                    self.x = if self.x + d > bound {
                        bound
                    } else {
                        self.x + d
                    };
                }
            },
            Direction::Idle => {},
        }
    }
}

#[derive(Clone, Copy, Debug, PartialEq, Eq, Structural)]
pub struct Bullet {
    pub x: i64,
    pub y: i64,
    pub alive: bool,
}

impl Bullet {
    /// A bullet leaving the middle of the craft's top edge.
    pub fn new(player_x: i64, player_y: i64, player_width: u32) -> (r: Bullet)
        requires
            -COORD_LIMIT <= player_x <= COORD_LIMIT,
            player_width <= MAX_SCREEN,
        ensures
            r == (Bullet { x: (player_x + player_width * 500) as i64, y: player_y, alive: true }),
    {
        Bullet { x: player_x + player_width as i64 * (MILLI / 2), y: player_y, alive: true }
    }

    /// Moves the bullet up for `dt` microseconds.
    pub fn handle(&mut self, dt: i64)
        requires
            -COORD_LIMIT <= old(self).y,
            0 <= dt <= MAX_STEP,
        ensures
            *final(self) == (Bullet {
                y: (old(self).y - travel(BULLET_SPEED as int, dt as int)) as i64,
                ..*old(self)
            }),
    {
        let d = travel_distance(BULLET_SPEED, dt);
        self.y = self.y - d;
    }
}

#[derive(Clone, Copy, Debug, PartialEq, Eq, Structural)]
pub struct Enemy {
    pub x: i64,
    pub y: i64,
    pub alive: bool,
}

/// Relies on rand's `thread_rng` and `Rng::gen_range`: a value drawn from
/// `[lo, hi)`; `gen_range` panics when `lo >= hi`.
#[verifier::external_body]
pub(crate) fn random_in(lo: i64, hi: i64) -> (r: i64)
    requires
        lo < hi,
    ensures
        lo <= r < hi,
{
    rand::thread_rng().gen_range(lo, hi)
}

impl Enemy {
    /// The enemy that appears when the horizontal draw came out as `x_roll`.
    pub fn spawn_at(x_roll: i64) -> (r: Enemy)
        requires
            -COORD_LIMIT <= x_roll <= COORD_LIMIT,
        ensures
            r == (Enemy { x: (x_roll - SPAWN_SHIFT) as i64, y: ENEMY_START_Y, alive: true }),
    {
        Enemy { x: x_roll - SPAWN_SHIFT, y: ENEMY_START_Y, alive: true }
    }

    /// A new enemy above the top edge, at a random horizontal position drawn
    /// from `[10, screen_width)` pixels and shifted 50 pixels to the left.
    pub fn new(screen_width: u32) -> (r: Enemy)
        requires
            10 < screen_width <= MAX_SCREEN,
        ensures
            SPAWN_MIN_X - SPAWN_SHIFT <= r.x < screen_width * 1000 - SPAWN_SHIFT,
            r.y == ENEMY_START_Y,
            r.alive,
    {
        let x_roll = random_in(SPAWN_MIN_X, screen_width as i64 * MILLI);
        Enemy::spawn_at(x_roll)
    }
}

/// Sprite sizes, in pixels, of the three kinds of entity.
#[derive(Clone, Copy, Debug, PartialEq, Eq, Structural)]
pub struct Assets {
    pub player_width: u32,
    pub player_height: u32,
    pub bullet_width: u32,
    pub bullet_height: u32,
    pub enemy_width: u32,
    pub enemy_height: u32,
}

impl Assets {
    pub open spec fn in_range(self) -> bool {
        &&& self.player_width <= MAX_SCREEN
        &&& self.player_height <= MAX_SCREEN
        &&& self.bullet_width <= MAX_SCREEN
        &&& self.bullet_height <= MAX_SCREEN
        &&& self.enemy_width <= MAX_SCREEN
        &&& self.enemy_height <= MAX_SCREEN
    }

    pub fn new(
        player_width: u32,
        player_height: u32,
        bullet_width: u32,
        bullet_height: u32,
        enemy_width: u32,
        enemy_height: u32,
    ) -> (r: Assets)
        ensures
            r == (Assets {
                player_width,
                player_height,
                bullet_width,
                bullet_height,
                enemy_width,
                enemy_height,
            }),
    {
        Assets { player_width, player_height, bullet_width, bullet_height, enemy_width, enemy_height }
    }
}

} // verus!
