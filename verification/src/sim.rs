//! The tower-defense rules: one immobile tower, one enemy that seeks it,
//! a damage zone around the tower, and despawn on death.
//!
//! All quantities are fixed-point integers in milliunits. Each simulation
//! tick first moves the enemy toward the tower by a step length, then
//! applies one unit of damage if the enemy stands inside the attack
//! radius, removing it once its health is exhausted.

use crate::geom::{
    dist_sq, dist_sq_u64, in_bounds, isqrt, lemma_mul_div_le, lemma_square_le, sqrt_floor,
    COORD_LIMIT, Vec2,
};
use vstd::prelude::*;

verus! {

/// Where the tower stands, in milliunits.
pub const TOWER_START_X: i64 = 0;

pub const TOWER_START_Y: i64 = 0;

/// Rendered size of the tower disc, in milliunits.
pub const TOWER_DIAMETER: i64 = 50_000;

/// Diameter of the damage zone centred on the tower, in milliunits.
pub const TOWER_ATTACK_RANGE_DIAMETER: u64 = 300_000;

/// Radius of the damage zone: the enemy takes damage strictly inside it.
pub const ATTACK_RADIUS: u64 = TOWER_ATTACK_RANGE_DIAMETER / 2;

/// Where the enemy spawns, in milliunits.
pub const ENEMY_START_X: i64 = 180_000;

pub const ENEMY_START_Y: i64 = 160_000;

/// Rendered size of the enemy disc, in milliunits.
pub const ENEMY_DIAMETER: i64 = 40_000;

/// How far the enemy advances per second, in milliunits.
pub const ENEMY_SPEED: u64 = 40_000;

/// Health the enemy spawns with, in milliunits.
pub const START_HEALTH: i64 = 100_000;

/// Health lost in each tick spent inside the damage zone, in milliunits.
pub const DAMAGE_PER_TICK: i64 = 1_000;

/// Longest movement step a single tick may take, in milliunits.
pub const MAX_STEP: u64 = 1_000_000;

/// Largest attack radius the simulation works with, in milliunits.
pub const RADIUS_LIMIT: u64 = 1_000_000_000;

/// Seek targets must leave this margin inside the coordinate range, so
/// that an overshooting step cannot leave it.
pub const TARGET_LIMIT: i64 = COORD_LIMIT - 1_000_000;

/// The moving attacker: a position, its spawn velocity (carried along but
/// never steered by), and a health counter.
#[derive(Clone, Copy, Debug, PartialEq, Eq)]
pub struct Enemy {
    pub pos: Vec2,
    pub vel: Vec2,
    pub health: i64,
}

/// The whole simulation: the tower, the damage zone, and the enemy while
/// it is alive.
#[derive(Clone, Copy, Debug, PartialEq, Eq)]
pub struct GameState {
    pub tower_pos: Vec2,
    pub range_center: Vec2,
    pub range_radius: u64,
    pub enemy: Option<Enemy>,
}

/// A live enemy stands in range of the coordinates and has health left.
pub open spec fn enemy_wf(e: Enemy) -> bool {
    in_bounds(e.pos) && e.health >= 1
}

/// Well-formedness of a state: every position is in range, the tower
/// leaves the seek margin, and a live enemy is well formed.
pub open spec fn wf(s: GameState) -> bool {
    &&& -TARGET_LIMIT <= s.tower_pos.x <= TARGET_LIMIT
    &&& -TARGET_LIMIT <= s.tower_pos.y <= TARGET_LIMIT
    &&& in_bounds(s.range_center)
    &&& s.range_radius <= RADIUS_LIMIT
    &&& match s.enemy {
        Option::Some(e) => enemy_wf(e),
        Option::None => true,
    }
}

/// Signed change of one coordinate when moving `step` along the direction
/// whose component is `diff` and whose length is `dist`: the component of
/// the normalized direction, scaled by `step` and rounded toward zero.
pub open spec fn seek_delta(diff: int, step: int, dist: int) -> int {
    if diff >= 0 {
        (diff * step) / dist
    } else {
        -(((-diff) * step) / dist)
    }
}

/// New x coordinate after one seek step from `p` toward `t`.
pub open spec fn seek_x(p: Vec2, t: Vec2, step: int) -> int {
    let dist = sqrt_floor(dist_sq(p, t) as nat) as int;
    if dist == 0 {
        p.x as int
    } else {
        p.x + seek_delta(t.x - p.x, step, dist)
    }
}

/// New y coordinate after one seek step from `p` toward `t`.
pub open spec fn seek_y(p: Vec2, t: Vec2, step: int) -> int {
    let dist = sqrt_floor(dist_sq(p, t) as nat) as int;
    if dist == 0 {
        p.y as int
    } else {
        p.y + seek_delta(t.y - p.y, step, dist)
    }
}

/// New position after one seek step from `p` toward `t`.
pub open spec fn seek_pos(p: Vec2, t: Vec2, step: int) -> Vec2 {
    Vec2 { x: seek_x(p, t, step) as i64, y: seek_y(p, t, step) as i64 }
}

/// Advance `p` by `step` milliunits along the straight line toward `t`,
/// rounding each coordinate's change toward zero. A point already at the
/// target stays there. Stepping no farther than the distance to the
/// target never increases that distance.
pub fn move_toward(p: Vec2, t: Vec2, step: u64) -> (r: Vec2)
    requires
        in_bounds(p),
        -TARGET_LIMIT <= t.x <= TARGET_LIMIT,
        -TARGET_LIMIT <= t.y <= TARGET_LIMIT,
        step <= MAX_STEP,
    ensures
        r == seek_pos(p, t, step as int),
        in_bounds(r),
        step <= sqrt_floor(dist_sq(p, t) as nat) ==> dist_sq(r, t) <= dist_sq(p, t),
{
    let d2: u64 = dist_sq_u64(p, t);
    let dist: u64 = isqrt(d2);
    if dist == 0 {
        return p;
    }
    let dx_abs: u64 = if t.x >= p.x {
        (t.x - p.x) as u64
    } else {
        (p.x - t.x) as u64
    };
    let dy_abs: u64 = if t.y >= p.y {
        (t.y - p.y) as u64
    } else {
        (p.y - t.y) as u64
    };
    proof {
        assert(dx_abs * dx_abs == (p.x - t.x) * (p.x - t.x)) by (nonlinear_arith)
            requires
                dx_abs == t.x - p.x || dx_abs == p.x - t.x,
        ;
        assert(dy_abs * dy_abs == (p.y - t.y) * (p.y - t.y)) by (nonlinear_arith)
            requires
                dy_abs == t.y - p.y || dy_abs == p.y - t.y,
        ;
        vstd::arithmetic::mul::lemma_mul_nonnegative(dx_abs as int, dx_abs as int);
        vstd::arithmetic::mul::lemma_mul_nonnegative(dy_abs as int, dy_abs as int);
        assert(dx_abs <= dist && dy_abs <= dist) by (nonlinear_arith)
            requires
                dx_abs * dx_abs <= d2,
                dy_abs * dy_abs <= d2,
                d2 < (dist + 1) * (dist + 1),
        ;
        assert(dx_abs * step <= 2_000_000_000_000_000 && dy_abs * step <= 2_000_000_000_000_000)
            by (nonlinear_arith)
            requires
                dx_abs <= 2_000_000_000u64,
                dy_abs <= 2_000_000_000u64,
                step <= 1_000_000u64,
        ;
        lemma_mul_div_le(dx_abs as int, step as int, dist as int);
        lemma_mul_div_le(dy_abs as int, step as int, dist as int);
    }
    let delta_x: u64 = dx_abs * step / dist;
    let delta_y: u64 = dy_abs * step / dist;
    let rx: i64 = if t.x >= p.x {
        p.x + (delta_x as i64)
    } else {
        p.x - (delta_x as i64)
    };
    let ry: i64 = if t.y >= p.y {
        p.y + (delta_y as i64)
    } else {
        p.y - (delta_y as i64)
    };
    let r = Vec2 { x: rx, y: ry };
    proof {
        lemma_sign_cases(p.x as int, t.x as int, dx_abs as int, delta_x as int, rx as int);
        lemma_sign_cases(p.y as int, t.y as int, dy_abs as int, delta_y as int, ry as int);
        if step <= dist {
            vstd::arithmetic::mul::lemma_mul_is_commutative(dx_abs as int, step as int);
            vstd::arithmetic::mul::lemma_mul_is_commutative(dy_abs as int, step as int);
            lemma_mul_div_le(step as int, dx_abs as int, dist as int);
            lemma_mul_div_le(step as int, dy_abs as int, dist as int);
            assert((rx - t.x) * (rx - t.x) == (dx_abs - delta_x) * (dx_abs - delta_x))
                by (nonlinear_arith)
                requires
                    rx - t.x == dx_abs - delta_x || rx - t.x == -((dx_abs - delta_x) as int),
            ;
            assert((ry - t.y) * (ry - t.y) == (dy_abs - delta_y) * (dy_abs - delta_y))
                by (nonlinear_arith)
                requires
                    ry - t.y == dy_abs - delta_y || ry - t.y == -((dy_abs - delta_y) as int),
            ;
            lemma_square_le(dx_abs - delta_x, dx_abs as int);
            lemma_square_le(dy_abs - delta_y, dy_abs as int);
        }
    }
    r
}

/// In the seek step, the new coordinate relates to the old one and the
/// target as the signed delta says.
proof fn lemma_sign_cases(px: int, tx: int, dxa: int, dx: int, rx: int)
    requires
        0 <= dx,
        dxa == if tx >= px {
            tx - px
        } else {
            px - tx
        },
        rx == if tx >= px {
            px + dx
        } else {
            px - dx
        },
    ensures
        rx - tx == if tx >= px {
            -(dxa - dx)
        } else {
            dxa - dx
        },
{
}

/// The state after the movement tick: a live enemy advances one seek step
/// toward the tower; everything else stands still.
pub open spec fn moved_state(s: GameState, step: u64) -> GameState {
    match s.enemy {
        Option::Some(e) => GameState {
            enemy: Option::Some(Enemy { pos: seek_pos(e.pos, s.tower_pos, step as int), ..e }),
            ..s
        },
        Option::None => s,
    }
}

/// The enemy stands strictly inside the damage zone.
pub open spec fn in_range_spec(pos: Vec2, center: Vec2, radius: u64) -> bool {
    dist_sq(pos, center) < radius * radius
}

/// The state after the damage tick: a live enemy strictly inside the
/// damage zone loses `DAMAGE_PER_TICK` health, and is removed the moment
/// its health is no longer positive.
pub open spec fn collide_state(s: GameState) -> GameState {
    match s.enemy {
        Option::Some(e) => if in_range_spec(e.pos, s.range_center, s.range_radius) {
            if e.health - DAMAGE_PER_TICK <= 0 {
                GameState { enemy: Option::None, ..s }
            } else {
                GameState {
                    enemy: Option::Some(
                        Enemy { health: (e.health - DAMAGE_PER_TICK) as i64, ..e },
                    ),
                    ..s
                }
            }
        } else {
            s
        },
        Option::None => s,
    }
}

/// Decide whether a point lies strictly inside the damage zone. Comparing
/// squared distances is exact: no square root is taken.
pub fn in_attack_range(pos: Vec2, center: Vec2, radius: u64) -> (r: bool)
    requires
        in_bounds(pos),
        in_bounds(center),
        radius <= RADIUS_LIMIT,
    ensures
        r == in_range_spec(pos, center, radius),
{
    proof {
        assert(radius * radius <= 1_000_000_000_000_000_000) by (nonlinear_arith)
            requires
                radius <= 1_000_000_000u64,
        ;
    }
    let d2: u64 = dist_sq_u64(pos, center);
    d2 < radius * radius
}

/// The movement tick: the enemy, if alive, takes one seek step of length
/// `step` toward the tower.
pub fn move_enemy(s: &mut GameState, step: u64)
    requires
        wf(*old(s)),
        step <= MAX_STEP,
    ensures
        *final(s) == moved_state(*old(s), step),
        wf(*final(s)),
        match (old(s).enemy, final(s).enemy) {
            (Option::Some(e), Option::Some(m)) => step <= sqrt_floor(
                dist_sq(e.pos, old(s).tower_pos) as nat,
            ) ==> dist_sq(m.pos, old(s).tower_pos) <= dist_sq(e.pos, old(s).tower_pos),
            _ => true,
        },
{
    let tower = s.tower_pos;
    match s.enemy {
        Option::Some(e) => {
            let new_pos = move_toward(e.pos, tower, step);
            s.enemy = Option::Some(Enemy { pos: new_pos, ..e });
        },
        Option::None => {},
    }
}

/// The damage tick: a live enemy strictly inside the damage zone loses
/// `DAMAGE_PER_TICK` health and despawns once none is left.
pub fn check_for_collision(s: &mut GameState)
    requires
        wf(*old(s)),
    ensures
        *final(s) == collide_state(*old(s)),
        wf(*final(s)),
{
    match s.enemy {
        Option::Some(e) => {
            if in_attack_range(e.pos, s.range_center, s.range_radius) {
                let h = e.health - DAMAGE_PER_TICK;
                if h <= 0 {
                    s.enemy = Option::None;
                } else {
                    s.enemy = Option::Some(Enemy { health: h, ..e });
                }
            }
        },
        Option::None => {},
    }
}

/// The movement tick steers the enemy's position alone: its health and
/// velocity, and the tower and its zone, stand still.
pub proof fn lemma_move_changes_position_only(s: GameState, step: u64)
    ensures
        moved_state(s, step).tower_pos == s.tower_pos,
        moved_state(s, step).range_center == s.range_center,
        moved_state(s, step).range_radius == s.range_radius,
        match (s.enemy, moved_state(s, step).enemy) {
            (Option::Some(e), Option::Some(m)) => m.health == e.health && m.vel == e.vel,
            (Option::None, Option::None) => true,
            _ => false,
        },
{
}

/// Damage only ever lowers health, never moves anything, and removes the
/// enemy exactly when it stands in the zone with its last milliunits of
/// health.
pub proof fn lemma_damage_lowers_health(s: GameState)
    ensures
        collide_state(s).tower_pos == s.tower_pos,
        collide_state(s).range_center == s.range_center,
        collide_state(s).range_radius == s.range_radius,
        match (s.enemy, collide_state(s).enemy) {
            (Option::Some(e), Option::Some(c)) => {
                &&& c.health <= e.health
                &&& c.pos == e.pos
                &&& c.vel == e.vel
            },
            (Option::Some(e), Option::None) => in_range_spec(e.pos, s.range_center, s.range_radius)
                && e.health <= DAMAGE_PER_TICK,
            (Option::None, Option::None) => true,
            _ => false,
        },
{
}

/// A state without an enemy is a fixed point of the tick.
pub proof fn lemma_dead_state_is_fixed(s: GameState, step: u64)
    requires
        s.enemy is None,
    ensures
        collide_state(moved_state(s, step)) == s,
{
}

/// One full simulation tick, in the order the schedule chains the two
/// systems: movement first, then the damage check.
pub fn fixed_update(s: &mut GameState, step: u64)
    requires
        wf(*old(s)),
        step <= MAX_STEP,
    ensures
        *final(s) == collide_state(moved_state(*old(s), step)),
        wf(*final(s)),
        match (old(s).enemy, final(s).enemy) {
            (Option::Some(e), Option::Some(c)) => step <= sqrt_floor(
                dist_sq(e.pos, old(s).tower_pos) as nat,
            ) ==> dist_sq(c.pos, old(s).tower_pos) <= dist_sq(e.pos, old(s).tower_pos),
            _ => true,
        },
{
    move_enemy(s, step);
    check_for_collision(s);
}

/// The world as the demo spawns it: the tower and its damage zone at the
/// origin, and one enemy approaching from its fixed start.
pub fn initial_state() -> (s: GameState)
    ensures
        s.tower_pos == (Vec2 { x: TOWER_START_X, y: TOWER_START_Y }),
        s.range_center == s.tower_pos,
        s.range_radius == ATTACK_RADIUS,
        s.enemy == Option::Some(
            Enemy {
                pos: Vec2 { x: ENEMY_START_X, y: ENEMY_START_Y },
                vel: Vec2 { x: 0, y: 0 },
                health: START_HEALTH,
            },
        ),
        wf(s),
{
    GameState {
        tower_pos: Vec2 { x: TOWER_START_X, y: TOWER_START_Y },
        range_center: Vec2 { x: TOWER_START_X, y: TOWER_START_Y },
        range_radius: ATTACK_RADIUS,
        enemy: Option::Some(
            Enemy {
                pos: Vec2 { x: ENEMY_START_X, y: ENEMY_START_Y },
                vel: Vec2 { x: 0, y: 0 },
                health: START_HEALTH,
            },
        ),
    }
}

} // verus!
