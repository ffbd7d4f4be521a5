use tower_defense::button::{button_visual, Interaction, Rgb};
use tower_defense::geom::{dist_sq_u64, distance, isqrt, Vec2};
use tower_defense::sim::{
    check_for_collision, fixed_update, in_attack_range, initial_state, move_enemy, move_toward,
    Enemy, GameState, ATTACK_RADIUS, DAMAGE_PER_TICK, ENEMY_START_X, ENEMY_START_Y, START_HEALTH,
};

fn state_with_enemy(pos: Vec2, health: i64) -> GameState {
    GameState {
        tower_pos: Vec2 { x: 0, y: 0 },
        range_center: Vec2 { x: 0, y: 0 },
        range_radius: ATTACK_RADIUS,
        enemy: Some(Enemy {
            pos,
            vel: Vec2 { x: 0, y: 0 },
            health,
        }),
    }
}

#[test]
fn isqrt_exact_values() {
    assert_eq!(isqrt(0), 0);
    assert_eq!(isqrt(1), 1);
    assert_eq!(isqrt(3), 1);
    assert_eq!(isqrt(4), 2);
    assert_eq!(isqrt(58_000_000_000), 240_831);
    assert_eq!(isqrt(u64::MAX), 4_294_967_295);
}

#[test]
fn distance_from_spawn_to_tower() {
    let spawn = Vec2 {
        x: ENEMY_START_X,
        y: ENEMY_START_Y,
    };
    let origin = Vec2 { x: 0, y: 0 };
    assert_eq!(dist_sq_u64(spawn, origin), 58_000_000_000);
    assert_eq!(distance(spawn, origin), 240_831);
    assert_eq!(distance(origin, spawn), 240_831);
}

#[test]
fn initial_state_matches_spawn() {
    let s = initial_state();
    assert_eq!(s.tower_pos, Vec2 { x: 0, y: 0 });
    assert_eq!(s.range_center, Vec2 { x: 0, y: 0 });
    assert_eq!(s.range_radius, 150_000);
    let e = s.enemy.expect("enemy spawns alive");
    assert_eq!(e.pos.x, 180_000);
    assert_eq!(e.pos.y, 160_000);
    assert_eq!(e.vel, Vec2 { x: 0, y: 0 });
    assert_eq!(e.health, START_HEALTH);
    assert_eq!(e.health, 100_000);
}

#[test]
fn first_seek_step_is_exact() {
    let spawn = Vec2 {
        x: 180_000,
        y: 160_000,
    };
    let origin = Vec2 { x: 0, y: 0 };
    let moved = move_toward(spawn, origin, 1_000);
    assert_eq!(
        moved,
        Vec2 {
            x: 179_253,
            y: 159_336
        }
    );
}

#[test]
fn seek_step_from_target_stays_put() {
    let here = Vec2 { x: 5, y: -7 };
    assert_eq!(move_toward(here, here, 1_000), here);
}

#[test]
fn seek_step_overshoots_a_near_target() {
    // One milliunit away, step one thousand: the step is not clamped at
    // the target, so the enemy overshoots past it, by less than the step.
    let near = Vec2 { x: 1, y: 0 };
    let origin = Vec2 { x: 0, y: 0 };
    let moved = move_toward(near, origin, 1_000);
    assert_eq!(moved, Vec2 { x: -999, y: 0 });
}

#[test]
fn range_test_is_strict() {
    let origin = Vec2 { x: 0, y: 0 };
    let on_rim = Vec2 { x: 150_000, y: 0 };
    let inside = Vec2 { x: 149_999, y: 0 };
    let outside = Vec2 { x: 150_001, y: 0 };
    assert!(!in_attack_range(on_rim, origin, 150_000));
    assert!(in_attack_range(inside, origin, 150_000));
    assert!(!in_attack_range(outside, origin, 150_000));
}

#[test]
fn damage_applied_inside_range() {
    let mut s = state_with_enemy(Vec2 { x: 10_000, y: 0 }, 5_000);
    check_for_collision(&mut s);
    let e = s.enemy.expect("enemy survives this tick");
    assert_eq!(e.health, 4_000);
    assert_eq!(e.pos, Vec2 { x: 10_000, y: 0 });
}

#[test]
fn no_damage_outside_range() {
    let mut s = state_with_enemy(
        Vec2 {
            x: 180_000,
            y: 160_000,
        },
        5_000,
    );
    let before = s;
    check_for_collision(&mut s);
    assert_eq!(s, before);
}

#[test]
fn despawn_when_health_runs_out() {
    let mut s = state_with_enemy(Vec2 { x: 10_000, y: 0 }, DAMAGE_PER_TICK);
    check_for_collision(&mut s);
    assert_eq!(s.enemy, None);

    let mut s2 = state_with_enemy(Vec2 { x: 10_000, y: 0 }, DAMAGE_PER_TICK + 1);
    check_for_collision(&mut s2);
    assert_eq!(s2.enemy.expect("one milliunit left").health, 1);
}

#[test]
fn dead_state_stays_dead() {
    let mut s = state_with_enemy(Vec2 { x: 10_000, y: 0 }, 1_000);
    check_for_collision(&mut s);
    assert_eq!(s.enemy, None);
    let after_death = s;
    fixed_update(&mut s, 1_000);
    assert_eq!(s, after_death);
}

#[test]
fn fixed_update_chains_move_then_collision() {
    let mut chained = state_with_enemy(
        Vec2 {
            x: 150_500,
            y: 500,
        },
        3_000,
    );
    let mut stepped = chained;
    fixed_update(&mut chained, 1_000);
    move_enemy(&mut stepped, 1_000);
    check_for_collision(&mut stepped);
    assert_eq!(chained, stepped);
    // The move happens before the range check, so a just-outside enemy
    // that steps inside is damaged in the same tick.
    let e = chained.enemy.expect("enemy alive");
    assert_eq!(e.pos, Vec2 { x: 149_500, y: 497 });
    assert_eq!(e.health, 2_000);
}

#[test]
fn enemy_walks_in_and_dies() {
    let mut s = initial_state();
    let mut ticks: u32 = 0;
    let mut last_d2 = u64::MAX;
    while let Some(e) = s.enemy {
        // The seek step never takes the enemy farther from the tower.
        let d2 = dist_sq_u64(e.pos, s.tower_pos);
        assert!(d2 <= last_d2);
        last_d2 = d2;
        fixed_update(&mut s, 1_000);
        ticks += 1;
        assert!(ticks < 100_000, "enemy never despawned");
    }
    // 91 ticks to walk into range, then 100 damage ticks, the first of
    // which falls on the tick that enters the range.
    assert_eq!(ticks, 190);
    // The rest of the world never changes.
    assert_eq!(s.tower_pos, Vec2 { x: 0, y: 0 });
    assert_eq!(s.range_center, Vec2 { x: 0, y: 0 });
    assert_eq!(s.range_radius, 150_000);
}

#[test]
fn enemy_velocity_is_never_steered() {
    let mut s = initial_state();
    for _ in 0..10 {
        fixed_update(&mut s, 1_000);
        assert_eq!(s.enemy.expect("alive early on").vel, Vec2 { x: 0, y: 0 });
    }
}

#[test]
fn button_styling_per_state() {
    let pressed = button_visual(Interaction::Pressed);
    assert_eq!(pressed.label, "Press");
    assert_eq!(pressed.background, Rgb { r: 35, g: 75, b: 35 });
    assert_eq!(pressed.border, Rgb { r: 100, g: 0, b: 0 });

    let hovered = button_visual(Interaction::Hovered);
    assert_eq!(hovered.label, "Hover");
    assert_eq!(hovered.background, Rgb { r: 25, g: 25, b: 25 });
    assert_eq!(hovered.border, Rgb { r: 100, g: 100, b: 100 });

    let idle = button_visual(Interaction::Idle);
    assert_eq!(idle.label, "Button");
    assert_eq!(idle.background, Rgb { r: 15, g: 15, b: 15 });
    assert_eq!(idle.border, Rgb { r: 0, g: 0, b: 0 });
}
