use arcade_game::combat::{
    aim_weapon, fire_projectile, Projectile, ProjectileBundle, WeaponChildTransform,
    ANGVEL_JITTER_LIMIT, PROJECTILE_SPAWN_OFFSET,
};
use arcade_game::movement::{CharacterController, InputState};
use arcade_game::player::{Player, WEAPON_MAX_ROT, WEAPON_MIN_ROT};
use arcade_game::vec2::Vec2I;

fn idle_input() -> InputState {
    InputState::released()
}

fn still_controller() -> CharacterController {
    CharacterController { translation: None }
}

#[test]
fn holding_down_never_exceeds_the_upper_clamp() {
    let mut player = Player::default();
    let mut child = WeaponChildTransform {
        rot_mdeg: 0,
        mirrored: false,
    };
    let kb = InputState {
        down: true,
        ..idle_input()
    };
    // 30 deg/s for 16 ms per tick: 250 ticks pass 60 degrees by far.
    for _ in 0..250 {
        aim_weapon(&kb, 16, &still_controller(), &mut player, &mut child);
        assert!(WEAPON_MIN_ROT <= child.rot_mdeg && child.rot_mdeg <= WEAPON_MAX_ROT);
    }
    assert_eq!(child.rot_mdeg, WEAPON_MAX_ROT);
    assert_eq!(player.projectile_angle, WEAPON_MAX_ROT);
}

#[test]
fn holding_up_never_exceeds_the_lower_clamp() {
    let mut player = Player::default();
    let mut child = WeaponChildTransform {
        rot_mdeg: 0,
        mirrored: false,
    };
    let kb = InputState {
        up: true,
        ..idle_input()
    };
    for _ in 0..250 {
        aim_weapon(&kb, 16, &still_controller(), &mut player, &mut child);
        assert!(WEAPON_MIN_ROT <= child.rot_mdeg && child.rot_mdeg <= WEAPON_MAX_ROT);
    }
    assert_eq!(child.rot_mdeg, WEAPON_MIN_ROT);
    assert_eq!(player.projectile_angle, WEAPON_MIN_ROT);
}

#[test]
fn one_aim_tick_moves_by_rotation_speed() {
    let mut player = Player::default();
    let mut child = WeaponChildTransform {
        rot_mdeg: 0,
        mirrored: false,
    };
    let kb = InputState {
        down: true,
        ..idle_input()
    };
    aim_weapon(&kb, 100, &still_controller(), &mut player, &mut child);
    // 30 mdeg per ms, held 100 ms.
    assert_eq!(child.rot_mdeg, 3_000);
    assert_eq!(player.projectile_angle, 3_000);
}

#[test]
fn down_wins_when_both_aim_keys_are_held() {
    let mut player = Player::default();
    let mut child = WeaponChildTransform {
        rot_mdeg: 0,
        mirrored: false,
    };
    let kb = InputState {
        up: true,
        down: true,
        ..idle_input()
    };
    aim_weapon(&kb, 10, &still_controller(), &mut player, &mut child);
    assert_eq!(child.rot_mdeg, 300);
}

#[test]
fn weapon_mirrors_on_horizontal_movement() {
    let mut player = Player::default();
    let mut child = WeaponChildTransform {
        rot_mdeg: 12_345,
        mirrored: false,
    };
    let moved_right = CharacterController {
        translation: Some(Vec2I { x: 560_000, y: 0 }),
    };
    aim_weapon(&idle_input(), 16, &moved_right, &mut player, &mut child);
    assert!(child.mirrored);
    // Mirroring preserves the signed rotation.
    assert_eq!(child.rot_mdeg, 12_345);

    let moved_left = CharacterController {
        translation: Some(Vec2I { x: -560_000, y: 0 }),
    };
    aim_weapon(&idle_input(), 16, &moved_left, &mut player, &mut child);
    assert!(!child.mirrored);

    // A vertical-only intent leaves the mirror state alone.
    let no_horizontal = CharacterController {
        translation: Some(Vec2I { x: 0, y: -99 }),
    };
    aim_weapon(&idle_input(), 16, &no_horizontal, &mut player, &mut child);
    assert!(!child.mirrored);
}

#[test]
fn firing_level_and_left_flies_at_speed_times_forward() {
    let mut kb = InputState {
        fire_just_pressed: true,
        ..idle_input()
    };
    let player = Player {
        projectile_angle: 0,
        forward: Vec2I { x: -1, y: 0 },
    };
    let spawned = fire_projectile(&mut kb, Vec2I { x: 0, y: 0 }, &player);
    let bundle = spawned.expect("a fire edge spawns a projectile");
    assert_eq!(bundle.world_angle_mdeg, 0);
    assert_eq!(bundle.speed, Projectile::DEFAULT_SPEED);
    let velocity = bundle
        .level_velocity()
        .expect("an unrotated launch has an axis velocity");
    assert_eq!(
        velocity,
        Vec2I {
            x: -Projectile::DEFAULT_SPEED,
            y: 0
        }
    );
    // Exactly speed * forward.
    assert_eq!(velocity.x, Projectile::DEFAULT_SPEED * player.forward.x);
    assert_eq!(velocity.y, Projectile::DEFAULT_SPEED * player.forward.y);
}

#[test]
fn fired_projectile_carries_spawn_data() {
    let mut kb = InputState {
        fire_just_pressed: true,
        ..idle_input()
    };
    let player = Player {
        projectile_angle: 45_000,
        forward: Vec2I { x: 1, y: 0 },
    };
    let bundle = fire_projectile(&mut kb, Vec2I { x: 100, y: 200 }, &player)
        .expect("a fire edge spawns a projectile");
    // Spawn offset along the facing direction.
    assert_eq!(bundle.position.x, 100 + PROJECTILE_SPAWN_OFFSET);
    assert_eq!(bundle.position.y, 200);
    assert_eq!(bundle.direction, Vec2I { x: 1, y: 0 });
    // Facing right negates the stored local angle.
    assert_eq!(bundle.world_angle_mdeg, -45_000);
    assert_eq!(bundle.projectile.fx_radius, 1);
    // A rotated launch has no axis-aligned velocity.
    assert!(bundle.level_velocity().is_none());
    // The visual spin jitter stays inside its open range.
    assert!(-ANGVEL_JITTER_LIMIT < bundle.angvel && bundle.angvel < ANGVEL_JITTER_LIMIT);
}

#[test]
fn firing_left_keeps_the_stored_angle_sign() {
    let mut kb = InputState {
        fire_just_pressed: true,
        ..idle_input()
    };
    let player = Player {
        projectile_angle: 45_000,
        forward: Vec2I { x: -1, y: 0 },
    };
    let bundle = fire_projectile(&mut kb, Vec2I { x: 0, y: 0 }, &player)
        .expect("a fire edge spawns a projectile");
    assert_eq!(bundle.world_angle_mdeg, 45_000);
    assert_eq!(bundle.position.x, -PROJECTILE_SPAWN_OFFSET);
}

#[test]
fn a_fire_edge_spawns_exactly_once() {
    let mut kb = InputState {
        fire_just_pressed: true,
        ..idle_input()
    };
    let player = Player::default();
    let first: Option<ProjectileBundle> = fire_projectile(&mut kb, Vec2I { x: 0, y: 0 }, &player);
    assert!(first.is_some());
    assert!(!kb.fire_just_pressed);
    // Handing the same snapshot in again spawns nothing: the edge was
    // consumed.
    let second = fire_projectile(&mut kb, Vec2I { x: 0, y: 0 }, &player);
    assert!(second.is_none());
}

#[test]
fn no_fire_edge_spawns_nothing() {
    let mut kb = idle_input();
    let player = Player::default();
    assert!(fire_projectile(&mut kb, Vec2I { x: 0, y: 0 }, &player).is_none());
}

#[test]
fn spin_jitter_varies_between_launches() {
    // The spin is random; over many launches at least two must differ.
    let player = Player::default();
    let mut seen = Vec::new();
    for _ in 0..32 {
        let mut kb = InputState {
            fire_just_pressed: true,
            ..idle_input()
        };
        let bundle = fire_projectile(&mut kb, Vec2I { x: 0, y: 0 }, &player).unwrap();
        assert!(-ANGVEL_JITTER_LIMIT < bundle.angvel && bundle.angvel < ANGVEL_JITTER_LIMIT);
        seen.push(bundle.angvel);
    }
    let first = seen[0];
    assert!(seen.iter().any(|v| *v != first));
}
