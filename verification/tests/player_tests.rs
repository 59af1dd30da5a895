use arcade_game::movement::{CharacterController, InputState, SpriteFacing};
use arcade_game::physics::Moveable;
use arcade_game::player::{handle_input, Player, PlayerBundle, DEFAULT_MOVE_SPEED};
use arcade_game::vec2::Vec2I;

fn idle_input() -> InputState {
    InputState::released()
}

#[test]
fn holding_left_moves_and_faces_left() {
    let kb = InputState {
        left: true,
        ..idle_input()
    };
    let moveable = Moveable::new(DEFAULT_MOVE_SPEED);
    let mut player = Player::default();
    let mut controller = CharacterController { translation: None };
    let mut sprite = SpriteFacing { flip_x: true };
    handle_input(&kb, 16, &moveable, &mut player, &mut controller, &mut sprite);
    assert_eq!(player.forward, Vec2I { x: -1, y: 0 });
    assert!(!sprite.flip_x);
    // 35 units/s for 16 ms: 0.56 units to the left.
    assert_eq!(
        controller.translation,
        Some(Vec2I { x: -560_000, y: 0 })
    );
}

#[test]
fn holding_right_accumulates_onto_pending_translation() {
    let kb = InputState {
        right: true,
        ..idle_input()
    };
    let moveable = Moveable::new(DEFAULT_MOVE_SPEED);
    let mut player = Player::default();
    let mut controller = CharacterController {
        translation: Some(Vec2I { x: 1_000, y: -2_000 }),
    };
    let mut sprite = SpriteFacing { flip_x: false };
    handle_input(&kb, 16, &moveable, &mut player, &mut controller, &mut sprite);
    assert_eq!(player.forward, Vec2I { x: 1, y: 0 });
    assert!(sprite.flip_x);
    assert_eq!(
        controller.translation,
        Some(Vec2I {
            x: 1_000 + 560_000,
            y: -2_000
        })
    );
}

#[test]
fn opposing_keys_cancel_and_change_nothing() {
    let kb = InputState {
        left: true,
        right: true,
        ..idle_input()
    };
    let moveable = Moveable::new(DEFAULT_MOVE_SPEED);
    let mut player = Player::default();
    let before_player = player;
    let mut controller = CharacterController {
        translation: Some(Vec2I { x: 42, y: 7 }),
    };
    let mut sprite = SpriteFacing { flip_x: true };
    handle_input(&kb, 16, &moveable, &mut player, &mut controller, &mut sprite);
    assert_eq!(player, before_player);
    assert_eq!(controller.translation, Some(Vec2I { x: 42, y: 7 }));
    assert!(sprite.flip_x);
}

#[test]
fn no_movement_keys_change_nothing() {
    let moveable = Moveable::new(DEFAULT_MOVE_SPEED);
    let mut player = Player {
        projectile_angle: 9_000,
        forward: Vec2I { x: 1, y: 0 },
    };
    let mut controller = CharacterController { translation: None };
    let mut sprite = SpriteFacing { flip_x: false };
    handle_input(
        &idle_input(),
        16,
        &moveable,
        &mut player,
        &mut controller,
        &mut sprite,
    );
    assert_eq!(player.projectile_angle, 9_000);
    assert_eq!(player.forward, Vec2I { x: 1, y: 0 });
    assert_eq!(controller.translation, None);
}

#[test]
fn movement_keeps_the_aim_angle() {
    let kb = InputState {
        left: true,
        ..idle_input()
    };
    let moveable = Moveable::new(DEFAULT_MOVE_SPEED);
    let mut player = Player {
        projectile_angle: -30_000,
        forward: Vec2I { x: 1, y: 0 },
    };
    let mut controller = CharacterController { translation: None };
    let mut sprite = SpriteFacing { flip_x: true };
    handle_input(&kb, 16, &moveable, &mut player, &mut controller, &mut sprite);
    assert_eq!(player.projectile_angle, -30_000);
}

#[test]
fn default_player_aims_level_facing_left() {
    let p = Player::default();
    assert_eq!(p.projectile_angle, 0);
    assert_eq!(p.forward, Vec2I { x: -1, y: 0 });
}

#[test]
fn default_player_bundle_is_the_named_player() {
    let b = PlayerBundle::default();
    assert_eq!(b.name.as_str(), "Player");
    assert_eq!(b.hp.0, 100);
    assert_eq!(b.dmg.0, 10);
    assert_eq!(b.character_bundle.moveable.speed, DEFAULT_MOVE_SPEED);
    assert_eq!(b.player.forward, Vec2I { x: -1, y: 0 });
}
