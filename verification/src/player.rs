//! The player character: its aim/facing state and the per-tick handling of
//! held directional input into movement intents.

use vstd::prelude::*;

use crate::movement::{CharacterController, InputState, SpriteFacing};
use crate::physics::Moveable;
use crate::vec2::{Vec2I, COORD_LIMIT};

verus! {

/// Half extents of the player character's collider, in subunits: an
/// 8-by-8-unit box.
pub const CHARACTER_HALF_EXTENT: i64 = 8_000_000;

/// Default movement speed of the player, in subunits per second: 35 world
/// units per second.
pub const DEFAULT_MOVE_SPEED: i64 = 35_000_000;

/// Angular speed of weapon aiming, in millidegrees of rotation per
/// millisecond of held input: 30 degrees per second.
pub const WEAPON_ROT_PER_MS: i64 = 30;

/// Upper clamp of the weapon rotation, in millidegrees: +60 degrees.
pub const WEAPON_MAX_ROT: i64 = 60_000;

/// Lower clamp of the weapon rotation, in millidegrees: -60 degrees.
pub const WEAPON_MIN_ROT: i64 = -60_000;

/// Per-player combat state: the signed weapon angle in millidegrees, stored
/// in the player's local unmirrored frame, and the unit-signed horizontal
/// facing direction.
#[derive(Clone, Copy, Debug, PartialEq, Eq, Structural)]
pub struct Player {
    pub projectile_angle: i64,
    pub forward: Vec2I,
}

impl Player {
    /// A freshly spawned player: aiming level and facing left.
    pub fn default() -> (p: Player)
        ensures
            p.projectile_angle == 0,
            p.forward == (Vec2I { x: -1i64, y: 0 }),
    {
        Player { projectile_angle: 0, forward: Vec2I { x: -1, y: 0 } }
    }
}

/// Marker of the child transform that carries the rendered weapon.
#[derive(Clone, Copy, Debug, PartialEq, Eq, Structural)]
pub struct PlayerChild;

/// Everything the player entity spawns with: its character data, its combat
/// state, its display name, and its hit points and damage.
#[derive(Debug)]
pub struct PlayerBundle {
    pub character_bundle: crate::character::CharacterBundle,
    pub player: Player,
    pub name: String,
    pub hp: crate::combat::HitPoint,
    pub dmg: crate::combat::Damage,
}

impl PlayerBundle {
    /// A freshly spawned player: 100 hit points, 10 damage, named after the
    /// player identifier, moving at the default speed, aiming level and
    /// facing left.
    pub fn default() -> (b: PlayerBundle)
        ensures
            b.character_bundle.moveable.speed == DEFAULT_MOVE_SPEED,
            b.player.projectile_angle == 0,
            b.player.forward == (Vec2I { x: -1i64, y: 0 }),
            b.name@ == crate::physics::player_id(),
            b.hp == crate::combat::HitPoint(100),
            b.dmg == crate::combat::Damage(10),
    {
        let name: String = "Player".to_owned();
        PlayerBundle {
            character_bundle: crate::character::CharacterBundle::from_identifier(&name),
            player: Player::default(),
            name,
            hp: crate::combat::HitPoint(100),
            dmg: crate::combat::Damage(10),
        }
    }
}

/// The signed horizontal direction the held keys ask for: left and right
/// cancel, a single held key gives its sign.
pub open spec fn input_dir_x(kb: InputState) -> int {
    (if kb.left {
        -1int
    } else {
        0int
    }) + (if kb.right {
        1int
    } else {
        0int
    })
}

/// Horizontal displacement one tick of held input produces, in subunits.
pub open spec fn move_step(kb: InputState, speed: int, dt_ms: int) -> int {
    input_dir_x(kb) * ((speed * dt_ms) / 1000)
}

/// The translation intent already accumulated, or zero when none is.
pub open spec fn pending_translation(c: CharacterController) -> Vec2I {
    match c.translation {
        Some(t) => t,
        None => Vec2I { x: 0, y: 0 },
    }
}

/// Read the held left/right keys and turn them into this tick's movement:
/// when the requested direction is nonzero, the sprite faces it, the
/// player's forward direction becomes it, and `speed * dt` is accumulated
/// into the kinematic controller's translation intent. With no net
/// direction, nothing changes.
pub fn handle_input(
    kb: &InputState,
    dt_ms: i64,
    moveable: &Moveable,
    player: &mut Player,
    controller: &mut CharacterController,
    sprite: &mut SpriteFacing,
)
    requires
        0 <= moveable.speed <= COORD_LIMIT,
        1 <= dt_ms <= 1000,
        pending_translation(*old(controller)).in_range(),
    ensures
        input_dir_x(*kb) == 0 ==> {
            &&& *final(player) == *old(player)
            &&& *final(controller) == *old(controller)
            &&& *final(sprite) == *old(sprite)
        },
        input_dir_x(*kb) != 0 ==> {
            &&& final(sprite).flip_x == (input_dir_x(*kb) > 0)
            &&& final(player).forward.x == input_dir_x(*kb)
            &&& final(player).forward.y == 0
            &&& final(player).projectile_angle == old(player).projectile_angle
            &&& final(controller).translation == Some(
                Vec2I {
                    x: (pending_translation(*old(controller)).x + move_step(
                        *kb,
                        moveable.speed as int,
                        dt_ms as int,
                    )) as i64,
                    y: pending_translation(*old(controller)).y,
                },
            )
        },
{
    let mut dir_x: i64 = 0;
    if kb.left {
        dir_x = dir_x - 1;
    }
    if kb.right {
        dir_x = dir_x + 1;
    }
    if dir_x != 0 {
        sprite.flip_x = dir_x > 0;
        player.forward = Vec2I { x: dir_x, y: 0 };
        proof {
            assert(0 <= moveable.speed * dt_ms <= COORD_LIMIT * 1000) by (nonlinear_arith)
                requires
                    0 <= moveable.speed <= COORD_LIMIT,
                    1 <= dt_ms <= 1000,
            ;
        }
        let magnitude = (moveable.speed * dt_ms) / 1000;
        proof {
            assert(0 <= (moveable.speed * dt_ms) / 1000 <= COORD_LIMIT) by (nonlinear_arith)
                requires
                    0 <= moveable.speed * dt_ms <= COORD_LIMIT * 1000,
            ;
        }
        let step = if dir_x > 0 {
            magnitude
        } else {
            -magnitude
        };
        let prev = match controller.translation {
            Some(t) => t,
            None => Vec2I { x: 0, y: 0 },
        };
        proof {
            assert(step == input_dir_x(*kb) * ((moveable.speed * dt_ms) / 1000)) by {
                let q = (moveable.speed * dt_ms) / 1000int;
                if dir_x > 0 {
                    assert(input_dir_x(*kb) == 1);
                    assert(1int * q == q) by (nonlinear_arith);
                } else {
                    assert(input_dir_x(*kb) == -1);
                    assert((-1int) * q == -q) by (nonlinear_arith);
                }
            }
        }
        controller.translation = Some(Vec2I { x: prev.x + step, y: prev.y });
    }
}

} // verus!
