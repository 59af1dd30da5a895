//! Movable game characters: the marker component and the bundle a
//! level-spawned character entity starts from.

use vstd::prelude::*;

use crate::movement::CharacterController;
use crate::physics::{player_id, DynamicColliderBundle, Moveable, Velocity};
use crate::player::DEFAULT_MOVE_SPEED;

verus! {

/// Marker of character entities.
#[derive(Clone, Copy, Debug, PartialEq, Eq, Structural)]
pub struct Character;

/// Everything a spawned character carries: its movement intent, the marker,
/// its collider, its kinematic controller and its velocity.
#[derive(Clone, Copy, Debug, PartialEq, Eq, Structural)]
pub struct CharacterBundle {
    pub moveable: Moveable,
    pub character: Character,
    pub collider_bundle: DynamicColliderBundle,
    pub controller: CharacterController,
    pub velocity: Velocity,
}

impl CharacterBundle {
    /// An inert character: no speed, no collider, no pending movement.
    pub fn default() -> (b: CharacterBundle)
        ensures
            b.moveable == (Moveable {
                speed: 0,
                frozen_speed: 0,
                frozen_linvel: crate::vec2::Vec2I { x: 0, y: 0 },
                frozen_angvel: 0,
                frozen_g_scale: crate::physics::GRAVITY_SCALE,
            }),
            b.collider_bundle == DynamicColliderBundle::default_spec(),
            b.controller.translation.is_none(),
            b.velocity.linvel == (crate::vec2::Vec2I { x: 0, y: 0 }),
            b.velocity.angvel == 0,
    {
        CharacterBundle {
            moveable: Moveable::new(0),
            character: Character,
            collider_bundle: DynamicColliderBundle::default(),
            controller: CharacterController { translation: None },
            velocity: Velocity::zero(),
        }
    }

    /// The bundle spawned for a level entity: the player identifier gets
    /// the default movement speed and the player collider; any other entity
    /// gets the inert default.
    pub fn from_identifier(identifier: &String) -> (b: CharacterBundle)
        ensures
            identifier@ == player_id() ==> {
                &&& b.moveable.speed == DEFAULT_MOVE_SPEED
                &&& b.collider_bundle == DynamicColliderBundle::player_bundle_spec()
                &&& b.controller.translation.is_none()
                &&& b.velocity == (Velocity { linvel: crate::vec2::Vec2I { x: 0, y: 0 }, angvel: 0 })
            },
            identifier@ != player_id() ==> {
                &&& b.moveable.speed == 0
                &&& b.collider_bundle == DynamicColliderBundle::default_spec()
            },
    {
        let pid: String = "Player".to_owned();
        if *identifier == pid {
            CharacterBundle {
                moveable: Moveable::new(DEFAULT_MOVE_SPEED),
                character: Character,
                collider_bundle: DynamicColliderBundle::from_identifier(identifier),
                controller: CharacterController { translation: None },
                velocity: Velocity::zero(),
            }
        } else {
            CharacterBundle::default()
        }
    }
}

} // verus!
