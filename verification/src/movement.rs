//! Gravity/movement simulation: a stateless per-tick integrator that applies
//! gravity to airborne bodies, zeroes vertical velocity on grounded ones, and
//! turns held directional input into kinematic translation intents.

use vstd::prelude::*;

use crate::grounding::{grounded_spec, probe_rect, spec_box_half, tile_solid_bounds};
use crate::map::{Shape, TerrainTile};
use crate::physics::{Velocity, GRAVITY_PER_MS};
use crate::vec2::Vec2I;

verus! {

/// Vertical velocity a jump sets, in subunits per second: 100 world units
/// per second upward.
pub const JUMP_IMPULSE: i64 = 100_000_000;

/// Tiny upward position nudge applied on jump, in subunits, so the entity
/// does not re-ground on the very tick it jumps: 0.001 world units.
pub const JUMP_NUDGE: i64 = 1_000;

/// Per-tick snapshot of the fixed key set the simulation reads: whether the
/// four directional keys are currently held, and whether jump, fire and
/// pause were just pressed this tick.
#[derive(Clone, Copy, Debug, PartialEq, Eq, Structural)]
pub struct InputState {
    pub left: bool,
    pub right: bool,
    pub up: bool,
    pub down: bool,
    pub jump_just_pressed: bool,
    pub fire_just_pressed: bool,
    pub pause_just_pressed: bool,
}

impl InputState {
    /// A snapshot with nothing held and nothing pressed.
    pub fn released() -> (kb: InputState)
        ensures
            kb == (InputState {
                left: false,
                right: false,
                up: false,
                down: false,
                jump_just_pressed: false,
                fire_just_pressed: false,
                pause_just_pressed: false,
            }),
    {
        InputState {
            left: false,
            right: false,
            up: false,
            down: false,
            jump_just_pressed: false,
            fire_just_pressed: false,
            pause_just_pressed: false,
        }
    }
}

/// Kinematic character controller: the translation intent accumulated this
/// tick, consumed by the physics step.
#[derive(Clone, Copy, Debug, PartialEq, Eq, Structural)]
pub struct CharacterController {
    pub translation: Option<Vec2I>,
}

/// Horizontal facing of the rendered sprite.
#[derive(Clone, Copy, Debug, PartialEq, Eq, Structural)]
pub struct SpriteFacing {
    pub flip_x: bool,
}

/// The vertical velocity one gravity tick leaves behind: zero while
/// grounded, otherwise lowered by `GRAVITY_PER_MS * gravity_scale * dt_ms`.
pub open spec fn gravity_step(vy: int, grounded: bool, gravity_scale: int, dt_ms: int) -> int {
    if grounded {
        0
    } else {
        vy - GRAVITY_PER_MS * gravity_scale * dt_ms
    }
}

/// Apply one tick of gravity to a body: a grounded body's vertical velocity
/// is zeroed; an airborne one falls faster by gravity times its gravity
/// scale times the tick length. Horizontal and angular velocity are
/// untouched.
pub fn apply_gravity(velocity: &mut Velocity, grounded: bool, gravity_scale: i64, dt_ms: i64)
    requires
        old(velocity).linvel.in_range(),
        0 <= gravity_scale <= 1000,
        1 <= dt_ms <= 1000,
    ensures
        final(velocity).linvel.y == gravity_step(
            old(velocity).linvel.y as int,
            grounded,
            gravity_scale as int,
            dt_ms as int,
        ),
        final(velocity).linvel.x == old(velocity).linvel.x,
        final(velocity).angvel == old(velocity).angvel,
{
    if grounded {
        velocity.linvel.y = 0;
    } else {
        proof {
            assert(0 <= GRAVITY_PER_MS * gravity_scale * dt_ms <= 9_800_000_000int)
                by (nonlinear_arith)
                requires
                    0 <= gravity_scale <= 1000,
                    1 <= dt_ms <= 1000,
            ;
        }
        velocity.linvel.y = velocity.linvel.y - GRAVITY_PER_MS * gravity_scale * dt_ms;
    }
}

/// On a just-pressed jump input, and only while grounded, set the vertical
/// velocity to the fixed jump impulse and nudge the position upward by a
/// negligible amount so the same tick does not re-ground the entity.
pub fn apply_jump(
    velocity: &mut Velocity,
    position: &mut Vec2I,
    grounded: bool,
    jump_just_pressed: bool,
)
    requires
        old(position).in_range(),
    ensures
        grounded && jump_just_pressed ==> {
            &&& final(velocity).linvel.y == JUMP_IMPULSE
            &&& final(velocity).linvel.x == old(velocity).linvel.x
            &&& final(velocity).angvel == old(velocity).angvel
            &&& final(position).y == old(position).y + JUMP_NUDGE
            &&& final(position).x == old(position).x
        },
        !(grounded && jump_just_pressed) ==> {
            &&& *final(velocity) == *old(velocity)
            &&& *final(position) == *old(position)
        },
{
    if grounded && jump_just_pressed {
        velocity.linvel.y = JUMP_IMPULSE;
        position.y = position.y + JUMP_NUDGE;
    }
}

/// An entity whose collider is separated from every tile by more than the
/// probe's reach is not grounded, and one gravity tick later its vertical
/// velocity has strictly decreased, by exactly
/// `GRAVITY_PER_MS * gravity_scale * dt_ms`.
pub proof fn lemma_airborne_entity_falls(
    position: Vec2I,
    collider: Shape,
    tiles: Seq<TerrainTile>,
    vy: int,
    gravity_scale: int,
    dt_ms: int,
)
    requires
        forall|i: int|
            0 <= i < tiles.len() ==> match tile_solid_bounds(#[trigger] tiles[i]) {
                Some(r) => {
                    ||| r.hi_y < probe_rect(position, spec_box_half(collider)).lo_y
                    ||| r.lo_y > probe_rect(position, spec_box_half(collider)).hi_y
                    ||| r.hi_x < probe_rect(position, spec_box_half(collider)).lo_x
                    ||| r.lo_x > probe_rect(position, spec_box_half(collider)).hi_x
                },
                None => true,
            },
        1 <= gravity_scale,
        1 <= dt_ms,
    ensures
        !grounded_spec(position, collider, tiles),
        gravity_step(vy, grounded_spec(position, collider, tiles), gravity_scale, dt_ms) == vy
            - GRAVITY_PER_MS * gravity_scale * dt_ms,
        gravity_step(vy, grounded_spec(position, collider, tiles), gravity_scale, dt_ms) < vy,
{
    crate::grounding::lemma_airborne_is_not_grounded(position, collider, tiles);
    assert(GRAVITY_PER_MS * gravity_scale * dt_ms >= GRAVITY_PER_MS) by (nonlinear_arith)
        requires
            1 <= gravity_scale,
            1 <= dt_ms,
    ;
}

} // verus!
