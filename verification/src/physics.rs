//! Physics-side state: velocities, collision filtering, and the
//! freeze/unfreeze controller that pauses the whole simulation while
//! preserving exactly restorable per-entity state.

use vstd::prelude::*;

use crate::vec2::Vec2I;

verus! {

/// Gravitational acceleration, expressed as the change of vertical velocity
/// (in subunits per second) that one millisecond of fall produces at gravity
/// scale one: 9.8 world units per second squared.
pub const GRAVITY_PER_MS: i64 = 9800;

/// Default gravity scale of a freshly spawned dynamic body.
pub const GRAVITY_SCALE: i64 = 1;

/// Collision-group membership bit of player bodies.
pub const PLAYER_GROUP: u32 = 1;

/// Collision-group membership bit of terrain tiles.
pub const TERRAIN_GROUP: u32 = 2;

/// Collision-group membership bit of projectiles.
pub const PROJECTILE_GROUP: u32 = 4;

/// Tag-based filter restricting which collider categories can register
/// collisions with each other: two colliders interact only when each one's
/// membership intersects the other's filter.
#[derive(Clone, Copy, Debug, PartialEq, Eq, Structural)]
pub struct CollisionGroups {
    pub memberships: u32,
    pub filters: u32,
}

/// Two collision-group tags register collisions with each other.
pub open spec fn can_collide(a: CollisionGroups, b: CollisionGroups) -> bool {
    a.memberships & b.filters != 0 && b.memberships & a.filters != 0
}

/// Discrete request to freeze the physics simulation, queued by the pause
/// flow and drained at most once per tick.
#[derive(Clone, Copy, Debug, PartialEq, Eq, Structural)]
pub struct FreezePhysicsEvent;

/// Discrete request to resume the physics simulation.
#[derive(Clone, Copy, Debug, PartialEq, Eq, Structural)]
pub struct UnfreezePhysicsEvent;

/// Queue a freeze request. The slot holds at most one pending request;
/// sending twice before a drain leaves a single request.
pub fn pause_physics(ev_freeze: &mut Option<FreezePhysicsEvent>)
    ensures
        *final(ev_freeze) == Some(FreezePhysicsEvent),
{
    *ev_freeze = Some(FreezePhysicsEvent);
}

/// Queue an unfreeze request.
pub fn unpause_physics(ev_unfreeze: &mut Option<UnfreezePhysicsEvent>)
    ensures
        *final(ev_unfreeze) == Some(UnfreezePhysicsEvent),
{
    *ev_unfreeze = Some(UnfreezePhysicsEvent);
}

/// Drain the freeze-request slot: reports whether a request was pending and
/// clears it, so one request is observed exactly once.
pub fn freeze_requested(ev_freeze: &mut Option<FreezePhysicsEvent>) -> (requested: bool)
    ensures
        requested == old(ev_freeze).is_some(),
        final(ev_freeze).is_none(),
{
    let requested = ev_freeze.is_some();
    *ev_freeze = None;
    requested
}

/// Drain the unfreeze-request slot.
pub fn unfreeze_requested(ev_unfreeze: &mut Option<UnfreezePhysicsEvent>) -> (requested: bool)
    ensures
        requested == old(ev_unfreeze).is_some(),
        final(ev_unfreeze).is_none(),
{
    let requested = ev_unfreeze.is_some();
    *ev_unfreeze = None;
    requested
}

/// Pipeline-level switch of the physics step; while inactive, no integration
/// runs.
#[derive(Clone, Copy, Debug, PartialEq, Eq, Structural)]
pub struct PhysicsConfig {
    pub physics_pipeline_active: bool,
}

/// Disable the global physics step.
pub fn freeze_physics(config: &mut PhysicsConfig)
    ensures
        !final(config).physics_pipeline_active,
{
    config.physics_pipeline_active = false;
}

/// Re-enable the global physics step.
pub fn unfreeze_physics(config: &mut PhysicsConfig)
    ensures
        final(config).physics_pipeline_active,
{
    config.physics_pipeline_active = true;
}

/// Movement state of a movable entity. The `frozen_*` fields are meaningful
/// only between a freeze and the matching unfreeze: they hold exactly the
/// values captured at freeze time, and restoring them reproduces the
/// pre-freeze state bit for bit.
#[derive(Clone, Copy, Debug, PartialEq, Eq, Structural)]
pub struct Moveable {
    pub speed: i64,
    pub frozen_speed: i64,
    pub frozen_linvel: Vec2I,
    pub frozen_angvel: i64,
    pub frozen_g_scale: i64,
}

impl Moveable {
    /// A moveable at the given speed, with idle capture fields.
    pub fn new(speed: i64) -> (m: Moveable)
        ensures
            m.speed == speed,
            m.frozen_speed == 0,
            m.frozen_linvel == (Vec2I { x: 0, y: 0 }),
            m.frozen_angvel == 0,
            m.frozen_g_scale == GRAVITY_SCALE,
    {
        Moveable {
            speed,
            frozen_speed: 0,
            frozen_linvel: Vec2I { x: 0, y: 0 },
            frozen_angvel: 0,
            frozen_g_scale: GRAVITY_SCALE,
        }
    }
}

/// Linear and angular velocity of a dynamic body, in subunits per second and
/// millidegrees per second.
#[derive(Clone, Copy, Debug, PartialEq, Eq, Structural)]
pub struct Velocity {
    pub linvel: Vec2I,
    pub angvel: i64,
}

impl Velocity {
    pub fn zero() -> (v: Velocity)
        ensures
            v.linvel == (Vec2I { x: 0, y: 0 }),
            v.angvel == 0,
    {
        Velocity { linvel: Vec2I { x: 0, y: 0 }, angvel: 0 }
    }
}

/// One simulated body as the freeze controller sees it: its movement intent,
/// its velocity and its gravity scale.
#[derive(Clone, Copy, Debug, PartialEq, Eq, Structural)]
pub struct PhysicsBody {
    pub moveable: Moveable,
    pub velocity: Velocity,
    pub gravity_scale: i64,
}

/// The body a freeze turns the given one into: current velocity and gravity
/// scale are captured into the capture fields, and the live speed, velocity
/// and gravity scale are zeroed so no further integration moves it.
pub open spec fn freeze_body_spec(b: PhysicsBody) -> PhysicsBody {
    PhysicsBody {
        moveable: Moveable {
            speed: 0,
            frozen_speed: b.moveable.speed,
            frozen_linvel: b.velocity.linvel,
            frozen_angvel: b.velocity.angvel,
            frozen_g_scale: b.gravity_scale,
        },
        velocity: Velocity { linvel: Vec2I { x: 0, y: 0 }, angvel: 0 },
        gravity_scale: 0,
    }
}

/// The body an unfreeze turns the given one into: gravity scale, velocity and
/// speed come back from the capture fields, which return to their idle values.
pub open spec fn unfreeze_body_spec(b: PhysicsBody) -> PhysicsBody {
    PhysicsBody {
        moveable: Moveable {
            speed: b.moveable.frozen_speed,
            frozen_speed: 0,
            frozen_linvel: Vec2I { x: 0, y: 0 },
            frozen_angvel: 0,
            frozen_g_scale: GRAVITY_SCALE,
        },
        velocity: Velocity { linvel: b.moveable.frozen_linvel, angvel: b.moveable.frozen_angvel },
        gravity_scale: b.moveable.frozen_g_scale,
    }
}

/// Freezing and then unfreezing, with no tick in between, restores velocity
/// and gravity scale (and the movement speed) to the exact values captured at
/// freeze time, for any starting combination.
pub proof fn lemma_freeze_unfreeze_roundtrip(b: PhysicsBody)
    ensures
        unfreeze_body_spec(freeze_body_spec(b)).velocity == b.velocity,
        unfreeze_body_spec(freeze_body_spec(b)).gravity_scale == b.gravity_scale,
        unfreeze_body_spec(freeze_body_spec(b)).moveable.speed == b.moveable.speed,
{
}

/// Running/frozen state of the freeze controller. The guard makes a second
/// freeze without an intervening unfreeze a no-op, so already-captured state
/// is never overwritten with zeroed values; symmetrically, an unfreeze
/// without a preceding freeze does nothing.
#[derive(Clone, Copy, Debug, PartialEq, Eq, Structural)]
pub struct FreezeController {
    pub frozen: bool,
}

impl FreezeController {
    pub fn new() -> (c: FreezeController)
        ensures
            !c.frozen,
    {
        FreezeController { frozen: false }
    }
}

/// Freeze every body: capture its velocity and gravity scale, zero its live
/// movement state, and disable the global physics step. A repeated freeze
/// changes nothing.
pub fn freeze_all(
    ctrl: &mut FreezeController,
    config: &mut PhysicsConfig,
    bodies: &mut Vec<PhysicsBody>,
)
    ensures
        old(ctrl).frozen ==> {
            &&& *final(ctrl) == *old(ctrl)
            &&& *final(config) == *old(config)
            &&& final(bodies)@ == old(bodies)@
        },
        !old(ctrl).frozen ==> {
            &&& final(ctrl).frozen
            &&& !final(config).physics_pipeline_active
            &&& final(bodies)@.len() == old(bodies)@.len()
            &&& forall|i: int|
                0 <= i < old(bodies)@.len() ==> final(bodies)@[i] == freeze_body_spec(
                    #[trigger] old(bodies)@[i],
                )
        },
{
    if ctrl.frozen {
        return ;
    }
    let n = bodies.len();
    let mut i: usize = 0;
    while i < n
        invariant
            n == bodies@.len(),
            n == old(bodies)@.len(),
            0 <= i <= n,
            forall|j: int| 0 <= j < i ==> bodies@[j] == freeze_body_spec(#[trigger] old(bodies)@[j]),
            forall|j: int| i <= j < n ==> bodies@[j] == #[trigger] old(bodies)@[j],
        decreases n - i,
    {
        let b = bodies[i];
        bodies.set(
            i,
            PhysicsBody {
                moveable: Moveable {
                    speed: 0,
                    frozen_speed: b.moveable.speed,
                    frozen_linvel: b.velocity.linvel,
                    frozen_angvel: b.velocity.angvel,
                    frozen_g_scale: b.gravity_scale,
                },
                velocity: Velocity { linvel: Vec2I { x: 0, y: 0 }, angvel: 0 },
                gravity_scale: 0,
            },
        );
        i = i + 1;
    }
    freeze_physics(config);
    ctrl.frozen = true;
}

/// Unfreeze every body: restore gravity scale first, then velocity, from the
/// captured values, and re-enable the global physics step. Without a
/// preceding freeze this changes nothing.
pub fn unfreeze_all(
    ctrl: &mut FreezeController,
    config: &mut PhysicsConfig,
    bodies: &mut Vec<PhysicsBody>,
)
    ensures
        !old(ctrl).frozen ==> {
            &&& *final(ctrl) == *old(ctrl)
            &&& *final(config) == *old(config)
            &&& final(bodies)@ == old(bodies)@
        },
        old(ctrl).frozen ==> {
            &&& !final(ctrl).frozen
            &&& final(config).physics_pipeline_active
            &&& final(bodies)@.len() == old(bodies)@.len()
            &&& forall|i: int|
                0 <= i < old(bodies)@.len() ==> final(bodies)@[i] == unfreeze_body_spec(
                    #[trigger] old(bodies)@[i],
                )
        },
{
    if !ctrl.frozen {
        return ;
    }
    let n = bodies.len();
    let mut i: usize = 0;
    while i < n
        invariant
            n == bodies@.len(),
            n == old(bodies)@.len(),
            0 <= i <= n,
            forall|j: int|
                0 <= j < i ==> bodies@[j] == unfreeze_body_spec(#[trigger] old(bodies)@[j]),
            forall|j: int| i <= j < n ==> bodies@[j] == #[trigger] old(bodies)@[j],
        decreases n - i,
    {
        let b = bodies[i];
        // Gravity scale is restored before velocity: a consumer reading the
        // body mid-restore must already see the restored gravity.
        let gravity_scale = b.moveable.frozen_g_scale;
        let velocity = Velocity { linvel: b.moveable.frozen_linvel, angvel: b.moveable.frozen_angvel };
        bodies.set(
            i,
            PhysicsBody {
                moveable: Moveable {
                    speed: b.moveable.frozen_speed,
                    frozen_speed: 0,
                    frozen_linvel: Vec2I { x: 0, y: 0 },
                    frozen_angvel: 0,
                    frozen_g_scale: GRAVITY_SCALE,
                },
                velocity,
                gravity_scale,
            },
        );
        i = i + 1;
    }
    unfreeze_physics(config);
    ctrl.frozen = false;
}

/// Collision groups of a static terrain collider: member of the terrain
/// group, colliding with players and projectiles.
pub fn terrain_collision_groups() -> (g: CollisionGroups)
    ensures
        g.memberships == TERRAIN_GROUP,
        g.filters == PLAYER_GROUP | PROJECTILE_GROUP,
{
    CollisionGroups { memberships: TERRAIN_GROUP, filters: PLAYER_GROUP | PROJECTILE_GROUP }
}

/// Collision groups of the player body: member of the player group, colliding
/// with terrain only.
pub fn player_collision_groups() -> (g: CollisionGroups)
    ensures
        g.memberships == PLAYER_GROUP,
        g.filters == TERRAIN_GROUP,
{
    CollisionGroups { memberships: PLAYER_GROUP, filters: TERRAIN_GROUP }
}

/// Collision groups of a projectile: member of the projectile group,
/// colliding with terrain and with other projectiles.
pub fn proj_collision_groups() -> (g: CollisionGroups)
    ensures
        g.memberships == PROJECTILE_GROUP,
        g.filters == TERRAIN_GROUP | PROJECTILE_GROUP,
{
    CollisionGroups {
        memberships: PROJECTILE_GROUP,
        filters: TERRAIN_GROUP | PROJECTILE_GROUP,
    }
}

/// How a body is driven by the physics step.
#[derive(Clone, Copy, Debug, PartialEq, Eq, Structural)]
pub enum RigidBodyKind {
    Fixed,
    Dynamic,
}

/// The identifier under which the player entity is spawned from the level.
pub open spec fn player_id() -> Seq<char> {
    "Player"@
}

/// Collider data a dynamic entity spawns with: its shape, its friction
/// coefficient in thousandths, how the physics step drives it, whether its
/// rotation is locked, its gravity scale, and its collision groups.
#[derive(Clone, Copy, Debug, PartialEq, Eq, Structural)]
pub struct DynamicColliderBundle {
    pub collider: crate::map::Shape,
    pub friction: i64,
    pub rigid_body: RigidBodyKind,
    pub rotation_locked: bool,
    pub gravity_scale: i64,
    pub collision_groups: CollisionGroups,
}

impl DynamicColliderBundle {
    /// Collision groups of the player body.
    pub fn player_collision_groups() -> (g: CollisionGroups)
        ensures
            g == (CollisionGroups { memberships: PLAYER_GROUP, filters: TERRAIN_GROUP }),
    {
        player_collision_groups()
    }

    /// Collision groups of a projectile body.
    pub fn proj_collision_groups() -> (g: CollisionGroups)
        ensures
            g == (CollisionGroups { memberships: 4u32, filters: 6u32 }),
    {
        proof {
            assert(2u32 | 4u32 == 6u32) by (bit_vector);
        }
        proj_collision_groups()
    }

    /// The inert bundle of an entity that gets no collider.
    pub fn default() -> (b: DynamicColliderBundle)
        ensures
            b == DynamicColliderBundle::default_spec(),
    {
        DynamicColliderBundle {
            collider: crate::map::Shape::Unknown,
            friction: 0,
            rigid_body: RigidBodyKind::Fixed,
            rotation_locked: false,
            gravity_scale: GRAVITY_SCALE,
            collision_groups: CollisionGroups { memberships: 0, filters: 0 },
        }
    }

    /// What `default` returns, as a value.
    pub open spec fn default_spec() -> DynamicColliderBundle {
        DynamicColliderBundle {
            collider: crate::map::Shape::Unknown,
            friction: 0,
            rigid_body: RigidBodyKind::Fixed,
            rotation_locked: false,
            gravity_scale: GRAVITY_SCALE,
            collision_groups: CollisionGroups { memberships: 0u32, filters: 0u32 },
        }
    }

    /// The collider bundle the player spawns with: a dynamic,
    /// rotation-locked, frictionless box of the character's half extents
    /// under the player collision groups.
    pub open spec fn player_bundle_spec() -> DynamicColliderBundle {
        DynamicColliderBundle {
            collider: crate::map::Shape::Box {
                half_extents: Vec2I {
                    x: crate::player::CHARACTER_HALF_EXTENT,
                    y: crate::player::CHARACTER_HALF_EXTENT,
                },
            },
            friction: 0,
            rigid_body: RigidBodyKind::Dynamic,
            rotation_locked: true,
            gravity_scale: GRAVITY_SCALE,
            collision_groups: CollisionGroups {
                memberships: PLAYER_GROUP,
                filters: TERRAIN_GROUP,
            },
        }
    }

    /// Collider spawned for a level entity: the player identifier gets the
    /// player bundle; any other entity gets the inert default.
    pub fn from_identifier(identifier: &String) -> (b: DynamicColliderBundle)
        ensures
            identifier@ == player_id() ==> b == DynamicColliderBundle::player_bundle_spec(),
            identifier@ != player_id() ==> b == DynamicColliderBundle::default_spec(),
    {
        let pid: String = "Player".to_owned();
        if *identifier == pid {
            DynamicColliderBundle {
                collider: crate::map::Shape::Box {
                    half_extents: Vec2I {
                        x: crate::player::CHARACTER_HALF_EXTENT,
                        y: crate::player::CHARACTER_HALF_EXTENT,
                    },
                },
                friction: 0,
                rigid_body: RigidBodyKind::Dynamic,
                rotation_locked: true,
                gravity_scale: GRAVITY_SCALE,
                collision_groups: player_collision_groups(),
            }
        } else {
            DynamicColliderBundle::default()
        }
    }
}

/// The filter matrix these groups realise: terrain registers collisions with
/// players and with projectiles, projectiles with each other, and players and
/// projectiles never with one another.
pub proof fn lemma_collision_filter_matrix()
    ensures
        can_collide(
            CollisionGroups { memberships: TERRAIN_GROUP, filters: PLAYER_GROUP | PROJECTILE_GROUP },
            CollisionGroups { memberships: PLAYER_GROUP, filters: TERRAIN_GROUP },
        ),
        can_collide(
            CollisionGroups { memberships: TERRAIN_GROUP, filters: PLAYER_GROUP | PROJECTILE_GROUP },
            CollisionGroups {
                memberships: PROJECTILE_GROUP,
                filters: TERRAIN_GROUP | PROJECTILE_GROUP,
            },
        ),
        can_collide(
            CollisionGroups {
                memberships: PROJECTILE_GROUP,
                filters: TERRAIN_GROUP | PROJECTILE_GROUP,
            },
            CollisionGroups {
                memberships: PROJECTILE_GROUP,
                filters: TERRAIN_GROUP | PROJECTILE_GROUP,
            },
        ),
        !can_collide(
            CollisionGroups { memberships: PLAYER_GROUP, filters: TERRAIN_GROUP },
            CollisionGroups {
                memberships: PROJECTILE_GROUP,
                filters: TERRAIN_GROUP | PROJECTILE_GROUP,
            },
        ),
{
    assert(TERRAIN_GROUP & TERRAIN_GROUP != 0) by (bit_vector);
    assert(PLAYER_GROUP & (PLAYER_GROUP | PROJECTILE_GROUP) != 0) by (bit_vector);
    assert(PROJECTILE_GROUP & (PLAYER_GROUP | PROJECTILE_GROUP) != 0) by (bit_vector);
    assert(TERRAIN_GROUP & (TERRAIN_GROUP | PROJECTILE_GROUP) != 0) by (bit_vector);
    assert(PROJECTILE_GROUP & (TERRAIN_GROUP | PROJECTILE_GROUP) != 0) by (bit_vector);
    assert(PLAYER_GROUP & (TERRAIN_GROUP | PROJECTILE_GROUP) == 0) by (bit_vector);
    assert(PROJECTILE_GROUP & TERRAIN_GROUP == 0) by (bit_vector);
}

} // verus!
