//! Combat engine: rotating the weapon aim under clamped angular limits, and
//! spawning a projectile on a discrete fire edge.

use vstd::prelude::*;

use crate::movement::{CharacterController, InputState};
use crate::physics::{proj_collision_groups, CollisionGroups};
use crate::player::{Player, WEAPON_MAX_ROT, WEAPON_MIN_ROT, WEAPON_ROT_PER_MS};
use crate::vec2::{Vec2I, COORD_LIMIT};

verus! {

/// Distance from the player's center at which a projectile spawns, along the
/// forward direction, in subunits: 4 world units.
pub const PROJECTILE_SPAWN_OFFSET: i64 = 4_000_000;

/// Bound of the random visual spin a projectile gets, in millidegrees per
/// second: the jitter is drawn uniformly from the open range
/// `(-ANGVEL_JITTER_LIMIT, ANGVEL_JITTER_LIMIT)`.
pub const ANGVEL_JITTER_LIMIT: i64 = 30_000;

/// Bound within which stored aim angles stay well clear of overflow.
pub const ANGLE_LIMIT: i64 = 1_000_000_000;

/// A projectile's combat payload: the integer radius, in tile-widths, of its
/// terrain-destruction effect.
#[derive(Clone, Copy, Debug, PartialEq, Eq, Structural)]
pub struct Projectile {
    pub fx_radius: u8,
}

impl Projectile {
    /// Launch speed of a projectile, in subunits per second: 100 world units
    /// per second.
    pub const DEFAULT_SPEED: i64 = 100_000_000;
}

/// Hit points of a combatant.
#[derive(Clone, Copy, Debug, PartialEq, Eq, Structural)]
pub struct HitPoint(pub u8);

/// Damage a combatant deals.
#[derive(Clone, Copy, Debug, PartialEq, Eq, Structural)]
pub struct Damage(pub u8);

/// The transform of the weapon child sprite: its accumulated local z
/// rotation in millidegrees, and whether it is mirrored around the vertical
/// axis to match a flipped facing. Mirroring preserves the signed rotation.
#[derive(Clone, Copy, Debug, PartialEq, Eq, Structural)]
pub struct WeaponChildTransform {
    pub rot_mdeg: i64,
    pub mirrored: bool,
}

/// Everything a fire edge spawns: where the projectile starts, the facing it
/// inherits, its true world-space firing angle and speed, its visual spin,
/// its effect payload and its collision groups.
#[derive(Clone, Copy, Debug, PartialEq, Eq, Structural)]
pub struct ProjectileBundle {
    pub position: Vec2I,
    pub direction: Vec2I,
    pub world_angle_mdeg: i64,
    pub speed: i64,
    pub angvel: i64,
    pub projectile: Projectile,
    pub collision_groups: CollisionGroups,
}

/// `x` clamped into `[lo, hi]`; callers keep `lo <= hi`.
pub open spec fn clamped(x: int, lo: int, hi: int) -> int {
    if x < lo {
        lo
    } else if x > hi {
        hi
    } else {
        x
    }
}

/// The unclamped angular delta one tick of held input asks for: down rotates
/// positively, up negatively, and a tick holding both lets down win.
pub open spec fn raw_rot_delta(kb: InputState, dt_ms: int) -> int {
    if kb.down {
        WEAPON_ROT_PER_MS * dt_ms
    } else if kb.up {
        -(WEAPON_ROT_PER_MS * dt_ms)
    } else {
        0
    }
}

/// The angular delta actually applied from rotation `rot`: the raw delta,
/// clamped so the accumulated rotation lands inside
/// `[WEAPON_MIN_ROT, WEAPON_MAX_ROT]`.
pub open spec fn aim_delta(kb: InputState, dt_ms: int, rot: int) -> int {
    clamped(raw_rot_delta(kb, dt_ms), WEAPON_MIN_ROT - rot, WEAPON_MAX_ROT - rot)
}

/// The sign the fired projectile's angle is multiplied by to leave the
/// player's local unmirrored frame: negative when facing right.
pub open spec fn dir_sign(dir: Vec2I) -> int {
    if dir.x > 0 {
        -1int
    } else {
        1int
    }
}

/// Rotate the weapon: mirror the weapon sprite when the player moved
/// horizontally this tick, then apply the held up/down input as a signed
/// angular delta, clamped each tick so the accumulated rotation never leaves
/// `[WEAPON_MIN_ROT, WEAPON_MAX_ROT]`, however many ticks of held input
/// arrive. The player's stored aim angle moves by the same delta.
pub fn aim_weapon(
    kb: &InputState,
    dt_ms: i64,
    controller: &CharacterController,
    player: &mut Player,
    child: &mut WeaponChildTransform,
)
    requires
        1 <= dt_ms <= 1000,
        -ANGLE_LIMIT <= old(child).rot_mdeg <= ANGLE_LIMIT,
        -ANGLE_LIMIT <= old(player).projectile_angle <= ANGLE_LIMIT,
    ensures
        final(child).mirrored == match controller.translation {
            Some(t) => if t.x != 0 {
                t.x > 0
            } else {
                old(child).mirrored
            },
            None => old(child).mirrored,
        },
        final(child).rot_mdeg == old(child).rot_mdeg + aim_delta(
            *kb,
            dt_ms as int,
            old(child).rot_mdeg as int,
        ),
        final(player).projectile_angle == old(player).projectile_angle + aim_delta(
            *kb,
            dt_ms as int,
            old(child).rot_mdeg as int,
        ),
        final(player).forward == old(player).forward,
        WEAPON_MIN_ROT <= final(child).rot_mdeg <= WEAPON_MAX_ROT,
{
    // Mirror the weapon sprite around the vertical axis when the player
    // moved; the signed rotation itself is kept.
    match controller.translation {
        Some(t) => {
            if t.x != 0 {
                child.mirrored = t.x > 0;
            }
        },
        None => {},
    }
    let mut rot_delta: i64 = 0;
    if kb.up {
        rot_delta = -(WEAPON_ROT_PER_MS * dt_ms);
    }
    if kb.down {
        rot_delta = WEAPON_ROT_PER_MS * dt_ms;
    }
    let lo = WEAPON_MIN_ROT - child.rot_mdeg;
    let hi = WEAPON_MAX_ROT - child.rot_mdeg;
    let rot_delta = if rot_delta < lo {
        lo
    } else if rot_delta > hi {
        hi
    } else {
        rot_delta
    };
    player.projectile_angle = player.projectile_angle + rot_delta;
    child.rot_mdeg = child.rot_mdeg + rot_delta;
}

/// One aim tick in the fold over a whole input history.
pub ghost struct AimTick {
    pub kb: InputState,
    pub dt_ms: int,
}

/// The weapon rotation left after applying a sequence of aim ticks in order.
pub open spec fn aim_rot_after(rot: int, ticks: Seq<AimTick>) -> int
    decreases ticks.len(),
{
    if ticks.len() == 0 {
        rot
    } else {
        aim_rot_after(rot + aim_delta(ticks[0].kb, ticks[0].dt_ms, rot), ticks.drop_first())
    }
}

/// Aim rotation never exceeds `[WEAPON_MIN_ROT, WEAPON_MAX_ROT]` after any
/// sequence of held up/down inputs across any number of ticks: starting in
/// range, every tick of the history leaves it in range.
pub proof fn lemma_aim_rotation_stays_in_bounds(rot: int, ticks: Seq<AimTick>)
    requires
        WEAPON_MIN_ROT <= rot <= WEAPON_MAX_ROT,
    ensures
        WEAPON_MIN_ROT <= aim_rot_after(rot, ticks) <= WEAPON_MAX_ROT,
    decreases ticks.len(),
{
    if ticks.len() > 0 {
        lemma_aim_rotation_stays_in_bounds(
            rot + aim_delta(ticks[0].kb, ticks[0].dt_ms, rot),
            ticks.drop_first(),
        );
    }
}

/// Relies on rand's `Rng::gen_range` on the rand crate's thread-local
/// generator: a uniformly random value of the half-open range, which exists
/// because the range is non-empty.
#[verifier::external_body]
fn gen_range_i64(lo: i64, hi: i64) -> (r: i64)
    requires
        lo < hi,
    ensures
        lo <= r < hi,
{
    rand::Rng::gen_range(&mut rand::thread_rng(), lo..hi)
}

/// On a discrete fire edge, spawn exactly one projectile: offset from the
/// player along the facing direction, flying at the fixed projectile speed
/// under the true world-space firing angle — the stored aim angle times the
/// sign of the facing — with a small random spin for purely visual effect,
/// an effect radius of one tile, and the projectile collision groups. The
/// edge is consumed: without a fresh press, nothing spawns. Reading the same
/// snapshot twice therefore spawns once.
pub fn fire_projectile(kb: &mut InputState, player_position: Vec2I, player: &Player) -> (spawned:
    Option<ProjectileBundle>)
    requires
        player_position.in_range(),
        player.forward.y == 0,
        player.forward.x == 1 || player.forward.x == -1,
        -ANGLE_LIMIT <= player.projectile_angle <= ANGLE_LIMIT,
    ensures
        spawned.is_some() == old(kb).fire_just_pressed,
        *final(kb) == (InputState { fire_just_pressed: false, ..*old(kb) }),
        spawned matches Some(b) ==> {
            &&& b.position.x == player_position.x + player.forward.x * PROJECTILE_SPAWN_OFFSET
            &&& b.position.y == player_position.y
            &&& b.direction == player.forward
            &&& b.world_angle_mdeg == dir_sign(player.forward) * player.projectile_angle
            &&& b.speed == Projectile::DEFAULT_SPEED
            &&& -ANGVEL_JITTER_LIMIT < b.angvel < ANGVEL_JITTER_LIMIT
            &&& b.projectile.fx_radius == 1
            &&& b.collision_groups == proj_collision_groups_value()
        },
{
    if !kb.fire_just_pressed {
        return None;
    }
    kb.fire_just_pressed = false;
    let offset_x = if player.forward.x > 0 {
        PROJECTILE_SPAWN_OFFSET
    } else {
        -PROJECTILE_SPAWN_OFFSET
    };
    let world_angle_mdeg = if player.forward.x > 0 {
        -player.projectile_angle
    } else {
        player.projectile_angle
    };
    proof {
        assert(offset_x == player.forward.x * PROJECTILE_SPAWN_OFFSET) by {
            if player.forward.x > 0 {
                assert(1int * PROJECTILE_SPAWN_OFFSET == PROJECTILE_SPAWN_OFFSET) by (nonlinear_arith);
            } else {
                assert((-1int) * PROJECTILE_SPAWN_OFFSET == -PROJECTILE_SPAWN_OFFSET)
                    by (nonlinear_arith);
            }
        }
        assert(world_angle_mdeg == dir_sign(player.forward) * player.projectile_angle) by {
            let a = player.projectile_angle as int;
            if player.forward.x > 0 {
                assert((-1int) * a == -a) by (nonlinear_arith);
            } else {
                assert(1int * a == a) by (nonlinear_arith);
            }
        }
    }
    proof {
        assert(2u32 | 4u32 == 6u32) by (bit_vector);
    }
    let jitter = gen_range_i64(-ANGVEL_JITTER_LIMIT + 1, ANGVEL_JITTER_LIMIT);
    Some(
        ProjectileBundle {
            position: Vec2I { x: player_position.x + offset_x, y: player_position.y },
            direction: player.forward,
            world_angle_mdeg,
            speed: Projectile::DEFAULT_SPEED,
            angvel: jitter,
            projectile: Projectile { fx_radius: 1 },
            collision_groups: proj_collision_groups(),
        },
    )
}

/// The collision groups a projectile flies with, as a value.
pub open spec fn proj_collision_groups_value() -> CollisionGroups {
    CollisionGroups { memberships: 4u32, filters: 6u32 }
}

impl ProjectileBundle {
    /// The cartesian velocity vector of a projectile fired with no rotation
    /// component: when the world-space firing angle is zero the projectile
    /// flies at `speed * direction`; under any other angle the vector is not
    /// axis-aligned and no value is produced.
    pub fn level_velocity(&self) -> (v: Option<Vec2I>)
        requires
            self.direction.y == 0,
            self.direction.x == 1 || self.direction.x == -1,
            0 <= self.speed <= COORD_LIMIT,
        ensures
            self.world_angle_mdeg == 0 ==> v == Some(
                Vec2I {
                    x: (self.direction.x * self.speed) as i64,
                    y: (self.direction.y * self.speed) as i64,
                },
            ),
            self.world_angle_mdeg != 0 ==> v.is_none(),
    {
        if self.world_angle_mdeg == 0 {
            let vx = if self.direction.x > 0 {
                self.speed
            } else {
                -self.speed
            };
            proof {
                assert(vx == self.direction.x * self.speed) by {
                    let s = self.speed as int;
                    if self.direction.x > 0 {
                        assert(1int * s == s) by (nonlinear_arith);
                    } else {
                        assert((-1int) * s == -s) by (nonlinear_arith);
                    }
                }
                assert(0int * self.speed == 0) by (nonlinear_arith);
            }
            Some(Vec2I { x: vx, y: 0 })
        } else {
            None
        }
    }
}

} // verus!
