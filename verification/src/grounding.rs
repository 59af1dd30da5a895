//! Grounding detection: whether an entity's collider currently rests on
//! solid terrain, decided by a short downward probe cast from just below the
//! collider's bottom edge against the terrain tile registry.
//!
//! Box colliders are tested exactly; a slope tile grounds by its axis-aligned
//! bounding box; an entity whose own collider is not a box is never grounded
//! (the documented fallback, not a bug to silently fix).

use vstd::prelude::*;

use crate::map::{Shape, TerrainTile};
use crate::vec2::Vec2I;

verus! {

/// Height of the thin probe shape, in subunits: 0.01 world units.
pub const PROBE_HEIGHT: i64 = 10_000;

/// Distance the probe travels downward, in subunits: 0.1 world units.
pub const PROBE_DISTANCE: i64 = 100_000;

/// An axis-aligned region of the plane, inclusive on all four bounds.
pub ghost struct Rect {
    pub lo_x: int,
    pub hi_x: int,
    pub lo_y: int,
    pub hi_y: int,
}

/// The smaller of three values.
pub open spec fn min3(a: int, b: int, c: int) -> int {
    if a <= b && a <= c {
        a
    } else if b <= c {
        b
    } else {
        c
    }
}

/// The larger of three values.
pub open spec fn max3(a: int, b: int, c: int) -> int {
    if a >= b && a >= c {
        a
    } else if b >= c {
        b
    } else {
        c
    }
}

/// Two inclusive regions overlap.
pub open spec fn rects_overlap(r1: Rect, r2: Rect) -> bool {
    r1.lo_x <= r2.hi_x && r2.lo_x <= r1.hi_x && r1.lo_y <= r2.hi_y && r2.lo_y <= r1.hi_y
}

/// The region a tile's collider occupies: its box, or the bounding box of its
/// triangle. A tile without a recognized shape occupies no region.
pub open spec fn tile_solid_bounds(t: TerrainTile) -> Option<Rect> {
    match t.shape {
        Shape::Box { half_extents } => Some(
            Rect {
                lo_x: t.position.x - half_extents.x,
                hi_x: t.position.x + half_extents.x,
                lo_y: t.position.y - half_extents.y,
                hi_y: t.position.y + half_extents.y,
            },
        ),
        Shape::Triangle { a, b, c } => Some(
            Rect {
                lo_x: t.position.x + min3(a.x as int, b.x as int, c.x as int),
                hi_x: t.position.x + max3(a.x as int, b.x as int, c.x as int),
                lo_y: t.position.y + min3(a.y as int, b.y as int, c.y as int),
                hi_y: t.position.y + max3(a.y as int, b.y as int, c.y as int),
            },
        ),
        Shape::Unknown => None,
    }
}

/// The region the downward cast of the probe sweeps: as wide as the entity's
/// collider, starting just below its bottom edge and reaching
/// `PROBE_HEIGHT + PROBE_DISTANCE` further down.
pub open spec fn probe_rect(position: Vec2I, half_extents: Vec2I) -> Rect {
    Rect {
        lo_x: position.x - half_extents.x,
        hi_x: position.x + half_extents.x,
        lo_y: position.y - half_extents.y - PROBE_HEIGHT - PROBE_DISTANCE,
        hi_y: position.y - half_extents.y,
    }
}

/// The probe cast from an entity at `position` with a box collider of the
/// given half extents intersects the given tile.
pub open spec fn probe_hits_tile(position: Vec2I, half_extents: Vec2I, t: TerrainTile) -> bool {
    match tile_solid_bounds(t) {
        Some(r) => rects_overlap(probe_rect(position, half_extents), r),
        None => false,
    }
}

/// An entity is grounded when its collider is a box and the probe cast below
/// that box intersects some tile of the registry.
pub open spec fn grounded_spec(position: Vec2I, collider: Shape, tiles: Seq<TerrainTile>) -> bool {
    match collider {
        Shape::Box { half_extents } => exists|i: int|
            0 <= i < tiles.len() && probe_hits_tile(position, half_extents, tiles[i]),
        _ => false,
    }
}

/// All component vectors of a shape are in coordinate range.
pub open spec fn shape_in_range(s: Shape) -> bool {
    match s {
        Shape::Box { half_extents } => half_extents.in_range(),
        Shape::Triangle { a, b, c } => a.in_range() && b.in_range() && c.in_range(),
        Shape::Unknown => true,
    }
}

/// The smaller of three fixed-point values.
fn min3_i64(a: i64, b: i64, c: i64) -> (m: i64)
    ensures
        m == min3(a as int, b as int, c as int),
{
    if a <= b && a <= c {
        a
    } else if b <= c {
        b
    } else {
        c
    }
}

/// The larger of three fixed-point values.
fn max3_i64(a: i64, b: i64, c: i64) -> (m: i64)
    ensures
        m == max3(a as int, b as int, c as int),
{
    if a >= b && a >= c {
        a
    } else if b >= c {
        b
    } else {
        c
    }
}

/// Whether the probe below a box collider at `position` intersects one tile.
fn probe_overlaps_tile(position: Vec2I, half_extents: Vec2I, t: &TerrainTile) -> (hit: bool)
    requires
        position.in_range(),
        half_extents.in_range(),
        t.position.in_range(),
        shape_in_range(t.shape),
    ensures
        hit == probe_hits_tile(position, half_extents, *t),
{
    let probe_lo_x = position.x - half_extents.x;
    let probe_hi_x = position.x + half_extents.x;
    let probe_hi_y = position.y - half_extents.y;
    let probe_lo_y = probe_hi_y - PROBE_HEIGHT - PROBE_DISTANCE;
    match t.shape {
        Shape::Box { half_extents: th } => {
            let lo_x = t.position.x - th.x;
            let hi_x = t.position.x + th.x;
            let lo_y = t.position.y - th.y;
            let hi_y = t.position.y + th.y;
            probe_lo_x <= hi_x && lo_x <= probe_hi_x && probe_lo_y <= hi_y && lo_y <= probe_hi_y
        },
        Shape::Triangle { a, b, c } => {
            let lo_x = t.position.x + min3_i64(a.x, b.x, c.x);
            let hi_x = t.position.x + max3_i64(a.x, b.x, c.x);
            let lo_y = t.position.y + min3_i64(a.y, b.y, c.y);
            let hi_y = t.position.y + max3_i64(a.y, b.y, c.y);
            probe_lo_x <= hi_x && lo_x <= probe_hi_x && probe_lo_y <= hi_y && lo_y <= probe_hi_y
        },
        Shape::Unknown => false,
    }
}

/// Whether the entity at `position` with the given collider currently rests
/// on solid terrain: for a box collider, a thin probe as wide as the collider
/// is cast a very small distance downward from just below the collider's
/// bottom edge, and the entity is grounded exactly when that cast intersects
/// some terrain tile. Non-box colliders are never grounded.
pub fn is_grounded(position: Vec2I, collider: &Shape, tiles: &Vec<TerrainTile>) -> (grounded:
    bool)
    requires
        position.in_range(),
        shape_in_range(*collider),
        forall|i: int|
            0 <= i < tiles@.len() ==> (#[trigger] tiles@[i]).position.in_range() && shape_in_range(
                tiles@[i].shape,
            ),
    ensures
        grounded == grounded_spec(position, *collider, tiles@),
{
    let col = *collider;
    match col {
        Shape::Box { half_extents } => {
            let n = tiles.len();
            let mut i: usize = 0;
            while i < n
                invariant
                    n == tiles@.len(),
                    0 <= i <= n,
                    position.in_range(),
                    half_extents.in_range(),
                    *collider == (Shape::Box { half_extents }),
                    forall|j: int|
                        0 <= j < n ==> (#[trigger] tiles@[j]).position.in_range()
                            && shape_in_range(tiles@[j].shape),
                    forall|j: int| 0 <= j < i ==> !probe_hits_tile(
                        position,
                        half_extents,
                        #[trigger] tiles@[j],
                    ),
                decreases n - i,
            {
                if probe_overlaps_tile(position, half_extents, &tiles[i]) {
                    proof {
                        assert(0 <= i < tiles@.len() && probe_hits_tile(
                            position,
                            half_extents,
                            tiles@[i as int],
                        ));
                    }
                    return true;
                }
                i = i + 1;
            }
            false
        },
        _ => false,
    }
}

/// An entity with a box collider resting exactly on the surface of a box
/// terrain tile — zero gap between the collider's bottom edge and the tile's
/// top edge, with horizontal overlap — is grounded.
pub proof fn lemma_resting_on_surface_is_grounded(
    position: Vec2I,
    half_extents: Vec2I,
    tiles: Seq<TerrainTile>,
    i: int,
)
    requires
        0 <= i < tiles.len(),
        half_extents.y >= 0,
        tiles[i].shape matches Shape::Box { half_extents: th } && {
            &&& th.x >= 0
            &&& th.y >= 0
            &&& tiles[i].position.y + th.y == position.y - half_extents.y
            &&& tiles[i].position.x - th.x <= position.x + half_extents.x
            &&& position.x - half_extents.x <= tiles[i].position.x + th.x
        },
    ensures
        grounded_spec(position, Shape::Box { half_extents }, tiles),
{
    assert(probe_hits_tile(position, half_extents, tiles[i]));
}

/// An entity whose collider bottom is separated from the top of every tile by
/// more than the probe's reach — or that has no horizontal overlap with the
/// tile, or lies below it — is not grounded, whatever its collider shape.
pub proof fn lemma_airborne_is_not_grounded(
    position: Vec2I,
    collider: Shape,
    tiles: Seq<TerrainTile>,
)
    requires
        forall|i: int|
            0 <= i < tiles.len() ==> match tile_solid_bounds(#[trigger] tiles[i]) {
                Some(r) => {
                    ||| r.hi_y < probe_rect(position, spec_box_half(collider)).lo_y
                    ||| r.lo_y > probe_rect(position, spec_box_half(collider)).hi_y
                    ||| r.hi_x < probe_rect(position, spec_box_half(collider)).lo_x
                    ||| r.lo_x > probe_rect(position, spec_box_half(collider)).hi_x
                },
                None => true,
            },
    ensures
        !grounded_spec(position, collider, tiles),
{
}

/// The half extents of a box collider; zero for other shapes.
pub open spec fn spec_box_half(collider: Shape) -> Vec2I {
    match collider {
        Shape::Box { half_extents } => half_extents,
        _ => Vec2I { x: 0, y: 0 },
    }
}

} // verus!
