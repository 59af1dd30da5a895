//! A self-contained axis-aligned collision tester: colliders given by their
//! min/max corners, refreshed from the scene-graph position each tick, with
//! a tolerant per-corner overlap test.

use vstd::prelude::*;

use crate::vec2::Vec2I;

verus! {

/// Slack of the tolerant range test, in subunits: 5 world units.
pub const PHYS_TOLERANCE: i64 = 5_000_000;

/// Movement state of this collision layer: just a speed.
#[derive(Clone, Copy, Debug, PartialEq, Eq, Structural)]
pub struct Moveable {
    pub speed: i64,
}

/// How a collider participates in collisions.
#[derive(Clone, Copy, Debug, PartialEq, Eq, Structural)]
pub enum ColliderType {
    Static,
}

/// An axis-aligned collider: its kind, its current min and max corners, and
/// its half extents around the owning entity's position.
#[derive(Clone, Copy, Debug, PartialEq, Eq, Structural)]
pub struct Collider {
    pub col_type: ColliderType,
    pub min: Vec2I,
    pub max: Vec2I,
    pub extent: Vec2I,
}

/// A coordinate lies between the two bounds, within `PHYS_TOLERANCE` slack
/// on both sides.
pub open spec fn in_range_phys(v: int, low: int, high: int) -> bool {
    low - v <= PHYS_TOLERANCE && v - high <= PHYS_TOLERANCE
}

/// `self`'s top-left corner touches `other`, within tolerance.
pub open spec fn top_left_collides(a: Collider, b: Collider) -> bool {
    in_range_phys(a.min.x as int, b.min.x as int, b.max.x as int) && in_range_phys(
        a.max.y as int,
        b.min.y as int,
        b.max.y as int,
    )
}

/// `self`'s top-right corner touches `other`, within tolerance.
pub open spec fn top_right_collides(a: Collider, b: Collider) -> bool {
    in_range_phys(a.max.x as int, b.min.x as int, b.max.x as int) && in_range_phys(
        a.max.y as int,
        b.min.y as int,
        b.max.y as int,
    )
}

/// `self`'s bottom-left corner touches `other`, within tolerance.
pub open spec fn bot_left_collides(a: Collider, b: Collider) -> bool {
    in_range_phys(a.min.x as int, b.min.x as int, b.max.x as int) && in_range_phys(
        a.min.y as int,
        b.min.y as int,
        b.max.y as int,
    )
}

/// `self`'s bottom-right corner touches `other`, within tolerance.
pub open spec fn bot_right_collides(a: Collider, b: Collider) -> bool {
    in_range_phys(a.min.y as int, b.min.y as int, b.max.y as int) && in_range_phys(
        a.max.x as int,
        b.min.x as int,
        b.max.x as int,
    )
}

impl Collider {
    /// A static collider collapsed to the origin.
    pub fn default() -> (c: Collider)
        ensures
            c == (Collider {
                col_type: ColliderType::Static,
                min: Vec2I { x: 0, y: 0 },
                max: Vec2I { x: 0, y: 0 },
                extent: Vec2I { x: 0, y: 0 },
            }),
    {
        Collider {
            col_type: ColliderType::Static,
            min: Vec2I { x: 0, y: 0 },
            max: Vec2I { x: 0, y: 0 },
            extent: Vec2I { x: 0, y: 0 },
        }
    }

    /// The two colliders touch: some corner of `self` lies in `other`,
    /// within tolerance.
    pub fn collide(&self, other: &Collider) -> (hit: bool)
        requires
            self.min.in_range(),
            self.max.in_range(),
            other.min.in_range(),
            other.max.in_range(),
        ensures
            hit == (top_left_collides(*self, *other) || top_right_collides(*self, *other)
                || bot_right_collides(*self, *other) || bot_left_collides(*self, *other)),
    {
        let (top_left, top_right, bot_right, bot_left) = self.collide_corners(other);
        top_left || top_right || bot_right || bot_left
    }

    /// The per-corner results of the tolerant overlap test, as
    /// (top-left, top-right, bottom-right, bottom-left).
    pub fn collide_corners(&self, other: &Collider) -> (corners: (bool, bool, bool, bool))
        requires
            self.min.in_range(),
            self.max.in_range(),
            other.min.in_range(),
            other.max.in_range(),
        ensures
            corners.0 == top_left_collides(*self, *other),
            corners.1 == top_right_collides(*self, *other),
            corners.2 == bot_right_collides(*self, *other),
            corners.3 == bot_left_collides(*self, *other),
    {
        let top_left_collide = in_range_phys_i64(self.min.x, other.min.x, other.max.x)
            && in_range_phys_i64(self.max.y, other.min.y, other.max.y);
        let top_right_collide = in_range_phys_i64(self.max.x, other.min.x, other.max.x)
            && in_range_phys_i64(self.max.y, other.min.y, other.max.y);
        let bot_left_collide = in_range_phys_i64(self.min.x, other.min.x, other.max.x)
            && in_range_phys_i64(self.min.y, other.min.y, other.max.y);
        let bot_right_collide = in_range_phys_i64(self.min.y, other.min.y, other.max.y)
            && in_range_phys_i64(self.max.x, other.min.x, other.max.x);
        (top_left_collide, top_right_collide, bot_right_collide, bot_left_collide)
    }
}

/// The tolerant range test on fixed-point values.
fn in_range_phys_i64(v: i64, low: i64, high: i64) -> (r: bool)
    requires
        crate::vec2::scalar_in_range(v as int),
        crate::vec2::scalar_in_range(low as int),
        crate::vec2::scalar_in_range(high as int),
    ensures
        r == in_range_phys(v as int, low as int, high as int),
{
    low - v <= PHYS_TOLERANCE && v - high <= PHYS_TOLERANCE
}

/// Refresh a collider from its owner's world position: its corners move to
/// `position ± extent`. The write is skipped when the min corner is already
/// current; the max corner is then left as it was.
pub fn update_collider(position: Vec2I, collider: &mut Collider)
    requires
        position.in_range(),
        old(collider).extent.in_range(),
    ensures
        ({
            let min = Vec2I {
                x: (position.x - old(collider).extent.x) as i64,
                y: (position.y - old(collider).extent.y) as i64,
            };
            let max = Vec2I {
                x: (position.x + old(collider).extent.x) as i64,
                y: (position.y + old(collider).extent.y) as i64,
            };
            if min != old(collider).min {
                *final(collider) == (Collider { min, max, ..*old(collider) })
            } else {
                *final(collider) == *old(collider)
            }
        }),
{
    let min = Vec2I { x: position.x - collider.extent.x, y: position.y - collider.extent.y };
    let max = Vec2I { x: position.x + collider.extent.x, y: position.y + collider.extent.y };
    if min.x != collider.min.x || min.y != collider.min.y {
        collider.min = min;
        collider.max = max;
    }
}

} // verus!
