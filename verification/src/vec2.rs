//! Fixed-point 2D vectors.
//!
//! Coordinates, velocities and lengths are `i64` values in micro-units:
//! one world unit is `UNIT` subunits. Every value the simulation works on is
//! kept within `COORD_LIMIT`, which leaves ample headroom in `i64` for the
//! sums and small products the systems form.

use vstd::prelude::*;

verus! {

/// Number of subunits in one world unit.
pub const UNIT: i64 = 1_000_000;

/// Bound on every coordinate, length and speed the simulation handles,
/// in subunits. Small enough that sums and the products formed by the
/// effect-area arithmetic stay far away from `i64` overflow.
pub const COORD_LIMIT: i64 = 1_000_000_000_000_000;

/// A scalar is in range when its magnitude stays within `COORD_LIMIT`.
pub open spec fn scalar_in_range(x: int) -> bool {
    -COORD_LIMIT <= x <= COORD_LIMIT
}

/// A 2D vector in fixed-point subunits.
#[derive(Clone, Copy, Debug, PartialEq, Eq, Structural)]
pub struct Vec2I {
    pub x: i64,
    pub y: i64,
}

impl Vec2I {
    /// Both components in range.
    pub open spec fn in_range(self) -> bool {
        scalar_in_range(self.x as int) && scalar_in_range(self.y as int)
    }
}

} // verus!
