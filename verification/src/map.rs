//! Terrain model: tile shapes, the terrain tile registry, and the mapping
//! from level-grid cell values to static colliders.

use vstd::prelude::*;

use crate::physics::{CollisionGroups, terrain_collision_groups};
use crate::vec2::Vec2I;

verus! {

/// Side length of one square terrain tile, in subunits: 8 world units.
pub const TILE_SIZE: i64 = 8_000_000;

/// Half of a tile's side length, in subunits.
pub const HALF_TILE: i64 = 4_000_000;

/// Level-grid cell value of plain terrain.
pub const TERRAIN_CELL: i32 = 1;

/// Level-grid cell value of background flora.
pub const FLORA_CELL: i32 = 2;

/// Level-grid cell value of decorative top tiles.
pub const TILE_ON_TOP_CELL: i32 = 3;

/// Level-grid cell value of decorative plant feet.
pub const PLANT_FOOT_CELL: i32 = 4;

/// Level-grid cell value of platforms.
pub const PLATFORM_CELL: i32 = 5;

/// Level-grid cell value of decorative chains.
pub const CHAIN_CELL: i32 = 6;

/// Level-grid cell value of patterned platforms.
pub const PLATFORM_PATTERN_CELL: i32 = 7;

/// Level-grid cell value of uphill slope terrain.
pub const UPHILL_TERRAIN_CELL: i32 = 8;

/// Level-grid cell value of downhill slope terrain.
pub const DOWNHILL_TERRAIN_CELL: i32 = 9;

/// Geometric collider shape of an entity, as a tagged variant: an
/// axis-aligned box given by its half extents, a triangle given by its
/// vertices relative to the entity's position, or an unrecognized shape.
/// Consumers match exhaustively; the unrecognized case is the documented
/// degraded fallback, not an error.
#[derive(Clone, Copy, Debug, PartialEq, Eq, Structural)]
pub enum Shape {
    Box { half_extents: Vec2I },
    Triangle { a: Vec2I, b: Vec2I, c: Vec2I },
    Unknown,
}

/// Marker of solid terrain entities.
#[derive(Clone, Copy, Debug, PartialEq, Eq, Structural)]
pub struct Terrain;

/// Marker of purely decorative background entities.
#[derive(Clone, Copy, Debug, PartialEq, Eq, Structural)]
pub struct Background;

/// One alive terrain tile: its identity in the scene, the world position of
/// its center, and its collider shape.
#[derive(Clone, Copy, Debug, PartialEq, Eq, Structural)]
pub struct TerrainTile {
    pub id: u64,
    pub position: Vec2I,
    pub shape: Shape,
}

/// Static collider data a terrain cell spawns with: its shape, its friction
/// coefficient in thousandths, whether its rotation is locked, and its
/// collision groups.
#[derive(Clone, Copy, Debug, PartialEq, Eq, Structural)]
pub struct StaticColliderBundle {
    pub collider: Shape,
    pub friction: i64,
    pub rotation_locked: bool,
    pub collision_groups: CollisionGroups,
}

/// The box collider of a flat terrain tile.
pub open spec fn flat_tile_shape() -> Shape {
    Shape::Box { half_extents: Vec2I { x: HALF_TILE, y: HALF_TILE } }
}

/// The triangle collider of an uphill slope tile: rising from its bottom-left
/// corner to its top-right corner.
pub open spec fn uphill_tile_shape() -> Shape {
    Shape::Triangle {
        a: Vec2I { x: (-HALF_TILE) as i64, y: (-HALF_TILE) as i64 },
        b: Vec2I { x: HALF_TILE, y: HALF_TILE },
        c: Vec2I { x: HALF_TILE, y: (-HALF_TILE) as i64 },
    }
}

/// The triangle collider of a downhill slope tile: falling from its top-left
/// corner to its bottom-right corner.
pub open spec fn downhill_tile_shape() -> Shape {
    Shape::Triangle {
        a: Vec2I { x: (-HALF_TILE) as i64, y: (-HALF_TILE) as i64 },
        b: Vec2I { x: HALF_TILE, y: (-HALF_TILE) as i64 },
        c: Vec2I { x: (-HALF_TILE) as i64, y: HALF_TILE },
    }
}

impl StaticColliderBundle {
    /// Collision groups of static terrain.
    pub fn collision_groups() -> (g: CollisionGroups)
        ensures
            g == (CollisionGroups { memberships: 2u32, filters: 5u32 }),
    {
        proof {
            assert(1u32 | 4u32 == 5u32) by (bit_vector);
        }
        terrain_collision_groups()
    }

    /// The inert bundle spawned for a cell that carries no solid collider.
    pub fn default() -> (b: StaticColliderBundle)
        ensures
            b.collider == Shape::Unknown,
            b.friction == 0,
            !b.rotation_locked,
            b.collision_groups == (CollisionGroups { memberships: 0u32, filters: 0u32 }),
    {
        StaticColliderBundle {
            collider: Shape::Unknown,
            friction: 0,
            rotation_locked: false,
            collision_groups: CollisionGroups { memberships: 0, filters: 0 },
        }
    }

    /// Static collider spawned for a level-grid cell: flat terrain, platforms
    /// and patterned platforms get a full-tile box, the two slope kinds get
    /// their triangle, and every other cell value gets the inert default.
    pub fn from_cell_value(value: i32) -> (b: StaticColliderBundle)
        ensures
            (value == TERRAIN_CELL || value == PLATFORM_CELL || value == PLATFORM_PATTERN_CELL)
                ==> b == (StaticColliderBundle {
                collider: flat_tile_shape(),
                friction: 0,
                rotation_locked: true,
                collision_groups: CollisionGroups { memberships: 2u32, filters: 5u32 },
            }),
            value == UPHILL_TERRAIN_CELL ==> b == (StaticColliderBundle {
                collider: uphill_tile_shape(),
                friction: 0,
                rotation_locked: true,
                collision_groups: CollisionGroups { memberships: 2u32, filters: 5u32 },
            }),
            value == DOWNHILL_TERRAIN_CELL ==> b == (StaticColliderBundle {
                collider: downhill_tile_shape(),
                friction: 0,
                rotation_locked: true,
                collision_groups: CollisionGroups { memberships: 2u32, filters: 5u32 },
            }),
            !(value == TERRAIN_CELL || value == PLATFORM_CELL || value == PLATFORM_PATTERN_CELL
                || value == UPHILL_TERRAIN_CELL || value == DOWNHILL_TERRAIN_CELL) ==> b
                == StaticColliderBundle::default_spec(),
    {
        let collision_groups = StaticColliderBundle::collision_groups();
        if value == TERRAIN_CELL || value == PLATFORM_CELL || value == PLATFORM_PATTERN_CELL {
            StaticColliderBundle {
                collider: Shape::Box { half_extents: Vec2I { x: HALF_TILE, y: HALF_TILE } },
                friction: 0,
                rotation_locked: true,
                collision_groups,
            }
        } else if value == UPHILL_TERRAIN_CELL {
            StaticColliderBundle {
                collider: Shape::Triangle {
                    a: Vec2I { x: -HALF_TILE, y: -HALF_TILE },
                    b: Vec2I { x: HALF_TILE, y: HALF_TILE },
                    c: Vec2I { x: HALF_TILE, y: -HALF_TILE },
                },
                friction: 0,
                rotation_locked: true,
                collision_groups,
            }
        } else if value == DOWNHILL_TERRAIN_CELL {
            StaticColliderBundle {
                collider: Shape::Triangle {
                    a: Vec2I { x: -HALF_TILE, y: -HALF_TILE },
                    b: Vec2I { x: HALF_TILE, y: -HALF_TILE },
                    c: Vec2I { x: -HALF_TILE, y: HALF_TILE },
                },
                friction: 0,
                rotation_locked: true,
                collision_groups,
            }
        } else {
            StaticColliderBundle::default()
        }
    }

    /// What `default` returns, as a value.
    pub open spec fn default_spec() -> StaticColliderBundle {
        StaticColliderBundle {
            collider: Shape::Unknown,
            friction: 0,
            rotation_locked: false,
            collision_groups: CollisionGroups { memberships: 0u32, filters: 0u32 },
        }
    }
}

/// Everything a flat terrain tile spawns with: its static collider, the
/// terrain marker, and its display name.
#[derive(Debug)]
pub struct TerrainBundle {
    pub static_collider_bundle: StaticColliderBundle,
    pub terrain: Terrain,
    pub name: String,
}

/// Everything an uphill slope tile spawns with.
#[derive(Debug)]
pub struct UphillTerrainBundle {
    pub uphill_collider_bundle: StaticColliderBundle,
    pub terrain: Terrain,
    pub name: String,
}

/// Everything a downhill slope tile spawns with.
#[derive(Debug)]
pub struct DownhillTerrainBundle {
    pub downhill_collider_bundle: StaticColliderBundle,
    pub terrain: Terrain,
    pub name: String,
}

impl TerrainBundle {
    /// A flat terrain tile: the full-tile box collider under the terrain
    /// name.
    pub fn default() -> (b: TerrainBundle)
        ensures
            b.static_collider_bundle == (StaticColliderBundle {
                collider: flat_tile_shape(),
                friction: 0,
                rotation_locked: true,
                collision_groups: CollisionGroups { memberships: 2u32, filters: 5u32 },
            }),
            b.name@ == "Terrain"@,
    {
        TerrainBundle {
            static_collider_bundle: StaticColliderBundle::from_cell_value(TERRAIN_CELL),
            terrain: Terrain,
            name: "Terrain".to_owned(),
        }
    }
}

impl UphillTerrainBundle {
    /// An uphill slope tile: the rising triangle collider under the uphill
    /// name.
    pub fn default() -> (b: UphillTerrainBundle)
        ensures
            b.uphill_collider_bundle == (StaticColliderBundle {
                collider: uphill_tile_shape(),
                friction: 0,
                rotation_locked: true,
                collision_groups: CollisionGroups { memberships: 2u32, filters: 5u32 },
            }),
            b.name@ == "Uphill"@,
    {
        UphillTerrainBundle {
            uphill_collider_bundle: StaticColliderBundle::from_cell_value(UPHILL_TERRAIN_CELL),
            terrain: Terrain,
            name: "Uphill".to_owned(),
        }
    }
}

impl DownhillTerrainBundle {
    /// A downhill slope tile: the falling triangle collider under the
    /// downhill name.
    pub fn default() -> (b: DownhillTerrainBundle)
        ensures
            b.downhill_collider_bundle == (StaticColliderBundle {
                collider: downhill_tile_shape(),
                friction: 0,
                rotation_locked: true,
                collision_groups: CollisionGroups { memberships: 2u32, filters: 5u32 },
            }),
            b.name@ == "Downhill"@,
    {
        DownhillTerrainBundle {
            downhill_collider_bundle: StaticColliderBundle::from_cell_value(
                DOWNHILL_TERRAIN_CELL,
            ),
            terrain: Terrain,
            name: "Downhill".to_owned(),
        }
    }
}

} // verus!
