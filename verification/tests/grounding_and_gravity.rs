use arcade_game::grounding::is_grounded;
use arcade_game::map::{Shape, TerrainTile, HALF_TILE, TILE_SIZE};
use arcade_game::movement::{apply_gravity, apply_jump, JUMP_IMPULSE, JUMP_NUDGE};
use arcade_game::physics::{Velocity, GRAVITY_PER_MS};
use arcade_game::player::CHARACTER_HALF_EXTENT;
use arcade_game::vec2::Vec2I;

fn box_tile(id: u64, x: i64, y: i64) -> TerrainTile {
    TerrainTile {
        id,
        position: Vec2I { x, y },
        shape: Shape::Box {
            half_extents: Vec2I {
                x: HALF_TILE,
                y: HALF_TILE,
            },
        },
    }
}

fn player_shape() -> Shape {
    Shape::Box {
        half_extents: Vec2I {
            x: CHARACTER_HALF_EXTENT,
            y: CHARACTER_HALF_EXTENT,
        },
    }
}

#[test]
fn resting_exactly_on_surface_is_grounded() {
    // Entity bottom at -8 units; tile top at -12 + 4 = -8 units: zero gap.
    let tiles = vec![box_tile(1, 0, -12_000_000)];
    assert!(is_grounded(
        Vec2I { x: 0, y: 0 },
        &player_shape(),
        &tiles
    ));
}

#[test]
fn airborne_beyond_probe_distance_is_not_grounded() {
    // Tile top at -9 units: a full unit below the entity's bottom, far more
    // than the probe's reach of 0.11 units.
    let tiles = vec![box_tile(1, 0, -13_000_000)];
    assert!(!is_grounded(
        Vec2I { x: 0, y: 0 },
        &player_shape(),
        &tiles
    ));
}

#[test]
fn gap_within_probe_distance_is_grounded() {
    // Tile top 0.05 units below the entity's bottom: within the probe sweep.
    let tiles = vec![box_tile(1, 0, -12_050_000)];
    assert!(is_grounded(
        Vec2I { x: 0, y: 0 },
        &player_shape(),
        &tiles
    ));
}

#[test]
fn horizontally_disjoint_tile_does_not_ground() {
    // Tile centered 16 units to the side: no horizontal overlap with the
    // probe (8 + 4 = 12 units of combined half extent).
    let tiles = vec![box_tile(1, 16_000_000, -12_000_000)];
    assert!(!is_grounded(
        Vec2I { x: 0, y: 0 },
        &player_shape(),
        &tiles
    ));
}

#[test]
fn non_box_collider_is_never_grounded() {
    let tiles = vec![box_tile(1, 0, -12_000_000)];
    assert!(!is_grounded(Vec2I { x: 0, y: 0 }, &Shape::Unknown, &tiles));
}

#[test]
fn slope_tile_grounds_by_its_bounds() {
    // An uphill slope tile directly below: its bounding box top edge meets
    // the entity's bottom.
    let tiles = vec![TerrainTile {
        id: 1,
        position: Vec2I {
            x: 0,
            y: -12_000_000,
        },
        shape: Shape::Triangle {
            a: Vec2I {
                x: -HALF_TILE,
                y: -HALF_TILE,
            },
            b: Vec2I {
                x: HALF_TILE,
                y: HALF_TILE,
            },
            c: Vec2I {
                x: HALF_TILE,
                y: -HALF_TILE,
            },
        },
    }];
    assert!(is_grounded(
        Vec2I { x: 0, y: 0 },
        &player_shape(),
        &tiles
    ));
}

#[test]
fn empty_registry_grounds_nothing() {
    let tiles: Vec<TerrainTile> = Vec::new();
    assert!(!is_grounded(
        Vec2I { x: 0, y: 0 },
        &player_shape(),
        &tiles
    ));
}

#[test]
fn airborne_velocity_decreases_by_gravity_each_tick() {
    let mut velocity = Velocity {
        linvel: Vec2I { x: 7, y: 0 },
        angvel: 3,
    };
    apply_gravity(&mut velocity, false, 1, 16);
    assert_eq!(velocity.linvel.y, -GRAVITY_PER_MS * 16);
    assert_eq!(velocity.linvel.y, -156_800);
    assert_eq!(velocity.linvel.x, 7);
    assert_eq!(velocity.angvel, 3);
    apply_gravity(&mut velocity, false, 1, 16);
    assert_eq!(velocity.linvel.y, -313_600);
}

#[test]
fn gravity_scale_multiplies_the_fall() {
    let mut velocity = Velocity {
        linvel: Vec2I { x: 0, y: 0 },
        angvel: 0,
    };
    apply_gravity(&mut velocity, false, 3, 10);
    assert_eq!(velocity.linvel.y, -GRAVITY_PER_MS * 3 * 10);
}

#[test]
fn grounded_body_has_vertical_velocity_zeroed() {
    let mut velocity = Velocity {
        linvel: Vec2I {
            x: 5_000,
            y: -250_000,
        },
        angvel: 0,
    };
    apply_gravity(&mut velocity, true, 1, 16);
    assert_eq!(velocity.linvel.y, 0);
    assert_eq!(velocity.linvel.x, 5_000);
}

#[test]
fn jump_only_fires_while_grounded() {
    let mut velocity = Velocity {
        linvel: Vec2I { x: 2, y: 0 },
        angvel: 0,
    };
    let mut position = Vec2I { x: 10, y: 20 };
    apply_jump(&mut velocity, &mut position, false, true);
    assert_eq!(velocity.linvel.y, 0);
    assert_eq!(position, Vec2I { x: 10, y: 20 });

    apply_jump(&mut velocity, &mut position, true, false);
    assert_eq!(velocity.linvel.y, 0);

    apply_jump(&mut velocity, &mut position, true, true);
    assert_eq!(velocity.linvel.y, JUMP_IMPULSE);
    assert_eq!(velocity.linvel.x, 2);
    assert_eq!(position, Vec2I { x: 10, y: 20 + JUMP_NUDGE });
}

#[test]
fn tile_size_is_eight_units() {
    assert_eq!(TILE_SIZE, 8_000_000);
    assert_eq!(HALF_TILE, 4_000_000);
}
