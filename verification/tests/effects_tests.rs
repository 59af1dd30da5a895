use arcade_game::combat::Projectile;
use arcade_game::effects::{
    deal_projectile_effect, despawn_nearby_tiles, CollisionEvent, CombatScene, ProjectileEntity,
};
use arcade_game::map::{Shape, TerrainTile, HALF_TILE, TILE_SIZE};
use arcade_game::vec2::Vec2I;

fn box_tile(id: u64, x: i64, y: i64) -> TerrainTile {
    TerrainTile {
        id,
        position: Vec2I { x, y },
        shape: Shape::Box {
            half_extents: Vec2I {
                x: HALF_TILE,
                y: HALF_TILE,
            },
        },
    }
}

/// A 5-by-5 block of contiguous tiles centered on the origin, with
/// identifiers 1 through 25; the center tile has identifier 13.
fn five_by_five() -> Vec<TerrainTile> {
    let mut tiles = Vec::new();
    let mut id = 1u64;
    for j in -2i64..=2 {
        for i in -2i64..=2 {
            tiles.push(box_tile(id, i * TILE_SIZE, j * TILE_SIZE));
            id += 1;
        }
    }
    tiles
}

fn projectile_entity(id: u64, fx_radius: u8) -> ProjectileEntity {
    ProjectileEntity {
        id,
        projectile: Projectile { fx_radius },
    }
}

#[test]
fn radius_one_strike_despawns_a_three_by_three_block() {
    let mut scene = CombatScene {
        tiles: five_by_five(),
        projectiles: vec![projectile_entity(100, 1)],
    };
    let events = vec![CollisionEvent::Started(13, 100)];
    deal_projectile_effect(&mut scene, &events);
    // 25 tiles minus the 3-by-3 block around the center.
    assert_eq!(scene.tiles.len(), 16);
    // Every survivor's center lies outside one tile-width of the origin.
    for t in &scene.tiles {
        assert!(t.position.x.abs() > TILE_SIZE || t.position.y.abs() > TILE_SIZE);
    }
    // The projectile itself despawned.
    assert!(scene.projectiles.is_empty());
}

#[test]
fn swapped_event_order_resolves_the_same_strike() {
    let mut scene = CombatScene {
        tiles: five_by_five(),
        projectiles: vec![projectile_entity(100, 1)],
    };
    // The projectile comes first in the pair.
    let events = vec![CollisionEvent::Started(100, 13)];
    deal_projectile_effect(&mut scene, &events);
    assert_eq!(scene.tiles.len(), 16);
    assert!(scene.projectiles.is_empty());
}

#[test]
fn duplicate_events_despawn_exactly_once() {
    let mut scene = CombatScene {
        tiles: five_by_five(),
        projectiles: vec![projectile_entity(100, 1)],
    };
    let events = vec![
        CollisionEvent::Started(13, 100),
        CollisionEvent::Started(13, 100),
    ];
    deal_projectile_effect(&mut scene, &events);
    // The second event names entities already gone: a safe no-op.
    assert_eq!(scene.tiles.len(), 16);
    assert!(scene.projectiles.is_empty());
}

#[test]
fn radius_zero_strike_despawns_only_the_struck_tile() {
    let mut scene = CombatScene {
        tiles: five_by_five(),
        projectiles: vec![projectile_entity(100, 0)],
    };
    let events = vec![CollisionEvent::Started(13, 100)];
    deal_projectile_effect(&mut scene, &events);
    assert_eq!(scene.tiles.len(), 24);
    assert!(scene.tiles.iter().all(|t| t.id != 13));
}

#[test]
fn non_box_tile_falls_back_to_exact_position_despawn() {
    let mut tiles = five_by_five();
    tiles.push(TerrainTile {
        id: 26,
        position: Vec2I {
            x: 5 * TILE_SIZE,
            y: 0,
        },
        shape: Shape::Triangle {
            a: Vec2I {
                x: -HALF_TILE,
                y: -HALF_TILE,
            },
            b: Vec2I {
                x: HALF_TILE,
                y: HALF_TILE,
            },
            c: Vec2I {
                x: HALF_TILE,
                y: -HALF_TILE,
            },
        },
    });
    let mut scene = CombatScene {
        tiles,
        projectiles: vec![projectile_entity(100, 1)],
    };
    let events = vec![CollisionEvent::Started(26, 100)];
    deal_projectile_effect(&mut scene, &events);
    // Only the struck slope tile went, despite the radius.
    assert_eq!(scene.tiles.len(), 25);
    assert!(scene.tiles.iter().all(|t| t.id != 26));
    assert!(scene.projectiles.is_empty());
}

#[test]
fn collision_stop_events_do_nothing() {
    let mut scene = CombatScene {
        tiles: five_by_five(),
        projectiles: vec![projectile_entity(100, 1)],
    };
    let events = vec![CollisionEvent::Stopped(13, 100)];
    deal_projectile_effect(&mut scene, &events);
    assert_eq!(scene.tiles.len(), 25);
    assert_eq!(scene.projectiles.len(), 1);
}

#[test]
fn events_naming_unknown_entities_do_nothing() {
    let mut scene = CombatScene {
        tiles: five_by_five(),
        projectiles: vec![projectile_entity(100, 1)],
    };
    let events = vec![
        CollisionEvent::Started(77, 78),
        CollisionEvent::Started(13, 77),
        CollisionEvent::Started(100, 100),
    ];
    deal_projectile_effect(&mut scene, &events);
    assert_eq!(scene.tiles.len(), 25);
    assert_eq!(scene.projectiles.len(), 1);
}

#[test]
fn two_projectiles_in_one_tick_resolve_independently() {
    // Two projectiles strike opposite corners in the same tick.
    let mut scene = CombatScene {
        tiles: five_by_five(),
        projectiles: vec![projectile_entity(100, 1), projectile_entity(101, 1)],
    };
    // Corner tiles: id 1 at (-2,-2), id 25 at (2,2).
    let events = vec![
        CollisionEvent::Started(1, 100),
        CollisionEvent::Started(25, 101),
    ];
    deal_projectile_effect(&mut scene, &events);
    // Each corner strike removes a 2-by-2 block (the rest of its 3-by-3
    // area lies outside the grid).
    assert_eq!(scene.tiles.len(), 25 - 4 - 4);
    assert!(scene.projectiles.is_empty());
}

#[test]
fn despawn_region_bounds_are_inclusive() {
    // A lone neighbor exactly one tile-width away despawns with the struck
    // tile; one a subunit further survives.
    let struck = box_tile(1, 0, 0);
    let at_bound = box_tile(2, TILE_SIZE, 0);
    let beyond = box_tile(3, TILE_SIZE + 1, 0);
    let mut tiles = vec![struck, at_bound, beyond];
    despawn_nearby_tiles(
        &mut tiles,
        Vec2I { x: 0, y: 0 },
        Shape::Box {
            half_extents: Vec2I {
                x: HALF_TILE,
                y: HALF_TILE,
            },
        },
        1,
    );
    assert_eq!(tiles.len(), 1);
    assert_eq!(tiles[0].id, 3);
}

#[test]
fn despawn_on_missing_position_is_a_no_op() {
    let mut tiles = five_by_five();
    despawn_nearby_tiles(
        &mut tiles,
        Vec2I {
            x: 99 * TILE_SIZE,
            y: 0,
        },
        Shape::Unknown,
        1,
    );
    assert_eq!(tiles.len(), 25);
}
