use arcade_game::map::{
    DownhillTerrainBundle, Shape, StaticColliderBundle, TerrainBundle, UphillTerrainBundle,
    CHAIN_CELL, DOWNHILL_TERRAIN_CELL, FLORA_CELL, HALF_TILE, PLANT_FOOT_CELL, PLATFORM_CELL,
    PLATFORM_PATTERN_CELL, TERRAIN_CELL, TILE_ON_TOP_CELL, UPHILL_TERRAIN_CELL,
};
use arcade_game::physics::{
    CollisionGroups, DynamicColliderBundle, RigidBodyKind, PLAYER_GROUP, PROJECTILE_GROUP,
    TERRAIN_GROUP,
};
use arcade_game::player::CHARACTER_HALF_EXTENT;
use arcade_game::rigid_body::{update_collider, Collider, ColliderType, PHYS_TOLERANCE};
use arcade_game::vec2::Vec2I;

#[test]
fn solid_cells_get_the_full_tile_box() {
    for value in [TERRAIN_CELL, PLATFORM_CELL, PLATFORM_PATTERN_CELL] {
        let b = StaticColliderBundle::from_cell_value(value);
        assert_eq!(
            b.collider,
            Shape::Box {
                half_extents: Vec2I {
                    x: HALF_TILE,
                    y: HALF_TILE
                }
            }
        );
        assert!(b.rotation_locked);
        assert_eq!(b.friction, 0);
        assert_eq!(
            b.collision_groups,
            CollisionGroups {
                memberships: TERRAIN_GROUP,
                filters: PLAYER_GROUP | PROJECTILE_GROUP
            }
        );
    }
}

#[test]
fn slope_cells_get_their_triangles() {
    let up = StaticColliderBundle::from_cell_value(UPHILL_TERRAIN_CELL);
    assert_eq!(
        up.collider,
        Shape::Triangle {
            a: Vec2I {
                x: -HALF_TILE,
                y: -HALF_TILE
            },
            b: Vec2I {
                x: HALF_TILE,
                y: HALF_TILE
            },
            c: Vec2I {
                x: HALF_TILE,
                y: -HALF_TILE
            },
        }
    );
    let down = StaticColliderBundle::from_cell_value(DOWNHILL_TERRAIN_CELL);
    assert_eq!(
        down.collider,
        Shape::Triangle {
            a: Vec2I {
                x: -HALF_TILE,
                y: -HALF_TILE
            },
            b: Vec2I {
                x: HALF_TILE,
                y: -HALF_TILE
            },
            c: Vec2I {
                x: -HALF_TILE,
                y: HALF_TILE
            },
        }
    );
}

#[test]
fn decorative_cells_get_no_collider() {
    for value in [FLORA_CELL, TILE_ON_TOP_CELL, PLANT_FOOT_CELL, CHAIN_CELL, 0, -1, 99] {
        let b = StaticColliderBundle::from_cell_value(value);
        assert_eq!(b.collider, Shape::Unknown);
        assert!(!b.rotation_locked);
    }
}

#[test]
fn terrain_bundles_carry_their_names_and_shapes() {
    let flat = TerrainBundle::default();
    assert_eq!(flat.name.as_str(), "Terrain");
    assert!(matches!(
        flat.static_collider_bundle.collider,
        Shape::Box { .. }
    ));
    let up = UphillTerrainBundle::default();
    assert_eq!(up.name.as_str(), "Uphill");
    assert!(matches!(
        up.uphill_collider_bundle.collider,
        Shape::Triangle { .. }
    ));
    let down = DownhillTerrainBundle::default();
    assert_eq!(down.name.as_str(), "Downhill");
    assert!(matches!(
        down.downhill_collider_bundle.collider,
        Shape::Triangle { .. }
    ));
}

#[test]
fn the_player_identifier_gets_the_player_collider() {
    let ident: String = "Player".to_owned();
    let b = DynamicColliderBundle::from_identifier(&ident);
    assert_eq!(
        b.collider,
        Shape::Box {
            half_extents: Vec2I {
                x: CHARACTER_HALF_EXTENT,
                y: CHARACTER_HALF_EXTENT
            }
        }
    );
    assert_eq!(b.rigid_body, RigidBodyKind::Dynamic);
    assert!(b.rotation_locked);
    assert_eq!(b.gravity_scale, 1);
    assert_eq!(
        b.collision_groups,
        CollisionGroups {
            memberships: PLAYER_GROUP,
            filters: TERRAIN_GROUP
        }
    );

    let other: String = "Crate".to_owned();
    let d = DynamicColliderBundle::from_identifier(&other);
    assert_eq!(d, DynamicColliderBundle::default());
}

#[test]
fn overlapping_colliders_collide() {
    let a = Collider {
        col_type: ColliderType::Static,
        min: Vec2I { x: 0, y: 0 },
        max: Vec2I {
            x: 8_000_000,
            y: 8_000_000,
        },
        extent: Vec2I {
            x: 4_000_000,
            y: 4_000_000,
        },
    };
    let b = Collider {
        col_type: ColliderType::Static,
        min: Vec2I {
            x: 6_000_000,
            y: 6_000_000,
        },
        max: Vec2I {
            x: 14_000_000,
            y: 14_000_000,
        },
        extent: Vec2I {
            x: 4_000_000,
            y: 4_000_000,
        },
    };
    assert!(a.collide(&b));
    let (top_left, top_right, bot_right, bot_left) = a.collide_corners(&b);
    // Only the top-right corner of `a` reaches into `b`.
    assert!(top_right);
    assert!(!top_left);
    assert!(!bot_left);
    // The mixed bottom-right test uses a's min.y, which is far below b.
    assert!(!bot_right);
}

#[test]
fn distant_colliders_do_not_collide() {
    let a = Collider {
        col_type: ColliderType::Static,
        min: Vec2I { x: 0, y: 0 },
        max: Vec2I {
            x: 1_000_000,
            y: 1_000_000,
        },
        extent: Vec2I {
            x: 500_000,
            y: 500_000,
        },
    };
    let b = Collider {
        col_type: ColliderType::Static,
        min: Vec2I {
            x: 50_000_000,
            y: 0,
        },
        max: Vec2I {
            x: 51_000_000,
            y: 1_000_000,
        },
        extent: Vec2I {
            x: 500_000,
            y: 500_000,
        },
    };
    assert!(!a.collide(&b));
}

#[test]
fn the_range_test_allows_the_documented_slack() {
    // b's left edge sits exactly PHYS_TOLERANCE beyond a's right edge:
    // still counted as touching; one subunit further is not.
    let a = Collider {
        col_type: ColliderType::Static,
        min: Vec2I { x: 0, y: 0 },
        max: Vec2I {
            x: 1_000_000,
            y: 1_000_000,
        },
        extent: Vec2I { x: 0, y: 0 },
    };
    let touching = Collider {
        col_type: ColliderType::Static,
        min: Vec2I {
            x: 1_000_000 + PHYS_TOLERANCE,
            y: 0,
        },
        max: Vec2I {
            x: 2_000_000 + PHYS_TOLERANCE,
            y: 1_000_000,
        },
        extent: Vec2I { x: 0, y: 0 },
    };
    assert!(a.collide(&touching));
    let apart = Collider {
        col_type: ColliderType::Static,
        min: Vec2I {
            x: 1_000_001 + PHYS_TOLERANCE,
            y: 0,
        },
        max: Vec2I {
            x: 2_000_001 + PHYS_TOLERANCE,
            y: 1_000_000,
        },
        extent: Vec2I { x: 0, y: 0 },
    };
    assert!(!a.collide(&apart));
}

#[test]
fn update_collider_follows_the_position() {
    let mut c = Collider {
        col_type: ColliderType::Static,
        min: Vec2I { x: 0, y: 0 },
        max: Vec2I { x: 0, y: 0 },
        extent: Vec2I {
            x: 4_000_000,
            y: 4_000_000,
        },
    };
    update_collider(Vec2I { x: 10_000_000, y: 20_000_000 }, &mut c);
    assert_eq!(
        c.min,
        Vec2I {
            x: 6_000_000,
            y: 16_000_000
        }
    );
    assert_eq!(
        c.max,
        Vec2I {
            x: 14_000_000,
            y: 24_000_000
        }
    );
    // A second update from the same position changes nothing.
    let before = c;
    update_collider(Vec2I { x: 10_000_000, y: 20_000_000 }, &mut c);
    assert_eq!(c, before);
}
