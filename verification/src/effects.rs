//! Projectile/terrain effect resolution: each collision-start event pairing
//! a terrain tile with a projectile despawns every tile inside the
//! projectile's effect area — or, for a tile without a box collider, just
//! the struck tile — and then despawns the projectile itself.

use vstd::prelude::*;

use crate::combat::Projectile;
use crate::map::{Shape, TerrainTile};
use crate::vec2::Vec2I;

verus! {

/// A live projectile entity in the scene: its identity and its payload.
#[derive(Clone, Copy, Debug, PartialEq, Eq, Structural)]
pub struct ProjectileEntity {
    pub id: u64,
    pub projectile: Projectile,
}

/// A discrete collision event pairing two entity identifiers, delivered by
/// the collision query service once per tick.
#[derive(Clone, Copy, Debug, PartialEq, Eq, Structural)]
pub enum CollisionEvent {
    Started(u64, u64),
    Stopped(u64, u64),
}

/// The mutable scene the effect resolver works on: the currently-alive
/// terrain tiles and projectiles.
#[derive(Debug)]
pub struct CombatScene {
    pub tiles: Vec<TerrainTile>,
    pub projectiles: Vec<ProjectileEntity>,
}

/// A point lies within the axis-aligned effect square centered on `center`,
/// extended `fx_radius` tile-widths in each direction — the width taken as
/// twice the struck tile's own half extents — bounds inclusive. At radius
/// one this covers a 3-by-3 block of contiguous tiles.
pub open spec fn in_fx_region(center: Vec2I, half_extents: Vec2I, fx_radius: int, p: Vec2I) -> bool {
    &&& center.x - fx_radius * (2 * half_extents.x) <= p.x <= center.x + fx_radius * (2
        * half_extents.x)
    &&& center.y - fx_radius * (2 * half_extents.y) <= p.y <= center.y + fx_radius * (2
        * half_extents.y)
}

/// The tiles left alive after the terrain effect of one strike: for a box
/// tile, every tile whose center falls in the effect square is despawned;
/// for any other shape, only the first tile at exactly the struck position.
pub open spec fn despawn_tiles_spec(
    tiles: Seq<TerrainTile>,
    struck_position: Vec2I,
    struck_shape: Shape,
    fx_radius: int,
) -> Seq<TerrainTile>
    decreases tiles.len(),
{
    match struck_shape {
        Shape::Box { half_extents } => tiles.filter(
            |t: TerrainTile| !in_fx_region(struck_position, half_extents, fx_radius, t.position),
        ),
        _ => remove_first_tile_at(tiles, struck_position),
    }
}

/// The sequence with its first tile at exactly the given position removed;
/// without such a tile it is unchanged.
pub open spec fn remove_first_tile_at(tiles: Seq<TerrainTile>, position: Vec2I) -> Seq<
    TerrainTile,
>
    decreases tiles.len(),
{
    if tiles.len() == 0 {
        tiles
    } else if tiles[0].position == position {
        tiles.drop_first()
    } else {
        seq![tiles[0]] + remove_first_tile_at(tiles.drop_first(), position)
    }
}

/// Despawn the terrain affected by a projectile striking the tile at
/// `struck_position` with collider `struck_shape`: a box tile takes with it
/// every tile whose center lies in the square reaching `fx_radius`
/// tile-widths out from it in each direction (inclusive bounds); a tile of
/// any other shape is despawned alone, by exact position match. Despawning
/// an already-removed tile is a no-op.
pub fn despawn_nearby_tiles(
    tiles: &mut Vec<TerrainTile>,
    struck_position: Vec2I,
    struck_shape: Shape,
    fx_radius: u8,
)
    requires
        struck_position.in_range(),
        crate::grounding::shape_in_range(struck_shape),
        forall|i: int| 0 <= i < old(tiles)@.len() ==> (#[trigger] old(tiles)@[i]).position.in_range(),
    ensures
        final(tiles)@ == despawn_tiles_spec(
            old(tiles)@,
            struck_position,
            struck_shape,
            fx_radius as int,
        ),
{
    match struck_shape {
        Shape::Box { half_extents } => {
            let r = fx_radius as i64;
            proof {
                assert(-510_000_000_000_000_000int <= r * (2 * half_extents.x)
                    <= 510_000_000_000_000_000int) by (nonlinear_arith)
                    requires
                        0 <= r <= 255,
                        -crate::vec2::COORD_LIMIT <= half_extents.x <= crate::vec2::COORD_LIMIT,
                ;
                assert(-510_000_000_000_000_000int <= r * (2 * half_extents.y)
                    <= 510_000_000_000_000_000int) by (nonlinear_arith)
                    requires
                        0 <= r <= 255,
                        -crate::vec2::COORD_LIMIT <= half_extents.y <= crate::vec2::COORD_LIMIT,
                ;
            }
            let lo_x = struck_position.x - r * (2 * half_extents.x);
            let hi_x = struck_position.x + r * (2 * half_extents.x);
            let lo_y = struck_position.y - r * (2 * half_extents.y);
            let hi_y = struck_position.y + r * (2 * half_extents.y);
            let ghost pred = |t: TerrainTile|
                !in_fx_region(struck_position, half_extents, fx_radius as int, t.position);
            let mut kept: Vec<TerrainTile> = Vec::new();
            let n = tiles.len();
            let mut i: usize = 0;
            while i < n
                invariant
                    n == old(tiles)@.len(),
                    tiles@ == old(tiles)@,
                    0 <= i <= n,
                    lo_x == struck_position.x - fx_radius * (2 * half_extents.x),
                    hi_x == struck_position.x + fx_radius * (2 * half_extents.x),
                    lo_y == struck_position.y - fx_radius * (2 * half_extents.y),
                    hi_y == struck_position.y + fx_radius * (2 * half_extents.y),
                    pred == (|t: TerrainTile| !in_fx_region(
                        struck_position,
                        half_extents,
                        fx_radius as int,
                        t.position,
                    )),
                    kept@ == old(tiles)@.subrange(0, i as int).filter(pred),
                decreases n - i,
            {
                let t = tiles[i];
                let inside = lo_x <= t.position.x && t.position.x <= hi_x && lo_y <= t.position.y
                    && t.position.y <= hi_y;
                proof {
                    let prefix = old(tiles)@.subrange(0, i + 1int);
                    assert(prefix.drop_last() =~= old(tiles)@.subrange(0, i as int));
                    assert(prefix.last() == t);
                    reveal_with_fuel(Seq::filter, 2);
                    assert(prefix.filter(pred) == if pred(t) {
                        prefix.drop_last().filter(pred).push(t)
                    } else {
                        prefix.drop_last().filter(pred)
                    });
                }
                if !inside {
                    kept.push(t);
                }
                i = i + 1;
            }
            proof {
                assert(old(tiles)@.subrange(0, n as int) =~= old(tiles)@);
            }
            *tiles = kept;
        },
        Shape::Triangle { .. } | Shape::Unknown => {
            let n = tiles.len();
            let mut i: usize = 0;
            while i < n
                invariant
                    n == tiles@.len(),
                    tiles@ == old(tiles)@,
                    0 <= i <= n,
                    !(struck_shape is Box),
                    forall|j: int| 0 <= j < i ==> (#[trigger] tiles@[j]).position != struck_position,
                decreases n - i,
            {
                let t = tiles[i];
                if t.position.x == struck_position.x && t.position.y == struck_position.y {
                    proof {
                        assert(tiles@[i as int].position == struck_position);
                        lemma_remove_first_tile_at_found(tiles@, struck_position, i as int);
                    }
                    tiles.remove(i);
                    proof {
                        assert(tiles@ == old(tiles)@.remove(i as int));
                        assert(tiles@ =~= despawn_tiles_spec(
                            old(tiles)@,
                            struck_position,
                            struck_shape,
                            fx_radius as int,
                        ));
                    }
                    return ;
                }
                i = i + 1;
            }
            proof {
                lemma_remove_first_tile_at_missing(tiles@, struck_position);
            }
        },
    }
}

/// Where the first tile at `position` sits at index `i`, removing it is what
/// `remove_first_tile_at` yields.
proof fn lemma_remove_first_tile_at_found(tiles: Seq<TerrainTile>, position: Vec2I, i: int)
    requires
        0 <= i < tiles.len(),
        tiles[i].position == position,
        forall|j: int| 0 <= j < i ==> (#[trigger] tiles[j]).position != position,
    ensures
        remove_first_tile_at(tiles, position) =~= tiles.remove(i),
    decreases i,
{
    if i == 0 {
        assert(tiles.remove(0) =~= tiles.drop_first());
    } else {
        assert(tiles[0].position != position);
        lemma_remove_first_tile_at_found(tiles.drop_first(), position, i - 1);
        assert(seq![tiles[0]] + tiles.drop_first().remove(i - 1) =~= tiles.remove(i));
    }
}

/// Without any tile at `position`, `remove_first_tile_at` changes nothing.
proof fn lemma_remove_first_tile_at_missing(tiles: Seq<TerrainTile>, position: Vec2I)
    requires
        forall|j: int| 0 <= j < tiles.len() ==> (#[trigger] tiles[j]).position != position,
    ensures
        remove_first_tile_at(tiles, position) =~= tiles,
    decreases tiles.len(),
{
    if tiles.len() > 0 {
        lemma_remove_first_tile_at_missing(tiles.drop_first(), position);
        assert(seq![tiles[0]] + tiles.drop_first() =~= tiles);
    }
}

/// The first tile carrying the given entity identifier, if one is alive.
pub open spec fn find_tile(tiles: Seq<TerrainTile>, id: u64) -> Option<TerrainTile>
    decreases tiles.len(),
{
    if tiles.len() == 0 {
        None
    } else if tiles[0].id == id {
        Some(tiles[0])
    } else {
        find_tile(tiles.drop_first(), id)
    }
}

/// The first projectile carrying the given entity identifier, if one is
/// alive.
pub open spec fn find_projectile(projs: Seq<ProjectileEntity>, id: u64) -> Option<
    ProjectileEntity,
>
    decreases projs.len(),
{
    if projs.len() == 0 {
        None
    } else if projs[0].id == id {
        Some(projs[0])
    } else {
        find_projectile(projs.drop_first(), id)
    }
}

/// The projectiles with the first one carrying the given identifier
/// despawned; without one, unchanged.
pub open spec fn remove_first_projectile(projs: Seq<ProjectileEntity>, id: u64) -> Seq<
    ProjectileEntity,
>
    decreases projs.len(),
{
    if projs.len() == 0 {
        projs
    } else if projs[0].id == id {
        projs.drop_first()
    } else {
        seq![projs[0]] + remove_first_projectile(projs.drop_first(), id)
    }
}

/// What one collision event leaves of the scene. Only a collision start
/// pairing an alive terrain tile with an alive projectile has an effect:
/// the tile's surroundings are despawned, then the projectile itself is,
/// unconditionally. An event naming an entity despawned earlier in the same
/// tick finds nothing and is a safe no-op.
pub open spec fn resolve_one(
    tiles: Seq<TerrainTile>,
    projs: Seq<ProjectileEntity>,
    ev: CollisionEvent,
) -> (Seq<TerrainTile>, Seq<ProjectileEntity>) {
    match ev {
        CollisionEvent::Started(first, second) => match find_tile(tiles, first) {
            Some(t) => match find_projectile(projs, second) {
                Some(p) => (
                    despawn_tiles_spec(tiles, t.position, t.shape, p.projectile.fx_radius as int),
                    remove_first_projectile(projs, second),
                ),
                None => (tiles, projs),
            },
            None => match (find_tile(tiles, second), find_projectile(projs, first)) {
                (Some(t), Some(p)) => (
                    despawn_tiles_spec(tiles, t.position, t.shape, p.projectile.fx_radius as int),
                    remove_first_projectile(projs, first),
                ),
                _ => (tiles, projs),
            },
        },
        CollisionEvent::Stopped(_, _) => (tiles, projs),
    }
}

/// The scene left after resolving a whole tick's events in order, each one
/// against the scene its predecessors left.
pub open spec fn resolve_events(
    tiles: Seq<TerrainTile>,
    projs: Seq<ProjectileEntity>,
    events: Seq<CollisionEvent>,
) -> (Seq<TerrainTile>, Seq<ProjectileEntity>)
    decreases events.len(),
{
    if events.len() == 0 {
        (tiles, projs)
    } else {
        let (tiles1, projs1) = resolve_one(tiles, projs, events[0]);
        resolve_events(tiles1, projs1, events.drop_first())
    }
}

/// Resolving the events extended by one more resolves the prefix first and
/// the new event against what the prefix left.
proof fn lemma_resolve_events_snoc(
    tiles: Seq<TerrainTile>,
    projs: Seq<ProjectileEntity>,
    events: Seq<CollisionEvent>,
    ev: CollisionEvent,
)
    ensures
        resolve_events(tiles, projs, events.push(ev)).0 == resolve_one(
            resolve_events(tiles, projs, events).0,
            resolve_events(tiles, projs, events).1,
            ev,
        ).0,
        resolve_events(tiles, projs, events.push(ev)).1 == resolve_one(
            resolve_events(tiles, projs, events).0,
            resolve_events(tiles, projs, events).1,
            ev,
        ).1,
    decreases events.len(),
{
    if events.len() == 0 {
        assert(events.push(ev)[0] == ev);
        assert(events.push(ev).drop_first() =~= Seq::<CollisionEvent>::empty());
        assert(resolve_events(tiles, projs, events).0 == tiles);
        let r0 = resolve_one(tiles, projs, ev);
        assert(resolve_events(r0.0, r0.1, events.push(ev).drop_first()).0 == r0.0);
        assert(resolve_events(tiles, projs, events.push(ev)).0 == r0.0);
        assert(resolve_events(tiles, projs, events.push(ev)).1 == r0.1);
    } else {
        assert(events.push(ev)[0] == events[0]);
        assert(events.push(ev).drop_first() =~= events.drop_first().push(ev));
        let (tiles1, projs1) = resolve_one(tiles, projs, events[0]);
        lemma_resolve_events_snoc(tiles1, projs1, events.drop_first(), ev);
    }
}

/// Where the tiles up to `i` miss the identifier and `tiles[i]` carries it,
/// the lookup finds `tiles[i]`.
proof fn lemma_find_tile_at_index(tiles: Seq<TerrainTile>, id: u64, i: int)
    requires
        0 <= i < tiles.len(),
        tiles[i].id == id,
        forall|j: int| 0 <= j < i ==> (#[trigger] tiles[j]).id != id,
    ensures
        find_tile(tiles, id) == Some(tiles[i]),
    decreases i,
{
    if i > 0 {
        lemma_find_tile_at_index(tiles.drop_first(), id, i - 1);
    }
}

/// Where no tile carries the identifier, the lookup finds nothing.
proof fn lemma_find_tile_absent(tiles: Seq<TerrainTile>, id: u64)
    requires
        forall|j: int| 0 <= j < tiles.len() ==> (#[trigger] tiles[j]).id != id,
    ensures
        find_tile(tiles, id).is_none(),
    decreases tiles.len(),
{
    if tiles.len() > 0 {
        lemma_find_tile_absent(tiles.drop_first(), id);
    }
}

/// Where the projectiles up to `i` miss the identifier and `projs[i]`
/// carries it, the lookup finds `projs[i]`.
proof fn lemma_find_projectile_at_index(projs: Seq<ProjectileEntity>, id: u64, i: int)
    requires
        0 <= i < projs.len(),
        projs[i].id == id,
        forall|j: int| 0 <= j < i ==> (#[trigger] projs[j]).id != id,
    ensures
        find_projectile(projs, id) == Some(projs[i]),
    decreases i,
{
    if i > 0 {
        lemma_find_projectile_at_index(projs.drop_first(), id, i - 1);
    }
}

/// Where no projectile carries the identifier, the lookup finds nothing.
proof fn lemma_find_projectile_absent(projs: Seq<ProjectileEntity>, id: u64)
    requires
        forall|j: int| 0 <= j < projs.len() ==> (#[trigger] projs[j]).id != id,
    ensures
        find_projectile(projs, id).is_none(),
    decreases projs.len(),
{
    if projs.len() > 0 {
        lemma_find_projectile_absent(projs.drop_first(), id);
    }
}

/// Where the first projectile carrying the identifier sits at index `i`,
/// removing it is what `remove_first_projectile` yields.
proof fn lemma_remove_first_projectile_found(projs: Seq<ProjectileEntity>, id: u64, i: int)
    requires
        0 <= i < projs.len(),
        projs[i].id == id,
        forall|j: int| 0 <= j < i ==> (#[trigger] projs[j]).id != id,
    ensures
        remove_first_projectile(projs, id) =~= projs.remove(i),
    decreases i,
{
    if i == 0 {
        assert(projs.remove(0) =~= projs.drop_first());
    } else {
        lemma_remove_first_projectile_found(projs.drop_first(), id, i - 1);
        assert(seq![projs[0]] + projs.drop_first().remove(i - 1) =~= projs.remove(i));
    }
}

/// Where no projectile carries the identifier, removal changes nothing.
proof fn lemma_remove_first_projectile_missing(projs: Seq<ProjectileEntity>, id: u64)
    requires
        forall|j: int| 0 <= j < projs.len() ==> (#[trigger] projs[j]).id != id,
    ensures
        remove_first_projectile(projs, id) =~= projs,
    decreases projs.len(),
{
    if projs.len() > 0 {
        lemma_remove_first_projectile_missing(projs.drop_first(), id);
        assert(seq![projs[0]] + projs.drop_first() =~= projs);
    }
}

/// Index of the first alive tile carrying the given identifier.
fn find_tile_index(tiles: &Vec<TerrainTile>, id: u64) -> (found: Option<usize>)
    ensures
        match found {
            Some(i) => 0 <= i < tiles@.len() && tiles@[i as int].id == id && find_tile(tiles@, id)
                == Some(tiles@[i as int]),
            None => find_tile(tiles@, id).is_none(),
        },
{
    let n = tiles.len();
    let mut i: usize = 0;
    while i < n
        invariant
            n == tiles@.len(),
            0 <= i <= n,
            forall|j: int| 0 <= j < i ==> (#[trigger] tiles@[j]).id != id,
        decreases n - i,
    {
        if tiles[i].id == id {
            proof {
                lemma_find_tile_at_index(tiles@, id, i as int);
            }
            return Some(i);
        }
        i = i + 1;
    }
    proof {
        lemma_find_tile_absent(tiles@, id);
    }
    None
}

/// Index of the first alive projectile carrying the given identifier.
fn find_projectile_index(projs: &Vec<ProjectileEntity>, id: u64) -> (found: Option<usize>)
    ensures
        match found {
            Some(i) => 0 <= i < projs@.len() && projs@[i as int].id == id && find_projectile(
                projs@,
                id,
            ) == Some(projs@[i as int]),
            None => find_projectile(projs@, id).is_none(),
        },
{
    let n = projs.len();
    let mut i: usize = 0;
    while i < n
        invariant
            n == projs@.len(),
            0 <= i <= n,
            forall|j: int| 0 <= j < i ==> (#[trigger] projs@[j]).id != id,
        decreases n - i,
    {
        if projs[i].id == id {
            proof {
                lemma_find_projectile_at_index(projs@, id, i as int);
            }
            return Some(i);
        }
        i = i + 1;
    }
    proof {
        lemma_find_projectile_absent(projs@, id);
    }
    None
}

/// Despawn the first projectile carrying the given identifier; despawning
/// one already removed is a no-op.
fn remove_projectile_by_id(projs: &mut Vec<ProjectileEntity>, id: u64)
    ensures
        final(projs)@ == remove_first_projectile(old(projs)@, id),
{
    let n = projs.len();
    let mut i: usize = 0;
    while i < n
        invariant
            n == projs@.len(),
            projs@ == old(projs)@,
            0 <= i <= n,
            forall|j: int| 0 <= j < i ==> (#[trigger] projs@[j]).id != id,
        decreases n - i,
    {
        if projs[i].id == id {
            proof {
                lemma_remove_first_projectile_found(projs@, id, i as int);
            }
            projs.remove(i);
            proof {
                assert(projs@ == old(projs)@.remove(i as int));
                assert(projs@ =~= remove_first_projectile(old(projs)@, id));
            }
            return ;
        }
        i = i + 1;
    }
    proof {
        lemma_remove_first_projectile_missing(projs@, id);
    }
}

/// Resolve every collision event of this tick, in order, against the scene
/// the earlier events left: each collision start pairing an alive terrain
/// tile with an alive projectile applies the tile despawn effect and then
/// despawns the projectile; events naming entities already despawned are
/// safe no-ops.
pub fn deal_projectile_effect(scene: &mut CombatScene, events: &Vec<CollisionEvent>)
    requires
        forall|i: int|
            0 <= i < old(scene).tiles@.len() ==> (#[trigger] old(
                scene,
            ).tiles@[i]).position.in_range() && crate::grounding::shape_in_range(
                old(scene).tiles@[i].shape,
            ),
    ensures
        final(scene).tiles@ == resolve_events(
            old(scene).tiles@,
            old(scene).projectiles@,
            events@,
        ).0,
        final(scene).projectiles@ == resolve_events(
            old(scene).tiles@,
            old(scene).projectiles@,
            events@,
        ).1,
{
    let ghost tiles0 = scene.tiles@;
    let ghost projs0 = scene.projectiles@;
    proof {
        assert forall|x: TerrainTile| scene.tiles@.contains(x) implies x.position.in_range()
            && crate::grounding::shape_in_range(x.shape) by {
            let i = choose|i: int| 0 <= i < scene.tiles@.len() && scene.tiles@[i] == x;
            assert(old(scene).tiles@[i] == x);
        }
        assert(events@.subrange(0, 0) =~= Seq::<CollisionEvent>::empty());
    }
    let n = events.len();
    let mut k: usize = 0;
    while k < n
        invariant
            n == events@.len(),
            0 <= k <= n,
            scene.tiles@ == resolve_events(tiles0, projs0, events@.subrange(0, k as int)).0,
            scene.projectiles@ == resolve_events(tiles0, projs0, events@.subrange(0, k as int)).1,
            forall|x: TerrainTile| #[trigger]
                scene.tiles@.contains(x) ==> x.position.in_range()
                    && crate::grounding::shape_in_range(x.shape),
        decreases n - k,
    {
        let ghost prev_tiles = scene.tiles@;
        let ghost prev_projs = scene.projectiles@;
        let ev = events[k];
        match ev {
            CollisionEvent::Started(first, second) => {
                match find_tile_index(&scene.tiles, first) {
                    Some(ti) => {
                        match find_projectile_index(&scene.projectiles, second) {
                            Some(pi) => {
                                let t = scene.tiles[ti];
                                let p = scene.projectiles[pi];
                                proof {
                                    assert(scene.tiles@.contains(t));
                                    assert forall|j: int|
                                        0 <= j < scene.tiles@.len() implies (#[trigger] scene.tiles@[j]).position.in_range()
                                        && crate::grounding::shape_in_range(scene.tiles@[j].shape) by {
                                        assert(scene.tiles@.contains(scene.tiles@[j]));
                                    }
                                }
                                despawn_nearby_tiles(
                                    &mut scene.tiles,
                                    t.position,
                                    t.shape,
                                    p.projectile.fx_radius,
                                );
                                remove_projectile_by_id(&mut scene.projectiles, second);
                                proof {
                                    lemma_despawn_tiles_subset(
                                        prev_tiles,
                                        t.position,
                                        t.shape,
                                        p.projectile.fx_radius as int,
                                    );
                                }
                            },
                            None => {},
                        }
                    },
                    None => {
                        match find_tile_index(&scene.tiles, second) {
                            Some(ti) => {
                                match find_projectile_index(&scene.projectiles, first) {
                                    Some(pi) => {
                                        let t = scene.tiles[ti];
                                        let p = scene.projectiles[pi];
                                        proof {
                                            assert(scene.tiles@.contains(t));
                                            assert forall|j: int|
                                                0 <= j < scene.tiles@.len() implies (#[trigger] scene.tiles@[j]).position.in_range()
                                                && crate::grounding::shape_in_range(scene.tiles@[j].shape) by {
                                                assert(scene.tiles@.contains(scene.tiles@[j]));
                                            }
                                        }
                                        despawn_nearby_tiles(
                                            &mut scene.tiles,
                                            t.position,
                                            t.shape,
                                            p.projectile.fx_radius,
                                        );
                                        remove_projectile_by_id(&mut scene.projectiles, first);
                                        proof {
                                            lemma_despawn_tiles_subset(
                                                prev_tiles,
                                                t.position,
                                                t.shape,
                                                p.projectile.fx_radius as int,
                                            );
                                        }
                                    },
                                    None => {},
                                }
                            },
                            None => {},
                        }
                    },
                }
            },
            CollisionEvent::Stopped(_, _) => {},
        }
        proof {
            assert(scene.tiles@ == resolve_one(prev_tiles, prev_projs, ev).0);
            assert(scene.projectiles@ == resolve_one(prev_tiles, prev_projs, ev).1);
            lemma_resolve_events_snoc(tiles0, projs0, events@.subrange(0, k as int), ev);
            assert(events@.subrange(0, k + 1) =~= events@.subrange(0, k as int).push(ev));
            assert forall|x: TerrainTile| #[trigger]
                scene.tiles@.contains(x) implies x.position.in_range()
                && crate::grounding::shape_in_range(x.shape) by {
                assert(prev_tiles.contains(x));
            }
        }
        k = k + 1;
    }
    proof {
        assert(events@.subrange(0, n as int) =~= events@);
    }
}

/// Every tile alive after a strike's terrain effect was alive before it.
proof fn lemma_despawn_tiles_subset(
    tiles: Seq<TerrainTile>,
    struck_position: Vec2I,
    struck_shape: Shape,
    fx_radius: int,
)
    ensures
        forall|x: TerrainTile| #[trigger]
            despawn_tiles_spec(tiles, struck_position, struck_shape, fx_radius).contains(x)
                ==> tiles.contains(x),
{
    match struck_shape {
        Shape::Box { half_extents } => {
            let pred = |t: TerrainTile|
                !in_fx_region(struck_position, half_extents, fx_radius, t.position);
            lemma_filter_subset(tiles, pred);
        },
        _ => {
            lemma_remove_first_tile_subset(tiles, struck_position);
        },
    }
}

/// Every element of a filtered sequence is an element of the unfiltered one.
proof fn lemma_filter_subset<A>(s: Seq<A>, pred: spec_fn(A) -> bool)
    ensures
        forall|x: A| #[trigger] s.filter(pred).contains(x) ==> s.contains(x),
    decreases s.len(),
{
    reveal_with_fuel(Seq::filter, 2);
    if s.len() > 0 {
        lemma_filter_subset(s.drop_last(), pred);
        assert forall|x: A| #[trigger] s.filter(pred).contains(x) implies s.contains(x) by {
            if pred(s.last()) {
                let fd = s.drop_last().filter(pred);
                assert(s.filter(pred) == fd.push(s.last()));
                if x == s.last() {
                    assert(s[s.len() - 1] == x);
                } else {
                    let i = choose|i: int|
                        0 <= i < s.filter(pred).len() && s.filter(pred)[i] == x;
                    assert(fd.push(s.last())[i] == x);
                    assert(fd.push(s.last())[fd.len() as int] == s.last());
                    assert(i < fd.len());
                    assert(fd[i] == x);
                    assert(fd.contains(x));
                    assert(s.drop_last().contains(x));
                    let j = choose|j: int| 0 <= j < s.drop_last().len() && s.drop_last()[j] == x;
                    assert(s[j] == x);
                }
            } else {
                assert(s.filter(pred) == s.drop_last().filter(pred));
                assert(s.drop_last().contains(x));
                let j = choose|j: int| 0 <= j < s.drop_last().len() && s.drop_last()[j] == x;
                assert(s[j] == x);
            }
        }
    }
}

/// Every tile left by `remove_first_tile_at` was present before.
proof fn lemma_remove_first_tile_subset(tiles: Seq<TerrainTile>, position: Vec2I)
    ensures
        forall|x: TerrainTile| #[trigger]
            remove_first_tile_at(tiles, position).contains(x) ==> tiles.contains(x),
    decreases tiles.len(),
{
    if tiles.len() == 0 {
    } else if tiles[0].position == position {
        assert forall|x: TerrainTile| #[trigger]
            remove_first_tile_at(tiles, position).contains(x) implies tiles.contains(x) by {
            let i = choose|i: int|
                0 <= i < tiles.drop_first().len() && tiles.drop_first()[i] == x;
            assert(tiles[i + 1] == x);
        }
    } else {
        lemma_remove_first_tile_subset(tiles.drop_first(), position);
        assert forall|x: TerrainTile| #[trigger]
            remove_first_tile_at(tiles, position).contains(x) implies tiles.contains(x) by {
            let rest = remove_first_tile_at(tiles.drop_first(), position);
            let i = choose|i: int|
                0 <= i < remove_first_tile_at(tiles, position).len()
                    && remove_first_tile_at(tiles, position)[i] == x;
            if i == 0 {
                assert(tiles[0] == x);
            } else {
                assert(rest[i - 1] == x);
                assert(rest.contains(x));
                assert(tiles.drop_first().contains(x));
                let j = choose|j: int|
                    0 <= j < tiles.drop_first().len() && tiles.drop_first()[j] == x;
                assert(tiles[j + 1] == x);
            }
        }
    }
}

/// Entity identifiers are distinct across the scene: no two tiles share
/// one, no two projectiles share one, and no tile shares one with a
/// projectile.
pub open spec fn scene_ids_distinct(
    tiles: Seq<TerrainTile>,
    projs: Seq<ProjectileEntity>,
) -> bool {
    &&& forall|i: int, j: int|
        0 <= i < j < tiles.len() ==> (#[trigger] tiles[i]).id != (#[trigger] tiles[j]).id
    &&& forall|i: int, j: int|
        0 <= i < j < projs.len() ==> (#[trigger] projs[i]).id != (#[trigger] projs[j]).id
    &&& forall|i: int, j: int|
        0 <= i < tiles.len() && 0 <= j < projs.len() ==> (#[trigger] tiles[i]).id != (
        #[trigger] projs[j]).id
}

/// Filtering a sequence by a predicate and by its complement splits its
/// length exactly.
proof fn lemma_filter_complement_len<A>(s: Seq<A>, p: spec_fn(A) -> bool, q: spec_fn(A) -> bool)
    requires
        forall|x: A| #[trigger] q(x) == !p(x),
    ensures
        s.filter(p).len() + s.filter(q).len() == s.len(),
    decreases s.len(),
{
    reveal_with_fuel(Seq::filter, 2);
    if s.len() > 0 {
        lemma_filter_complement_len(s.drop_last(), p, q);
    }
}

/// What a successful tile lookup found: an alive tile carrying the
/// identifier.
proof fn lemma_find_tile_props(tiles: Seq<TerrainTile>, id: u64, t: TerrainTile)
    requires
        find_tile(tiles, id) == Some(t),
    ensures
        tiles.contains(t),
        t.id == id,
    decreases tiles.len(),
{
    if tiles.len() > 0 && tiles[0].id != id {
        lemma_find_tile_props(tiles.drop_first(), id, t);
        let i = choose|i: int|
            0 <= i < tiles.drop_first().len() && tiles.drop_first()[i] == t;
        assert(tiles[i + 1] == t);
    }
}

/// What a successful projectile lookup found: an alive projectile carrying
/// the identifier.
proof fn lemma_find_projectile_props(projs: Seq<ProjectileEntity>, id: u64, p: ProjectileEntity)
    requires
        find_projectile(projs, id) == Some(p),
    ensures
        projs.contains(p),
        p.id == id,
    decreases projs.len(),
{
    if projs.len() > 0 && projs[0].id != id {
        lemma_find_projectile_props(projs.drop_first(), id, p);
        let i = choose|i: int|
            0 <= i < projs.drop_first().len() && projs.drop_first()[i] == p;
        assert(projs[i + 1] == p);
    }
}

/// With pairwise-distinct projectile identifiers, despawning the projectile
/// carrying an identifier leaves no projectile carrying it.
proof fn lemma_remove_projectile_clears_id(projs: Seq<ProjectileEntity>, id: u64)
    requires
        forall|i: int, j: int|
            0 <= i < j < projs.len() ==> (#[trigger] projs[i]).id != (#[trigger] projs[j]).id,
    ensures
        forall|j: int|
            0 <= j < remove_first_projectile(projs, id).len() ==> (
            #[trigger] remove_first_projectile(projs, id)[j]).id != id,
    decreases projs.len(),
{
    if projs.len() == 0 {
    } else if projs[0].id == id {
        assert forall|j: int| 0 <= j < projs.drop_first().len() implies (
        #[trigger] projs.drop_first()[j]).id != id by {
            assert(projs.drop_first()[j] == projs[j + 1]);
            assert(projs[0].id != projs[j + 1].id);
        }
    } else {
        assert forall|i: int, j: int| 0 <= i < j < projs.drop_first().len() implies (
        #[trigger] projs.drop_first()[i]).id != (#[trigger] projs.drop_first()[j]).id by {
            assert(projs.drop_first()[i] == projs[i + 1]);
            assert(projs.drop_first()[j] == projs[j + 1]);
        }
        lemma_remove_projectile_clears_id(projs.drop_first(), id);
        let rest = remove_first_projectile(projs.drop_first(), id);
        assert forall|j: int| 0 <= j < remove_first_projectile(projs, id).len() implies (
        #[trigger] remove_first_projectile(projs, id)[j]).id != id by {
            if j == 0 {
                assert(remove_first_projectile(projs, id)[0] == projs[0]);
            } else {
                assert(remove_first_projectile(projs, id)[j] == rest[j - 1]);
            }
        }
    }
}

/// Despawning one projectile introduces no identifier: an identifier absent
/// before stays absent.
proof fn lemma_remove_projectile_keeps_absent(projs: Seq<ProjectileEntity>, id: u64, other: u64)
    requires
        forall|j: int| 0 <= j < projs.len() ==> (#[trigger] projs[j]).id != other,
    ensures
        forall|j: int|
            0 <= j < remove_first_projectile(projs, id).len() ==> (
            #[trigger] remove_first_projectile(projs, id)[j]).id != other,
    decreases projs.len(),
{
    if projs.len() == 0 {
    } else if projs[0].id == id {
        assert forall|j: int| 0 <= j < projs.drop_first().len() implies (
        #[trigger] projs.drop_first()[j]).id != other by {
            assert(projs.drop_first()[j] == projs[j + 1]);
        }
    } else {
        assert forall|j: int| 0 <= j < projs.drop_first().len() implies (
        #[trigger] projs.drop_first()[j]).id != other by {
            assert(projs.drop_first()[j] == projs[j + 1]);
        }
        lemma_remove_projectile_keeps_absent(projs.drop_first(), id, other);
        let rest = remove_first_projectile(projs.drop_first(), id);
        assert forall|j: int| 0 <= j < remove_first_projectile(projs, id).len() implies (
        #[trigger] remove_first_projectile(projs, id)[j]).id != other by {
            if j == 0 {
                assert(remove_first_projectile(projs, id)[0] == projs[0]);
            } else {
                assert(remove_first_projectile(projs, id)[j] == rest[j - 1]);
            }
        }
    }
}

/// A projectile with a box-tile strike despawns exactly the tiles whose
/// centers lie within `fx_radius` tile-widths of the struck tile, in
/// both axes with inclusive bounds, and despawns the projectile itself; the
/// tile count drops by exactly the despawned set, once; and a duplicate of
/// the same collision event resolves to a no-op, since both entities it
/// names are already gone.
pub proof fn lemma_box_strike_effects(
    tiles: Seq<TerrainTile>,
    projs: Seq<ProjectileEntity>,
    first: u64,
    second: u64,
    t: TerrainTile,
    p: ProjectileEntity,
    half: Vec2I,
)
    requires
        scene_ids_distinct(tiles, projs),
        find_tile(tiles, first) == Some(t),
        find_projectile(projs, second) == Some(p),
        t.shape == (Shape::Box { half_extents: half }),
        half.x >= 0,
        half.y >= 0,
    ensures
        resolve_one(tiles, projs, CollisionEvent::Started(first, second)).0 == tiles.filter(
            |x: TerrainTile|
                !in_fx_region(t.position, half, p.projectile.fx_radius as int, x.position),
        ),
        resolve_one(tiles, projs, CollisionEvent::Started(first, second)).0.len() == tiles.len()
            - tiles.filter(
            |x: TerrainTile|
                in_fx_region(t.position, half, p.projectile.fx_radius as int, x.position),
        ).len(),
        find_projectile(
            resolve_one(tiles, projs, CollisionEvent::Started(first, second)).1,
            second,
        ).is_none(),
        resolve_one(
            resolve_one(tiles, projs, CollisionEvent::Started(first, second)).0,
            resolve_one(tiles, projs, CollisionEvent::Started(first, second)).1,
            CollisionEvent::Started(first, second),
        ).0 == resolve_one(tiles, projs, CollisionEvent::Started(first, second)).0,
        resolve_one(
            resolve_one(tiles, projs, CollisionEvent::Started(first, second)).0,
            resolve_one(tiles, projs, CollisionEvent::Started(first, second)).1,
            CollisionEvent::Started(first, second),
        ).1 == resolve_one(tiles, projs, CollisionEvent::Started(first, second)).1,
{
    let ev = CollisionEvent::Started(first, second);
    let fx = p.projectile.fx_radius as int;
    let keep = |x: TerrainTile| !in_fx_region(t.position, half, fx, x.position);
    let hit = |x: TerrainTile| in_fx_region(t.position, half, fx, x.position);
    let r_tiles = resolve_one(tiles, projs, ev).0;
    let r_projs = resolve_one(tiles, projs, ev).1;
    assert(r_tiles == tiles.filter(keep));
    assert(r_projs == remove_first_projectile(projs, second));

    // Exactly-once count: the kept and the despawned tiles partition the set.
    lemma_filter_complement_len(tiles, keep, hit);

    lemma_find_tile_props(tiles, first, t);
    lemma_find_projectile_props(projs, second, p);
    let ti = choose|i: int| 0 <= i < tiles.len() && tiles[i] == t;

    // The struck tile's own center lies in its effect square, so the strike
    // removes it.
    assert(fx * (2 * half.x) >= 0 && fx * (2 * half.y) >= 0) by (nonlinear_arith)
        requires
            fx >= 0,
            half.x >= 0,
            half.y >= 0,
    ;
    assert(hit(t));

    // The projectile is gone afterwards.
    lemma_remove_projectile_clears_id(projs, second);
    lemma_find_projectile_absent(r_projs, second);

    // No tile carries the projectile's identifier, before or after.
    assert forall|j: int| 0 <= j < r_tiles.len() implies (#[trigger] r_tiles[j]).id != second by {
        tiles.lemma_filter_pred(keep, j);
        lemma_filter_subset(tiles, keep);
        assert(r_tiles.contains(r_tiles[j]));
        let i = choose|i: int| 0 <= i < tiles.len() && tiles[i] == r_tiles[j];
        let pj = choose|pj: int| 0 <= pj < projs.len() && projs[pj] == p;
        assert(tiles[i].id != projs[pj].id);
    }
    lemma_find_tile_absent(r_tiles, second);

    // Nor does any surviving tile carry the struck tile's identifier: the
    // only tile that did was the struck one, and it was despawned.
    assert forall|j: int| 0 <= j < r_tiles.len() implies (#[trigger] r_tiles[j]).id != first by {
        tiles.lemma_filter_pred(keep, j);
        lemma_filter_subset(tiles, keep);
        assert(r_tiles.contains(r_tiles[j]));
        let i = choose|i: int| 0 <= i < tiles.len() && tiles[i] == r_tiles[j];
        if r_tiles[j].id == first {
            assert(tiles[i].id == tiles[ti].id);
            if i != ti {
                if i < ti {
                    assert(tiles[i].id != tiles[ti].id);
                } else {
                    assert(tiles[ti].id != tiles[i].id);
                }
                assert(false);
            }
            assert(r_tiles[j] == t);
            assert(keep(t));
            assert(false);
        }
    }
    lemma_find_tile_absent(r_tiles, first);

    // No projectile carried a tile identifier, so none does afterwards.
    assert forall|j: int| 0 <= j < projs.len() implies (#[trigger] projs[j]).id != first by {
        assert(tiles[ti].id != projs[j].id);
    }
    lemma_remove_projectile_keeps_absent(projs, second, first);
    lemma_find_projectile_absent(r_projs, first);
}

} // verus!
