//! The geometry synthesizer: walks a resolved level and emits primitive
//! placement instructions (floor slabs, inferred wall segments, solid wall
//! blocks, pillars, ceiling slabs) and ambient-effect placements.
//!
//! Walls are a derived property of adjacency: a Floor or Pillar tile gets a
//! wall segment on each boundary it shares with a void cell (probing one cell
//! beyond the grid edge, where every query resolves to void). Doorway tiles
//! never receive inferred walls; the explicit Wall kind emits one solid
//! full-height block instead.

use vstd::prelude::*;

use crate::level::LevelDefinition;
use crate::tiles::GeometryKind;
use crate::tiles::Rgb;
use crate::tiles::Rgba;
use crate::tiles::ResolvedCeilingTile;
use crate::tiles::ResolvedGeometryTile;

verus! {

/// Thickness of an inferred wall segment.
pub const WALL_THICKNESS_MILLI: i64 = 200;

/// Vertical offset of the player start above the floor.
pub const PLAYER_START_HEIGHT_MILLI: i64 = 1_000;

/// A point or extent in world space, in milli-units.
#[derive(Debug, Clone, Copy, PartialEq, Eq, Structural)]
pub struct WorldVec {
    pub x: i64,
    pub y: i64,
    pub z: i64,
}

/// What a primitive placement stands for.
#[derive(Debug, Clone, Copy, PartialEq, Eq, Structural)]
pub enum PlacementKind {
    FloorSlab,
    WallSegment,
    WallBlock,
    Pillar,
    CeilingSlab,
    StairStep,
}

/// One primitive placement instruction: a cuboid with a material name,
/// rotated about the vertical axis by `yaw_degrees` (zero for everything but
/// stair steps). The same cuboid doubles as the collider shape.
#[derive(Debug, Clone)]
pub struct Placement {
    pub kind: PlacementKind,
    pub material: String,
    pub center: WorldVec,
    pub size: WorldVec,
    pub yaw_degrees: i64,
}

/// One ambient-effect placement instruction.
#[derive(Debug, Clone)]
pub enum EffectKind {
    Light { intensity: i64, shadows: bool, color: Rgb, range: i64 },
    Particle { name: String, rate: i64, color: Option<Rgba> },
    Audio { sound: String, volume: i64, radius: i64 },
}

/// An effect and the world position it is anchored at.
#[derive(Debug, Clone)]
pub struct EffectPlacement {
    pub kind: EffectKind,
    pub position: WorldVec,
}

impl LevelDefinition {
    /// The geometry kind a probe at `(x, z)` observes: the cell's kind in
    /// bounds, void outside.
    pub open spec fn spec_kind_at(self, x: int, z: int) -> GeometryKind {
        if self.in_bounds(x, z) {
            self.geometry@[z]@[x].kind
        } else {
            GeometryKind::Void
        }
    }

    /// World-space center of cell `(x, z)` along one axis.
    pub open spec fn spec_world_center(self, c: int) -> int {
        c * self.tile_size + self.tile_size / 2
    }
}

/// The four axis-aligned neighbor directions.
#[derive(Debug, Clone, Copy, PartialEq, Eq, Structural)]
pub enum Direction {
    North,
    South,
    West,
    East,
}

/// A wall segment is emitted on a boundary exactly when the neighbor beyond
/// it resolves to void.
pub open spec fn wall_needed(level: LevelDefinition, x: int, z: int, dir: Direction) -> bool {
    match dir {
        Direction::North => level.spec_kind_at(x, z - 1) == GeometryKind::Void,
        Direction::South => level.spec_kind_at(x, z + 1) == GeometryKind::Void,
        Direction::West => level.spec_kind_at(x - 1, z) == GeometryKind::Void,
        Direction::East => level.spec_kind_at(x + 1, z) == GeometryKind::Void,
    }
}

/// The floor slab of a tile: top face at the tile's elevation, extending
/// downward by the tile's floor depth.
pub open spec fn is_floor_slab(p: Placement, t: ResolvedGeometryTile, ts: int, wx: int, wz: int) -> bool {
    &&& p.kind == PlacementKind::FloorSlab
    &&& p.material@ == t.material@
    &&& p.yaw_degrees == 0
    &&& p.center.x == wx
    &&& p.center.y == t.elevation - t.floor_depth / 2
    &&& p.center.z == wz
    &&& p.size.x == ts
    &&& p.size.y == t.floor_depth
    &&& p.size.z == ts
}

/// The solid block of an explicit Wall tile: the full cell, rising from the
/// tile's elevation by its height.
pub open spec fn is_wall_block(p: Placement, t: ResolvedGeometryTile, ts: int, wx: int, wz: int) -> bool {
    &&& p.kind == PlacementKind::WallBlock
    &&& p.material@ == t.material@
    &&& p.yaw_degrees == 0
    &&& p.center.x == wx
    &&& p.center.y == t.elevation + t.height / 2
    &&& p.center.z == wz
    &&& p.size.x == ts
    &&& p.size.y == t.height
    &&& p.size.z == ts
}

/// The centered column of a Pillar tile: two fifths of the tile footprint,
/// rising from the tile's elevation by its height.
pub open spec fn is_pillar(p: Placement, t: ResolvedGeometryTile, ts: int, wx: int, wz: int) -> bool {
    &&& p.kind == PlacementKind::Pillar
    &&& p.material@ == "pillar"@
    &&& p.yaw_degrees == 0
    &&& p.center.x == wx
    &&& p.center.y == t.elevation + t.height / 2
    &&& p.center.z == wz
    &&& p.size.x == ts * 2 / 5
    &&& p.size.y == t.height
    &&& p.size.z == ts * 2 / 5
}

/// An inferred wall segment on one boundary of a tile: as long as the tile
/// edge, as high as the tile's structure height, one wall-thickness deep.
pub open spec fn is_wall_segment(
    p: Placement,
    t: ResolvedGeometryTile,
    ts: int,
    wx: int,
    wz: int,
    dir: Direction,
) -> bool {
    let half = ts / 2;
    &&& p.kind == PlacementKind::WallSegment
    &&& p.material@ == t.material@
    &&& p.yaw_degrees == 0
    &&& p.center.y == t.elevation + t.height / 2
    &&& p.size.y == t.height
    &&& match dir {
        Direction::North => p.center.x == wx && p.center.z == wz - half && p.size.x == ts
            && p.size.z == WALL_THICKNESS_MILLI,
        Direction::South => p.center.x == wx && p.center.z == wz + half && p.size.x == ts
            && p.size.z == WALL_THICKNESS_MILLI,
        Direction::West => p.center.x == wx - half && p.center.z == wz && p.size.x
            == WALL_THICKNESS_MILLI && p.size.z == ts,
        Direction::East => p.center.x == wx + half && p.center.z == wz && p.size.x
            == WALL_THICKNESS_MILLI && p.size.z == ts,
    }
}

/// The ceiling slab of a cell: bottom face at the ceiling height, extending
/// upward by its thickness.
pub open spec fn is_ceiling_slab(p: Placement, ct: ResolvedCeilingTile, ts: int, wx: int, wz: int) -> bool {
    &&& p.kind == PlacementKind::CeilingSlab
    &&& p.material@ == ct.material@
    &&& p.yaw_degrees == 0
    &&& p.center.x == wx
    &&& p.center.y == ct.height + ct.thickness / 2
    &&& p.center.z == wz
    &&& p.size.x == ts
    &&& p.size.y == ct.thickness
    &&& p.size.z == ts
}

/// Number of inferred walls a Floor or Pillar tile at `(x, z)` emits.
pub open spec fn wall_count(level: LevelDefinition, x: int, z: int) -> int {
    (if wall_needed(level, x, z, Direction::North) {
        1int
    } else {
        0int
    }) + (if wall_needed(level, x, z, Direction::South) {
        1int
    } else {
        0int
    }) + (if wall_needed(level, x, z, Direction::West) {
        1int
    } else {
        0int
    }) + (if wall_needed(level, x, z, Direction::East) {
        1int
    } else {
        0int
    })
}

/// The exact inferred-wall list of a tile: one segment per void neighbor, in
/// north, south, west, east order.
pub open spec fn wall_list_matches(ws: Seq<Placement>, level: LevelDefinition, x: int, z: int) -> bool {
    let t = level.geometry@[z]@[x];
    let ts = level.tile_size as int;
    let wx = level.spec_world_center(x);
    let wz = level.spec_world_center(z);
    let n = wall_needed(level, x, z, Direction::North);
    let s = wall_needed(level, x, z, Direction::South);
    let w = wall_needed(level, x, z, Direction::West);
    let e = wall_needed(level, x, z, Direction::East);
    let i_s = if n {
        1int
    } else {
        0int
    };
    let i_w = i_s + if s {
        1int
    } else {
        0int
    };
    let i_e = i_w + if w {
        1int
    } else {
        0int
    };
    &&& ws.len() == wall_count(level, x, z)
    &&& (n ==> is_wall_segment(ws[0], t, ts, wx, wz, Direction::North))
    &&& (s ==> is_wall_segment(ws[i_s], t, ts, wx, wz, Direction::South))
    &&& (w ==> is_wall_segment(ws[i_w], t, ts, wx, wz, Direction::West))
    &&& (e ==> is_wall_segment(ws[i_e], t, ts, wx, wz, Direction::East))
}

/// Whether the neighbor tile at `(x, z)` forces a wall on the shared
/// boundary: exactly when it resolves to void.
pub fn needs_wall(level: &LevelDefinition, x: i32, z: i32) -> (r: bool)
    requires
        level.wf(),
    ensures
        r == (level.spec_kind_at(x as int, z as int) == GeometryKind::Void),
{
    let neighbor = level.get_geometry(x, z);
    neighbor.kind == GeometryKind::Void
}

/// Emit the inferred wall segments around a Floor or Pillar tile, probing
/// all four neighbors.
pub fn walls_for_tile(level: &LevelDefinition, x: i32, z: i32) -> (ws: Vec<Placement>)
    requires
        level.wf(),
        level.in_bounds(x as int, z as int),
    ensures
        wall_list_matches(ws@, *level, x as int, z as int),
{
    let t = level.get_geometry(x, z);
    let (wx, wz) = level.grid_to_world(x, z);
    proof {
        crate::num::lemma_mul_in_range(
            x as int,
            level.tile_size as int,
            i32::MIN as int,
            i32::MAX as int,
            crate::tiles::MAX_TILE_SIZE_MILLI as int,
        );
        crate::num::lemma_mul_in_range(
            z as int,
            level.tile_size as int,
            i32::MIN as int,
            i32::MAX as int,
            crate::tiles::MAX_TILE_SIZE_MILLI as int,
        );
    }
    let half = level.tile_size / 2;
    let wall_y = t.elevation + t.height / 2;
    let mut ws: Vec<Placement> = Vec::new();
    if needs_wall(level, x, z - 1) {
        ws.push(
            Placement {
                kind: PlacementKind::WallSegment,
                material: t.material.clone(),
                center: WorldVec { x: wx, y: wall_y, z: wz - half },
                size: WorldVec { x: level.tile_size, y: t.height, z: WALL_THICKNESS_MILLI },
                yaw_degrees: 0,
            },
        );
    }
    if needs_wall(level, x, z + 1) {
        ws.push(
            Placement {
                kind: PlacementKind::WallSegment,
                material: t.material.clone(),
                center: WorldVec { x: wx, y: wall_y, z: wz + half },
                size: WorldVec { x: level.tile_size, y: t.height, z: WALL_THICKNESS_MILLI },
                yaw_degrees: 0,
            },
        );
    }
    if needs_wall(level, x - 1, z) {
        ws.push(
            Placement {
                kind: PlacementKind::WallSegment,
                material: t.material.clone(),
                center: WorldVec { x: wx - half, y: wall_y, z: wz },
                size: WorldVec { x: WALL_THICKNESS_MILLI, y: t.height, z: level.tile_size },
                yaw_degrees: 0,
            },
        );
    }
    if needs_wall(level, x + 1, z) {
        ws.push(
            Placement {
                kind: PlacementKind::WallSegment,
                material: t.material.clone(),
                center: WorldVec { x: wx + half, y: wall_y, z: wz },
                size: WorldVec { x: WALL_THICKNESS_MILLI, y: t.height, z: level.tile_size },
                yaw_degrees: 0,
            },
        );
    }
    ws
}

/// Width of the passage left open by a doorway wall.
pub const DOOR_WIDTH_MILLI: i64 = 2_500;

/// Bound on world coordinates handed to the doorway-wall splitter.
pub const MAX_WORLD_MILLI: i64 = 4_000_000_000_000_000;

/// A wall of the given length with a centered doorway: two flanking
/// segments, each `(wall_length - door_width) / 2` long, offset from the
/// wall's center by half the door plus half a segment. North/south walls run
/// along the x axis, east/west walls along the z axis.
pub fn wall_with_doorway(
    base: WorldVec,
    wall_length: i64,
    direction: Direction,
    wall_height: i64,
    wall_thickness: i64,
    door_width: i64,
    material: &str,
) -> (ws: Vec<Placement>)
    requires
        0 <= door_width <= wall_length <= crate::tiles::MAX_MEASURE_MILLI,
        0 <= wall_height <= crate::tiles::MAX_MEASURE_MILLI,
        0 <= wall_thickness <= crate::tiles::MAX_MEASURE_MILLI,
        -MAX_WORLD_MILLI <= base.x <= MAX_WORLD_MILLI,
        -MAX_WORLD_MILLI <= base.y <= MAX_WORLD_MILLI,
        -MAX_WORLD_MILLI <= base.z <= MAX_WORLD_MILLI,
    ensures
        ws@.len() == 2,
        ({
            let seg = (wall_length - door_width) / 2;
            let off = door_width / 2 + seg / 2;
            let y = base.y + wall_height / 2;
            let horizontal = direction == Direction::North || direction == Direction::South;
            &&& ws@[0].kind == PlacementKind::WallSegment
            &&& ws@[1].kind == PlacementKind::WallSegment
            &&& ws@[0].material@ == material@
            &&& ws@[1].material@ == material@
            &&& ws@[0].yaw_degrees == 0
            &&& ws@[1].yaw_degrees == 0
            &&& ws@[0].center.y == y
            &&& ws@[1].center.y == y
            &&& ws@[0].size.y == wall_height
            &&& ws@[1].size.y == wall_height
            &&& if horizontal {
                &&& ws@[0].center.x == base.x - off
                &&& ws@[1].center.x == base.x + off
                &&& ws@[0].center.z == base.z
                &&& ws@[1].center.z == base.z
                &&& ws@[0].size.x == seg
                &&& ws@[1].size.x == seg
                &&& ws@[0].size.z == wall_thickness
                &&& ws@[1].size.z == wall_thickness
            } else {
                &&& ws@[0].center.x == base.x
                &&& ws@[1].center.x == base.x
                &&& ws@[0].center.z == base.z - off
                &&& ws@[1].center.z == base.z + off
                &&& ws@[0].size.x == wall_thickness
                &&& ws@[1].size.x == wall_thickness
                &&& ws@[0].size.z == seg
                &&& ws@[1].size.z == seg
            }
        }),
{
    let segment_length = (wall_length - door_width) / 2;
    let offset = door_width / 2 + segment_length / 2;
    let y = base.y + wall_height / 2;
    let mut ws: Vec<Placement> = Vec::new();
    match direction {
        Direction::North | Direction::South => {
            ws.push(
                Placement {
                    kind: PlacementKind::WallSegment,
                    material: String::from_str(material),
                    center: WorldVec { x: base.x - offset, y, z: base.z },
                    size: WorldVec { x: segment_length, y: wall_height, z: wall_thickness },
                    yaw_degrees: 0,
                },
            );
            ws.push(
                Placement {
                    kind: PlacementKind::WallSegment,
                    material: String::from_str(material),
                    center: WorldVec { x: base.x + offset, y, z: base.z },
                    size: WorldVec { x: segment_length, y: wall_height, z: wall_thickness },
                    yaw_degrees: 0,
                },
            );
        },
        Direction::East | Direction::West => {
            ws.push(
                Placement {
                    kind: PlacementKind::WallSegment,
                    material: String::from_str(material),
                    center: WorldVec { x: base.x, y, z: base.z - offset },
                    size: WorldVec { x: wall_thickness, y: wall_height, z: segment_length },
                    yaw_degrees: 0,
                },
            );
            ws.push(
                Placement {
                    kind: PlacementKind::WallSegment,
                    material: String::from_str(material),
                    center: WorldVec { x: base.x, y, z: base.z + offset },
                    size: WorldVec { x: wall_thickness, y: wall_height, z: segment_length },
                    yaw_degrees: 0,
                },
            );
        },
    }
    ws
}

// === Cell-level placements ===

/// Number of placements the geometry of cell `(x, z)` emits.
pub open spec fn geo_cell_count(level: LevelDefinition, x: int, z: int) -> int {
    match level.geometry@[z]@[x].kind {
        GeometryKind::Floor => 1 + wall_count(level, x, z),
        GeometryKind::Doorway => 1,
        GeometryKind::Pillar => 2 + wall_count(level, x, z),
        GeometryKind::Wall => 1,
        GeometryKind::Void => 0,
    }
}

/// Number of placements cell `(x, z)` emits in total.
#[verifier::opaque]
pub open spec fn cell_count(level: LevelDefinition, x: int, z: int) -> int {
    geo_cell_count(level, x, z) + (if level.ceiling@[z]@[x] is Some {
        1int
    } else {
        0int
    })
}

/// The exact placement list the geometry of cell `(x, z)` emits: floor slab
/// first where the kind carries one, then the pillar column, then the
/// inferred walls; a Wall tile emits its solid block alone; a void cell
/// emits nothing.
pub open spec fn geo_cell_matches(ps: Seq<Placement>, level: LevelDefinition, x: int, z: int) -> bool {
    let t = level.geometry@[z]@[x];
    let ts = level.tile_size as int;
    let wx = level.spec_world_center(x);
    let wz = level.spec_world_center(z);
    match t.kind {
        GeometryKind::Floor => {
            &&& ps.len() >= 1
            &&& is_floor_slab(ps[0], t, ts, wx, wz)
            &&& wall_list_matches(ps.subrange(1, ps.len() as int), level, x, z)
        },
        GeometryKind::Doorway => ps.len() == 1 && is_floor_slab(ps[0], t, ts, wx, wz),
        GeometryKind::Pillar => {
            &&& ps.len() >= 2
            &&& is_floor_slab(ps[0], t, ts, wx, wz)
            &&& is_pillar(ps[1], t, ts, wx, wz)
            &&& wall_list_matches(ps.subrange(2, ps.len() as int), level, x, z)
        },
        GeometryKind::Wall => ps.len() == 1 && is_wall_block(ps[0], t, ts, wx, wz),
        GeometryKind::Void => ps.len() == 0,
    }
}

/// The exact placement list cell `(x, z)` emits: its geometry placements,
/// then its ceiling slab when the ceiling grid has one there.
#[verifier::opaque]
pub open spec fn cell_matches(ps: Seq<Placement>, level: LevelDefinition, x: int, z: int) -> bool {
    let ts = level.tile_size as int;
    let wx = level.spec_world_center(x);
    let wz = level.spec_world_center(z);
    match level.ceiling@[z]@[x] {
        Some(ct) => {
            &&& ps.len() >= 1
            &&& geo_cell_matches(ps.drop_last(), level, x, z)
            &&& is_ceiling_slab(ps.last(), ct, ts, wx, wz)
        },
        None => geo_cell_matches(ps, level, x, z),
    }
}

/// Emit the placements of one cell.
pub fn cell_placements(level: &LevelDefinition, x: i32, z: i32) -> (ps: Vec<Placement>)
    requires
        level.wf(),
        level.in_bounds(x as int, z as int),
    ensures
        cell_matches(ps@, *level, x as int, z as int),
        ps@.len() == cell_count(*level, x as int, z as int),
{
    let t = level.get_geometry(x, z);
    let (wx, wz) = level.grid_to_world(x, z);
    proof {
        reveal(cell_matches);
        reveal(cell_count);
        crate::num::lemma_mul_in_range(
            x as int,
            level.tile_size as int,
            i32::MIN as int,
            i32::MAX as int,
            crate::tiles::MAX_TILE_SIZE_MILLI as int,
        );
        crate::num::lemma_mul_in_range(
            z as int,
            level.tile_size as int,
            i32::MIN as int,
            i32::MAX as int,
            crate::tiles::MAX_TILE_SIZE_MILLI as int,
        );
    }
    let ts = level.tile_size;
    let mut ps: Vec<Placement> = Vec::new();
    match t.kind {
        GeometryKind::Floor => {
            ps.push(
                Placement {
                    kind: PlacementKind::FloorSlab,
                    material: t.material.clone(),
                    center: WorldVec { x: wx, y: t.elevation - t.floor_depth / 2, z: wz },
                    size: WorldVec { x: ts, y: t.floor_depth, z: ts },
                    yaw_degrees: 0,
                },
            );
            let mut walls = walls_for_tile(level, x, z);
            let ghost walls0 = walls@;
            ps.append(&mut walls);
            proof {
                assert(ps@.subrange(1, ps@.len() as int) =~= walls0);
            }
        },
        GeometryKind::Doorway => {
            ps.push(
                Placement {
                    kind: PlacementKind::FloorSlab,
                    material: t.material.clone(),
                    center: WorldVec { x: wx, y: t.elevation - t.floor_depth / 2, z: wz },
                    size: WorldVec { x: ts, y: t.floor_depth, z: ts },
                    yaw_degrees: 0,
                },
            );
        },
        GeometryKind::Pillar => {
            ps.push(
                Placement {
                    kind: PlacementKind::FloorSlab,
                    material: t.material.clone(),
                    center: WorldVec { x: wx, y: t.elevation - t.floor_depth / 2, z: wz },
                    size: WorldVec { x: ts, y: t.floor_depth, z: ts },
                    yaw_degrees: 0,
                },
            );
            ps.push(
                Placement {
                    kind: PlacementKind::Pillar,
                    material: String::from_str("pillar"),
                    center: WorldVec { x: wx, y: t.elevation + t.height / 2, z: wz },
                    size: WorldVec { x: ts * 2 / 5, y: t.height, z: ts * 2 / 5 },
                    yaw_degrees: 0,
                },
            );
            let mut walls = walls_for_tile(level, x, z);
            let ghost walls0 = walls@;
            ps.append(&mut walls);
            proof {
                assert(ps@.subrange(2, ps@.len() as int) =~= walls0);
            }
        },
        GeometryKind::Wall => {
            ps.push(
                Placement {
                    kind: PlacementKind::WallBlock,
                    material: t.material.clone(),
                    center: WorldVec { x: wx, y: t.elevation + t.height / 2, z: wz },
                    size: WorldVec { x: ts, y: t.height, z: ts },
                    yaw_degrees: 0,
                },
            );
        },
        GeometryKind::Void => {},
    }
    let ghost geo_ps = ps@;
    match level.get_ceiling(x, z) {
        Some(ct) => {
            ps.push(
                Placement {
                    kind: PlacementKind::CeilingSlab,
                    material: ct.material,
                    center: WorldVec { x: wx, y: ct.height + ct.thickness / 2, z: wz },
                    size: WorldVec { x: ts, y: ct.thickness, z: ts },
                    yaw_degrees: 0,
                },
            );
            proof {
                assert(ps@.drop_last() =~= geo_ps);
                assert(geo_cell_matches(ps@.drop_last(), *level, x as int, z as int)) by {
                    if geo_ps.len() >= 1 {
                        assert(ps@.drop_last().subrange(1, ps@.drop_last().len() as int)
                            =~= geo_ps.subrange(1, geo_ps.len() as int));
                        assert(ps@.drop_last().subrange(2, ps@.drop_last().len() as int)
                            =~= geo_ps.subrange(2, geo_ps.len() as int));
                    }
                }
            }
        },
        None => {},
    }
    ps
}

// === Cell-level ambient effects ===

/// A light effect anchored at the tile center, lifted by its own height.
pub open spec fn is_light_effect(e: EffectPlacement, l: crate::tiles::LightDef, wx: int, wz: int) -> bool {
    &&& e.position.x == wx
    &&& e.position.y == l.height
    &&& e.position.z == wz
    &&& match e.kind {
        EffectKind::Light { intensity, shadows, color, range } => {
            &&& intensity == l.intensity
            &&& shadows == l.shadows
            &&& color == l.color
            &&& range == l.range
        },
        _ => false,
    }
}

/// A particle effect anchored at the tile center, lifted by its own height.
pub open spec fn is_particle_effect(
    e: EffectPlacement,
    d: crate::tiles::ParticleDef,
    wx: int,
    wz: int,
) -> bool {
    &&& e.position.x == wx
    &&& e.position.y == d.height
    &&& e.position.z == wz
    &&& match e.kind {
        EffectKind::Particle { name, rate, color } => {
            &&& name@ == d.kind@
            &&& rate == d.rate
            &&& color == d.color
        },
        _ => false,
    }
}

/// An audio zone anchored at the tile center.
pub open spec fn is_audio_effect(e: EffectPlacement, d: crate::tiles::AudioDef, wx: int, wz: int) -> bool {
    &&& e.position.x == wx
    &&& e.position.y == 0
    &&& e.position.z == wz
    &&& match e.kind {
        EffectKind::Audio { sound, volume, radius } => {
            &&& sound@ == d.sound@
            &&& volume == d.volume
            &&& radius == d.radius
        },
        _ => false,
    }
}

/// Number of effect placements cell `(x, z)` emits.
#[verifier::opaque]
pub open spec fn cell_effect_count(level: LevelDefinition, x: int, z: int) -> int {
    let a = level.ambient@[z]@[x];
    a.lights@.len() + a.particles@.len() + a.audio@.len() as int
}

/// The exact effect list of cell `(x, z)`: its lights, then its particle
/// emitters, then its audio zones, each in stored order.
#[verifier::opaque]
pub open spec fn cell_effects_match(es: Seq<EffectPlacement>, level: LevelDefinition, x: int, z: int) -> bool {
    let a = level.ambient@[z]@[x];
    let wx = level.spec_world_center(x);
    let wz = level.spec_world_center(z);
    let nl = a.lights@.len() as int;
    let np = a.particles@.len() as int;
    let na = a.audio@.len() as int;
    &&& es.len() == nl + np + na
    &&& forall|i: int| 0 <= i < nl ==> is_light_effect(#[trigger] es[i], a.lights@[i], wx, wz)
    &&& forall|i: int|
        nl <= i < nl + np ==> is_particle_effect(#[trigger] es[i], a.particles@[i - nl], wx, wz)
    &&& forall|i: int|
        nl + np <= i < nl + np + na ==> is_audio_effect(
            #[trigger] es[i],
            a.audio@[i - nl - np],
            wx,
            wz,
        )
}

/// Emit the ambient-effect placements of one cell.
pub fn cell_effects(level: &LevelDefinition, x: i32, z: i32) -> (es: Vec<EffectPlacement>)
    requires
        level.wf(),
        level.in_bounds(x as int, z as int),
    ensures
        cell_effects_match(es@, *level, x as int, z as int),
        es@.len() == cell_effect_count(*level, x as int, z as int),
{
    let a = level.get_ambient(x, z);
    let (wx, wz) = level.grid_to_world(x, z);
    proof {
        reveal(cell_effects_match);
        reveal(cell_effect_count);
    }
    let mut es: Vec<EffectPlacement> = Vec::new();
    let nl = a.lights.len();
    let np = a.particles.len();
    let na = a.audio.len();
    let mut i: usize = 0;
    while i < nl
        invariant
            nl == a.lights@.len(),
            a.lights@ == level.ambient@[z as int]@[x as int].lights@,
            wx == level.spec_world_center(x as int),
            wz == level.spec_world_center(z as int),
            i <= nl,
            es@.len() == i,
            forall|j: int|
                0 <= j < i ==> is_light_effect(#[trigger] es@[j], a.lights@[j], wx as int, wz as int),
        decreases nl - i,
    {
        let l = a.lights[i];
        es.push(
            EffectPlacement {
                kind: EffectKind::Light {
                    intensity: l.intensity,
                    shadows: l.shadows,
                    color: l.color,
                    range: l.range,
                },
                position: WorldVec { x: wx, y: l.height, z: wz },
            },
        );
        i += 1;
    }
    let mut i: usize = 0;
    while i < np
        invariant
            nl == a.lights@.len(),
            np == a.particles@.len(),
            a.lights@ == level.ambient@[z as int]@[x as int].lights@,
            a.particles@ == level.ambient@[z as int]@[x as int].particles@,
            wx == level.spec_world_center(x as int),
            wz == level.spec_world_center(z as int),
            i <= np,
            es@.len() == nl + i,
            forall|j: int|
                0 <= j < nl ==> is_light_effect(#[trigger] es@[j], a.lights@[j], wx as int, wz as int),
            forall|j: int|
                nl <= j < nl + i ==> is_particle_effect(
                    #[trigger] es@[j],
                    a.particles@[j - nl],
                    wx as int,
                    wz as int,
                ),
        decreases np - i,
    {
        let d = &a.particles[i];
        es.push(
            EffectPlacement {
                kind: EffectKind::Particle { name: d.kind.clone(), rate: d.rate, color: d.color },
                position: WorldVec { x: wx, y: d.height, z: wz },
            },
        );
        i += 1;
    }
    let mut i: usize = 0;
    while i < na
        invariant
            nl == a.lights@.len(),
            np == a.particles@.len(),
            na == a.audio@.len(),
            a.lights@ == level.ambient@[z as int]@[x as int].lights@,
            a.particles@ == level.ambient@[z as int]@[x as int].particles@,
            a.audio@ == level.ambient@[z as int]@[x as int].audio@,
            wx == level.spec_world_center(x as int),
            wz == level.spec_world_center(z as int),
            i <= na,
            es@.len() == nl + np + i,
            forall|j: int|
                0 <= j < nl ==> is_light_effect(#[trigger] es@[j], a.lights@[j], wx as int, wz as int),
            forall|j: int|
                nl <= j < nl + np ==> is_particle_effect(
                    #[trigger] es@[j],
                    a.particles@[j - nl],
                    wx as int,
                    wz as int,
                ),
            forall|j: int|
                nl + np <= j < nl + np + i ==> is_audio_effect(
                    #[trigger] es@[j],
                    a.audio@[j - nl - np],
                    wx as int,
                    wz as int,
                ),
        decreases na - i,
    {
        let d = &a.audio[i];
        es.push(
            EffectPlacement {
                kind: EffectKind::Audio { sound: d.sound.clone(), volume: d.volume, radius: d.radius },
                position: WorldVec { x: wx, y: 0, z: wz },
            },
        );
        i += 1;
    }
    es
}

// === Whole-level synthesis ===

/// Placements of the first `x` cells of row `z`.
pub open spec fn row_count_upto(level: LevelDefinition, z: int, x: int) -> int
    decreases x,
{
    if x <= 0 {
        0
    } else {
        row_count_upto(level, z, x - 1) + cell_count(level, x - 1, z)
    }
}

/// Placements of the first `z` full rows.
pub open spec fn level_count_upto(level: LevelDefinition, z: int) -> int
    decreases z,
{
    if z <= 0 {
        0
    } else {
        level_count_upto(level, z - 1) + row_count_upto(level, z - 1, level.width as int)
    }
}

/// Offset of cell `(x, z)`'s placements in the row-major placement list.
pub open spec fn cell_offset(level: LevelDefinition, x: int, z: int) -> int {
    level_count_upto(level, z) + row_count_upto(level, z, x)
}

/// Effects of the first `x` cells of row `z`.
pub open spec fn row_effects_upto(level: LevelDefinition, z: int, x: int) -> int
    decreases x,
{
    if x <= 0 {
        0
    } else {
        row_effects_upto(level, z, x - 1) + cell_effect_count(level, x - 1, z)
    }
}

/// Effects of the first `z` full rows.
pub open spec fn level_effects_upto(level: LevelDefinition, z: int) -> int
    decreases z,
{
    if z <= 0 {
        0
    } else {
        level_effects_upto(level, z - 1) + row_effects_upto(level, z - 1, level.width as int)
    }
}

/// Offset of cell `(x, z)`'s effects in the row-major effect list.
pub open spec fn cell_effect_offset(level: LevelDefinition, x: int, z: int) -> int {
    level_effects_upto(level, z) + row_effects_upto(level, z, x)
}

/// The placements of every cell before `(x, z)` in row-major order (full
/// rows above `z`, then cells left of `x` in row `z`), each at its computed
/// offset.
pub open spec fn placements_prefix_ok(
    ps: Seq<Placement>,
    level: LevelDefinition,
    z: int,
    x: int,
) -> bool {
    forall|zz: int, xx: int|
        #![trigger cell_count(level, xx, zz)]
        (0 <= zz < z && 0 <= xx < level.width) || (zz == z && 0 <= xx < x) ==> {
            &&& cell_offset(level, xx, zz) >= 0
            &&& cell_count(level, xx, zz) >= 0
            &&& cell_offset(level, xx, zz) + cell_count(level, xx, zz) <= ps.len()
            &&& cell_matches(
                ps.subrange(
                    cell_offset(level, xx, zz),
                    cell_offset(level, xx, zz) + cell_count(level, xx, zz),
                ),
                level,
                xx,
                zz,
            )
        }
}

/// The effects of every cell before `(x, z)` in row-major order, each at its
/// computed offset.
pub open spec fn effects_prefix_ok(
    es: Seq<EffectPlacement>,
    level: LevelDefinition,
    z: int,
    x: int,
) -> bool {
    forall|zz: int, xx: int|
        #![trigger cell_effect_count(level, xx, zz)]
        (0 <= zz < z && 0 <= xx < level.width) || (zz == z && 0 <= xx < x) ==> {
            &&& cell_effect_offset(level, xx, zz) >= 0
            &&& cell_effect_count(level, xx, zz) >= 0
            &&& cell_effect_offset(level, xx, zz) + cell_effect_count(level, xx, zz) <= es.len()
            &&& cell_effects_match(
                es.subrange(
                    cell_effect_offset(level, xx, zz),
                    cell_effect_offset(level, xx, zz) + cell_effect_count(level, xx, zz),
                ),
                level,
                xx,
                zz,
            )
        }
}

/// The full placement list of a level: every cell's placements, row-major,
/// each at its computed offset.
pub open spec fn level_placements_match(ps: Seq<Placement>, level: LevelDefinition) -> bool {
    &&& ps.len() == level_count_upto(level, level.height as int)
    &&& placements_prefix_ok(ps, level, level.height as int, 0)
}

/// The full effect list of a level: every cell's effects, row-major, each at
/// its computed offset.
pub open spec fn level_effects_match(es: Seq<EffectPlacement>, level: LevelDefinition) -> bool {
    &&& es.len() == level_effects_upto(level, level.height as int)
    &&& effects_prefix_ok(es, level, level.height as int, 0)
}

/// Appending to a sequence leaves every existing subrange unchanged.
proof fn lemma_concat_subrange<T>(s1: Seq<T>, tail: Seq<T>, a: int, b: int)
    requires
        0 <= a <= b <= s1.len(),
    ensures
        (s1 + tail).subrange(a, b) == s1.subrange(a, b),
{
    assert((s1 + tail).subrange(a, b) =~= s1.subrange(a, b));
}

/// Appending one cell's placements at its offset extends the row-major
/// prefix by that cell.
proof fn lemma_placements_prefix_extend(
    ps_old: Seq<Placement>,
    cps: Seq<Placement>,
    level: LevelDefinition,
    z: int,
    x: int,
)
    requires
        0 <= z < level.height,
        0 <= x < level.width,
        placements_prefix_ok(ps_old, level, z, x),
        ps_old.len() == cell_offset(level, x, z),
        cps.len() == cell_count(level, x, z),
        cell_matches(cps, level, x, z),
    ensures
        placements_prefix_ok(ps_old + cps, level, z, x + 1),
        (ps_old + cps).len() == cell_offset(level, x + 1, z),
{
    let ps = ps_old + cps;
    assert(ps.subrange(ps_old.len() as int, ps.len() as int) =~= cps);
    assert forall|zz: int, xx: int|
        #![trigger cell_count(level, xx, zz)]
        (0 <= zz < z && 0 <= xx < level.width) || (zz == z && 0 <= xx < x + 1) implies {
        &&& cell_offset(level, xx, zz) >= 0
        &&& cell_count(level, xx, zz) >= 0
        &&& cell_offset(level, xx, zz) + cell_count(level, xx, zz) <= ps.len()
        &&& cell_matches(
            ps.subrange(
                cell_offset(level, xx, zz),
                cell_offset(level, xx, zz) + cell_count(level, xx, zz),
            ),
            level,
            xx,
            zz,
        )
    } by {
        if zz == z && xx == x {
        } else {
            lemma_concat_subrange(
                ps_old,
                cps,
                cell_offset(level, xx, zz),
                cell_offset(level, xx, zz) + cell_count(level, xx, zz),
            );
        }
    }
}

/// Appending one cell's effects at its offset extends the row-major prefix
/// by that cell.
proof fn lemma_effects_prefix_extend(
    es_old: Seq<EffectPlacement>,
    ces: Seq<EffectPlacement>,
    level: LevelDefinition,
    z: int,
    x: int,
)
    requires
        0 <= z < level.height,
        0 <= x < level.width,
        effects_prefix_ok(es_old, level, z, x),
        es_old.len() == cell_effect_offset(level, x, z),
        ces.len() == cell_effect_count(level, x, z),
        cell_effects_match(ces, level, x, z),
    ensures
        effects_prefix_ok(es_old + ces, level, z, x + 1),
        (es_old + ces).len() == cell_effect_offset(level, x + 1, z),
{
    let es = es_old + ces;
    assert(es.subrange(es_old.len() as int, es.len() as int) =~= ces);
    assert forall|zz: int, xx: int|
        #![trigger cell_effect_count(level, xx, zz)]
        (0 <= zz < z && 0 <= xx < level.width) || (zz == z && 0 <= xx < x + 1) implies {
        &&& cell_effect_offset(level, xx, zz) >= 0
        &&& cell_effect_count(level, xx, zz) >= 0
        &&& cell_effect_offset(level, xx, zz) + cell_effect_count(level, xx, zz) <= es.len()
        &&& cell_effects_match(
            es.subrange(
                cell_effect_offset(level, xx, zz),
                cell_effect_offset(level, xx, zz) + cell_effect_count(level, xx, zz),
            ),
            level,
            xx,
            zz,
        )
    } by {
        if zz == z && xx == x {
        } else {
            lemma_concat_subrange(
                es_old,
                ces,
                cell_effect_offset(level, xx, zz),
                cell_effect_offset(level, xx, zz) + cell_effect_count(level, xx, zz),
            );
        }
    }
}

/// A finished row is the same prefix as the start of the next row.
proof fn lemma_prefix_next_row(
    ps: Seq<Placement>,
    es: Seq<EffectPlacement>,
    level: LevelDefinition,
    z: int,
)
    requires
        0 <= z < level.height,
        placements_prefix_ok(ps, level, z, level.width as int),
        effects_prefix_ok(es, level, z, level.width as int),
        ps.len() == cell_offset(level, level.width as int, z),
        es.len() == cell_effect_offset(level, level.width as int, z),
    ensures
        placements_prefix_ok(ps, level, z + 1, 0),
        effects_prefix_ok(es, level, z + 1, 0),
        ps.len() == cell_offset(level, 0, z + 1),
        es.len() == cell_effect_offset(level, 0, z + 1),
{
    assert(level_count_upto(level, z + 1) == level_count_upto(level, z) + row_count_upto(
        level,
        z,
        level.width as int,
    ));
    assert(level_effects_upto(level, z + 1) == level_effects_upto(level, z) + row_effects_upto(
        level,
        z,
        level.width as int,
    ));
    assert(row_count_upto(level, z + 1, 0) == 0);
    assert(row_effects_upto(level, z + 1, 0) == 0);
}

/// Everything the synthesizer produces for one level.
#[derive(Debug, Clone)]
pub struct LevelBuild {
    /// Primitive placements, row-major by cell.
    pub placements: Vec<Placement>,
    /// Ambient-effect placements, row-major by cell.
    pub effects: Vec<EffectPlacement>,
    /// World position the player starts at.
    pub player_world: WorldVec,
}

/// Walk the resolved level and emit every placement and effect instruction,
/// plus the player's world start position.
pub fn build_level_from_data(level: &LevelDefinition) -> (b: LevelBuild)
    requires
        level.wf(),
    ensures
        level_placements_match(b.placements@, *level),
        level_effects_match(b.effects@, *level),
        b.player_world.x == level.spec_world_center(level.player_start.x as int),
        b.player_world.y == PLAYER_START_HEIGHT_MILLI,
        b.player_world.z == level.spec_world_center(level.player_start.z as int),
{
    let h = level.height;
    let w = level.width;
    let mut placements: Vec<Placement> = Vec::new();
    let mut effects: Vec<EffectPlacement> = Vec::new();
    let mut z: usize = 0;
    while z < h
        invariant
            level.wf(),
            h == level.height,
            w == level.width,
            z <= h,
            placements@.len() == cell_offset(*level, 0, z as int),
            effects@.len() == cell_effect_offset(*level, 0, z as int),
            placements_prefix_ok(placements@, *level, z as int, 0),
            effects_prefix_ok(effects@, *level, z as int, 0),
        decreases h - z,
    {
        let mut x: usize = 0;
        while x < w
            invariant
                level.wf(),
                h == level.height,
                w == level.width,
                z < h,
                x <= w,
                placements@.len() == cell_offset(*level, x as int, z as int),
                effects@.len() == cell_effect_offset(*level, x as int, z as int),
                placements_prefix_ok(placements@, *level, z as int, x as int),
                effects_prefix_ok(effects@, *level, z as int, x as int),
            decreases w - x,
        {
            let ghost ps_old = placements@;
            let ghost es_old = effects@;
            let mut cps = cell_placements(level, x as i32, z as i32);
            let ghost cps0 = cps@;
            placements.append(&mut cps);
            let mut ces = cell_effects(level, x as i32, z as i32);
            let ghost ces0 = ces@;
            effects.append(&mut ces);
            proof {
                lemma_placements_prefix_extend(ps_old, cps0, *level, z as int, x as int);
                lemma_effects_prefix_extend(es_old, ces0, *level, z as int, x as int);
            }
            x += 1;
        }
        proof {
            lemma_prefix_next_row(placements@, effects@, *level, z as int);
        }
        z += 1;
    }
    let (px, pz) = level.grid_to_world(level.player_start.x, level.player_start.z);
    LevelBuild {
        placements,
        effects,
        player_world: WorldVec { x: px, y: PLAYER_START_HEIGHT_MILLI, z: pz },
    }
}

// === Laws of wall inference ===

/// Whether a placement is a wall segment sitting on the boundary between
/// cell `(x, z)` and its neighbor in direction `dir`.
pub open spec fn on_boundary(p: Placement, level: LevelDefinition, x: int, z: int, dir: Direction) -> bool {
    let wx = level.spec_world_center(x);
    let wz = level.spec_world_center(z);
    let half = level.tile_size as int / 2;
    &&& p.kind == PlacementKind::WallSegment
    &&& match dir {
        Direction::North => p.center.x == wx && p.center.z == wz - half,
        Direction::South => p.center.x == wx && p.center.z == wz + half,
        Direction::West => p.center.x == wx - half && p.center.z == wz,
        Direction::East => p.center.x == wx + half && p.center.z == wz,
    }
}

/// Every list index within the first `x` cells of row `z` falls inside one
/// cell's placement range.
proof fn lemma_index_in_row(level: LevelDefinition, z: int, x: int, j: int)
    requires
        0 <= x,
        0 <= j < row_count_upto(level, z, x),
    ensures
        exists|xx: int|
            0 <= xx < x && #[trigger] row_count_upto(level, z, xx) <= j && j < row_count_upto(
                level,
                z,
                xx,
            ) + cell_count(level, xx, z),
    decreases x,
{
    if x > 0 {
        if j < row_count_upto(level, z, x - 1) {
            lemma_index_in_row(level, z, x - 1, j);
        } else {
            assert(row_count_upto(level, z, x - 1) <= j && j < row_count_upto(level, z, x - 1)
                + cell_count(level, x - 1, z));
        }
    }
}

/// Every list index within the first `z` rows falls inside one row's
/// placement range.
proof fn lemma_index_in_level(level: LevelDefinition, z: int, j: int)
    requires
        0 <= z,
        0 <= j < level_count_upto(level, z),
    ensures
        exists|zz: int|
            0 <= zz < z && #[trigger] level_count_upto(level, zz) <= j && j < level_count_upto(
                level,
                zz,
            ) + row_count_upto(level, zz, level.width as int),
    decreases z,
{
    if z > 0 {
        if j < level_count_upto(level, z - 1) {
            lemma_index_in_level(level, z - 1, j);
        } else {
            assert(level_count_upto(level, z - 1) <= j && j < level_count_upto(level, z - 1)
                + row_count_upto(level, z - 1, level.width as int));
        }
    }
}

/// Every index of the full placement list falls inside exactly one cell's
/// placement range.
proof fn lemma_index_to_cell(ps: Seq<Placement>, level: LevelDefinition, j: int)
    requires
        level_placements_match(ps, level),
        0 <= j < ps.len(),
    ensures
        exists|zz: int, xx: int|
            {
                &&& 0 <= zz < level.height
                &&& 0 <= xx < level.width
                &&& cell_offset(level, xx, zz) <= j
                &&& j < cell_offset(level, xx, zz) + #[trigger] cell_count(level, xx, zz)
            },
{
    lemma_index_in_level(level, level.height as int, j);
    let zz = choose|zz: int|
        0 <= zz < level.height && #[trigger] level_count_upto(level, zz) <= j && j
            < level_count_upto(level, zz) + row_count_upto(level, zz, level.width as int);
    lemma_index_in_row(level, zz, level.width as int, j - level_count_upto(level, zz));
    let xx = choose|xx: int|
        0 <= xx < level.width && #[trigger] row_count_upto(level, zz, xx) <= j - level_count_upto(
            level,
            zz,
        ) && j - level_count_upto(level, zz) < row_count_upto(level, zz, xx) + cell_count(
            level,
            xx,
            zz,
        );
    assert(cell_offset(level, xx, zz) <= j && j < cell_offset(level, xx, zz) + cell_count(
        level,
        xx,
        zz,
    ));
}

/// Any wall segment in a cell's emission is one of the cell's inferred
/// walls: the cell kind carries walls, the wall's direction has a void
/// neighbor, and the segment has that direction's exact geometry.
proof fn lemma_cell_wall_classified(
    cps: Seq<Placement>,
    level: LevelDefinition,
    xx: int,
    zz: int,
    j: int,
)
    requires
        level.wf(),
        0 <= zz < level.height,
        0 <= xx < level.width,
        cell_matches(cps, level, xx, zz),
        0 <= j < cps.len(),
        cps[j].kind == PlacementKind::WallSegment,
    ensures
        level.geometry@[zz]@[xx].kind == GeometryKind::Floor || level.geometry@[zz]@[xx].kind
            == GeometryKind::Pillar,
        exists|dir: Direction|
            wall_needed(level, xx, zz, dir) && #[trigger] is_wall_segment(
                cps[j],
                level.geometry@[zz]@[xx],
                level.tile_size as int,
                level.spec_world_center(xx),
                level.spec_world_center(zz),
                dir,
            ),
{
    reveal(cell_matches);
    let t = level.geometry@[zz]@[xx];
    let ts = level.tile_size as int;
    let wx = level.spec_world_center(xx);
    let wz = level.spec_world_center(zz);
    let geo = if level.ceiling@[zz]@[xx] is Some {
        cps.drop_last()
    } else {
        cps
    };
    assert(j < geo.len());
    let first_wall: int = match t.kind {
        GeometryKind::Floor => 1,
        GeometryKind::Pillar => 2,
        _ => 0,
    };
    assert(t.kind == GeometryKind::Floor || t.kind == GeometryKind::Pillar);
    let ws = geo.subrange(first_wall, geo.len() as int);
    let local = j - first_wall;
    assert(ws[local] == cps[j]);
    let n = wall_needed(level, xx, zz, Direction::North);
    let s = wall_needed(level, xx, zz, Direction::South);
    let w = wall_needed(level, xx, zz, Direction::West);
    let e = wall_needed(level, xx, zz, Direction::East);
    let i_s = if n {
        1int
    } else {
        0int
    };
    let i_w = i_s + if s {
        1int
    } else {
        0int
    };
    let i_e = i_w + if w {
        1int
    } else {
        0int
    };
    if n && local == 0 {
        assert(is_wall_segment(cps[j], t, ts, wx, wz, Direction::North));
    } else if s && local == i_s {
        assert(is_wall_segment(cps[j], t, ts, wx, wz, Direction::South));
    } else if w && local == i_w {
        assert(is_wall_segment(cps[j], t, ts, wx, wz, Direction::West));
    } else {
        assert(e && local == i_e);
        assert(is_wall_segment(cps[j], t, ts, wx, wz, Direction::East));
    }
}

/// Grid x coordinate of the neighbor in direction `dir`.
pub open spec fn neighbor_x(x: int, dir: Direction) -> int {
    match dir {
        Direction::North => x,
        Direction::South => x,
        Direction::West => x - 1,
        Direction::East => x + 1,
    }
}

/// Grid z coordinate of the neighbor in direction `dir`.
pub open spec fn neighbor_z(z: int, dir: Direction) -> int {
    match dir {
        Direction::North => z - 1,
        Direction::South => z + 1,
        Direction::West => z,
        Direction::East => z,
    }
}

/// The direction pointing back across the same boundary.
pub open spec fn opposite(dir: Direction) -> Direction {
    match dir {
        Direction::North => Direction::South,
        Direction::South => Direction::North,
        Direction::West => Direction::East,
        Direction::East => Direction::West,
    }
}

/// A wall segment of cell `(xx, zz)` with direction `dir` sits on the
/// `bdir` boundary of cell `(x, z)` only as that cell's own `bdir` wall, or
/// as the wall the boundary's neighbor cell points back across it.
proof fn lemma_wall_on_boundary_position(
    p: Placement,
    level: LevelDefinition,
    xx: int,
    zz: int,
    dir: Direction,
    x: int,
    z: int,
    bdir: Direction,
)
    requires
        level.wf(),
        level.tile_size >= 2,
        is_wall_segment(
            p,
            level.geometry@[zz]@[xx],
            level.tile_size as int,
            level.spec_world_center(xx),
            level.spec_world_center(zz),
            dir,
        ),
        on_boundary(p, level, x, z, bdir),
    ensures
        (xx == x && zz == z && dir == bdir) || (xx == neighbor_x(x, bdir) && zz == neighbor_z(
            z,
            bdir,
        ) && dir == opposite(bdir)),
{
    let ts = level.tile_size as int;
    let h = ts / 2;
    assert(ts == 2 * h || ts == 2 * h + 1);
    assert(1 <= h <= ts - 1);
    // Ring identities the linear solver cannot produce on its own.
    assert((z - zz) * ts == z * ts - zz * ts) by (nonlinear_arith);
    assert((zz - z) * ts == zz * ts - z * ts) by (nonlinear_arith);
    assert((x - xx) * ts == x * ts - xx * ts) by (nonlinear_arith);
    assert((xx - x) * ts == xx * ts - x * ts) by (nonlinear_arith);
    let vertical_b = bdir == Direction::North || bdir == Direction::South;
    let vertical_d = dir == Direction::North || dir == Direction::South;
    if vertical_d != vertical_b {
        // A wall across one axis never sits on a boundary across the other:
        // their anchor coordinates differ by half a tile, which is not a
        // multiple of the tile size.
        if vertical_d {
            // p.center.x == wx(xx), boundary x == wx(x) -+ h.
            if bdir == Direction::West {
                crate::num::lemma_no_small_multiple(x - xx, ts, h);
            } else {
                crate::num::lemma_no_small_multiple(xx - x, ts, h);
            }
        } else {
            // p.center.z == wz(zz), boundary z == wz(z) -+ h.
            if bdir == Direction::North {
                crate::num::lemma_no_small_multiple(z - zz, ts, h);
            } else {
                crate::num::lemma_no_small_multiple(zz - z, ts, h);
            }
        }
        assert(false);
    } else if dir == bdir {
        // Same side of the same axis: the cells coincide.
        crate::num::lemma_mul_cancel(xx, x, ts);
        crate::num::lemma_mul_cancel(zz, z, ts);
    } else {
        // Opposite sides of the same axis: only the boundary's neighbor
        // fits, and only when two half tiles make a whole one.
        crate::num::lemma_mul_cancel(
            if vertical_b {
                xx
            } else {
                zz
            },
            if vertical_b {
                x
            } else {
                z
            },
            ts,
        );
        if ts == 2 * h {
            match bdir {
                Direction::North => {
                    assert((z - zz) * ts == 1 * ts);
                    crate::num::lemma_mul_cancel(z - zz, 1, ts);
                },
                Direction::South => {
                    assert((zz - z) * ts == 1 * ts);
                    crate::num::lemma_mul_cancel(zz - z, 1, ts);
                },
                Direction::West => {
                    assert((x - xx) * ts == 1 * ts);
                    crate::num::lemma_mul_cancel(x - xx, 1, ts);
                },
                Direction::East => {
                    assert((xx - x) * ts == 1 * ts);
                    crate::num::lemma_mul_cancel(xx - x, 1, ts);
                },
            }
        } else {
            match bdir {
                Direction::North => {
                    crate::num::lemma_no_small_multiple(z - zz, ts, ts - 1);
                },
                Direction::South => {
                    crate::num::lemma_no_small_multiple(zz - z, ts, ts - 1);
                },
                Direction::West => {
                    crate::num::lemma_no_small_multiple(x - xx, ts, ts - 1);
                },
                Direction::East => {
                    crate::num::lemma_no_small_multiple(xx - x, ts, ts - 1);
                },
            }
            assert(false);
        }
    }
}

/// Position of the `dir` wall inside a tile's inferred-wall list, counting
/// the active directions before it in north, south, west, east order.
spec fn wall_index(level: LevelDefinition, x: int, z: int, dir: Direction) -> int {
    let n: int = if wall_needed(level, x, z, Direction::North) {
        1
    } else {
        0
    };
    let s: int = if wall_needed(level, x, z, Direction::South) {
        1
    } else {
        0
    };
    let w: int = if wall_needed(level, x, z, Direction::West) {
        1
    } else {
        0
    };
    match dir {
        Direction::North => 0,
        Direction::South => n,
        Direction::West => n + s,
        Direction::East => n + s + w,
    }
}

/// Within the emission of a Floor cell whose `bdir` neighbor is void, the
/// only placement on the `bdir` boundary is that direction's wall, at its
/// place in the wall list.
proof fn lemma_single_boundary_wall_in_cell(
    cps: Seq<Placement>,
    level: LevelDefinition,
    x: int,
    z: int,
    bdir: Direction,
    j: int,
)
    requires
        level.wf(),
        level.tile_size >= 2,
        0 <= z < level.height,
        0 <= x < level.width,
        cell_matches(cps, level, x, z),
        level.geometry@[z]@[x].kind == GeometryKind::Floor,
        0 <= j < cps.len(),
        on_boundary(cps[j], level, x, z, bdir),
    ensures
        j == 1 + wall_index(level, x, z, bdir),
{
    reveal(cell_matches);
    let t = level.geometry@[z]@[x];
    let ts = level.tile_size as int;
    let h = ts / 2;
    let wx = level.spec_world_center(x);
    let wz = level.spec_world_center(z);
    let geo = if level.ceiling@[z]@[x] is Some {
        cps.drop_last()
    } else {
        cps
    };
    assert(j < geo.len());
    let ws = geo.subrange(1, geo.len() as int);
    assert(j >= 1);
    let local = j - 1;
    assert(ws[local] == cps[j]);
    let n = wall_needed(level, x, z, Direction::North);
    let s = wall_needed(level, x, z, Direction::South);
    let w = wall_needed(level, x, z, Direction::West);
    let e = wall_needed(level, x, z, Direction::East);
    let i_s = if n {
        1int
    } else {
        0int
    };
    let i_w = i_s + if s {
        1int
    } else {
        0int
    };
    let i_e = i_w + if w {
        1int
    } else {
        0int
    };
    assert(1 <= h);
    // The wall at this index has one of the four directions; a wall of any
    // other direction than the boundary's differs from it in an anchor
    // coordinate by half a tile or a whole tile.
    if n && local == 0 {
        assert(is_wall_segment(cps[j], t, ts, wx, wz, Direction::North));
        assert(bdir == Direction::North);
    } else if s && local == i_s {
        assert(is_wall_segment(cps[j], t, ts, wx, wz, Direction::South));
        assert(bdir == Direction::South);
    } else if w && local == i_w {
        assert(is_wall_segment(cps[j], t, ts, wx, wz, Direction::West));
        assert(bdir == Direction::West);
    } else {
        assert(e && local == i_e);
        assert(is_wall_segment(cps[j], t, ts, wx, wz, Direction::East));
        assert(bdir == Direction::East);
    }
}

/// Wall-inference symmetry, first half: two adjacent floor tiles put no
/// wall on their shared boundary, from either side.
pub proof fn lemma_no_wall_between_floors(level: LevelDefinition, x: int, z: int, dir: Direction)
    requires
        level.wf(),
        level.in_bounds(x, z),
        level.in_bounds(neighbor_x(x, dir), neighbor_z(z, dir)),
        level.geometry@[z]@[x].kind == GeometryKind::Floor,
        level.geometry@[neighbor_z(z, dir)]@[neighbor_x(x, dir)].kind == GeometryKind::Floor,
    ensures
        !wall_needed(level, x, z, dir),
        !wall_needed(level, neighbor_x(x, dir), neighbor_z(z, dir), opposite(dir)),
{
}

/// A Floor cell with a void `bdir` neighbor holds that boundary's wall at
/// a known index of its own placement list.
#[verifier::rlimit(100)]
#[verifier::spinoff_prover]
proof fn lemma_cell_has_boundary_wall(
    cps: Seq<Placement>,
    level: LevelDefinition,
    x: int,
    z: int,
    bdir: Direction,
)
    requires
        level.wf(),
        0 <= z < level.height,
        0 <= x < level.width,
        cell_matches(cps, level, x, z),
        level.geometry@[z]@[x].kind == GeometryKind::Floor,
        wall_needed(level, x, z, bdir),
    ensures
        0 <= 1 + wall_index(level, x, z, bdir) < cps.len(),
        on_boundary(cps[1 + wall_index(level, x, z, bdir)], level, x, z, bdir),
{
    reveal(cell_matches);
    let t = level.geometry@[z]@[x];
    let ts = level.tile_size as int;
    let wx = level.spec_world_center(x);
    let wz = level.spec_world_center(z);
    let geo = if level.ceiling@[z]@[x] is Some {
        cps.drop_last()
    } else {
        cps
    };
    let ws = geo.subrange(1, geo.len() as int);
    let i = wall_index(level, x, z, bdir);
    assert(is_wall_segment(ws[i], t, ts, wx, wz, bdir));
    assert(ws[i] == cps[1 + i]);
}

/// The Floor cell's own wall on a void boundary sits at a known index of
/// the full placement list.
proof fn lemma_boundary_wall_exists(
    ps: Seq<Placement>,
    level: LevelDefinition,
    x: int,
    z: int,
    bdir: Direction,
)
    requires
        level.wf(),
        level_placements_match(ps, level),
        level.in_bounds(x, z),
        level.geometry@[z]@[x].kind == GeometryKind::Floor,
        wall_needed(level, x, z, bdir),
    ensures
        0 <= cell_offset(level, x, z) + 1 + wall_index(level, x, z, bdir) < ps.len(),
        on_boundary(
            ps[cell_offset(level, x, z) + 1 + wall_index(level, x, z, bdir)],
            level,
            x,
            z,
            bdir,
        ),
{
    let off = cell_offset(level, x, z);
    let cnt = cell_count(level, x, z);
    assert(cell_count(level, x, z) == cnt);
    let s = ps.subrange(off, off + cnt);
    assert(cell_matches(s, level, x, z));
    lemma_cell_has_boundary_wall(s, level, x, z, bdir);
    let i = wall_index(level, x, z, bdir);
    assert(s[1 + i] == ps[off + 1 + i]);
}

/// Wall-inference symmetry, second half, over the whole emitted placement
/// list: a Floor tile whose `bdir` neighbor is a void cell inside the grid
/// has exactly one wall segment on the shared boundary, and no other
/// placement of the whole level sits on that boundary.
#[verifier::rlimit(100)]
#[verifier::spinoff_prover]
pub proof fn lemma_exactly_one_boundary_wall(
    ps: Seq<Placement>,
    level: LevelDefinition,
    x: int,
    z: int,
    bdir: Direction,
)
    requires
        level.wf(),
        level.tile_size >= 2,
        level_placements_match(ps, level),
        level.in_bounds(x, z),
        level.in_bounds(neighbor_x(x, bdir), neighbor_z(z, bdir)),
        level.geometry@[z]@[x].kind == GeometryKind::Floor,
        level.geometry@[neighbor_z(z, bdir)]@[neighbor_x(x, bdir)].kind == GeometryKind::Void,
    ensures
        exists|k: int| 0 <= k < ps.len() && on_boundary(#[trigger] ps[k], level, x, z, bdir),
        forall|k1: int, k2: int|
            #![trigger on_boundary(ps[k1], level, x, z, bdir), on_boundary(ps[k2], level, x, z, bdir)]
            0 <= k1 < ps.len() && 0 <= k2 < ps.len() && on_boundary(ps[k1], level, x, z, bdir)
                && on_boundary(ps[k2], level, x, z, bdir) ==> k1 == k2,
{
    let off = cell_offset(level, x, z);
    let i = wall_index(level, x, z, bdir);
    assert(wall_needed(level, x, z, bdir));
    lemma_boundary_wall_exists(ps, level, x, z, bdir);
    assert forall|k: int|
        0 <= k < ps.len() && on_boundary(#[trigger] ps[k], level, x, z, bdir) implies k == off + 1
        + i by {
        lemma_index_to_cell(ps, level, k);
        let (zz, xx): (int, int) = choose|zz: int, xx: int|
            {
                &&& 0 <= zz < level.height
                &&& 0 <= xx < level.width
                &&& cell_offset(level, xx, zz) <= k
                &&& k < cell_offset(level, xx, zz) + #[trigger] cell_count(level, xx, zz)
            };
        let off_k = cell_offset(level, xx, zz);
        let cnt_k = cell_count(level, xx, zz);
        let sk = ps.subrange(off_k, off_k + cnt_k);
        assert(cell_matches(sk, level, xx, zz));
        assert(sk[k - off_k] == ps[k]);
        lemma_cell_wall_classified(sk, level, xx, zz, k - off_k);
        let dir = choose|dir: Direction|
            wall_needed(level, xx, zz, dir) && #[trigger] is_wall_segment(
                sk[k - off_k],
                level.geometry@[zz]@[xx],
                level.tile_size as int,
                level.spec_world_center(xx),
                level.spec_world_center(zz),
                dir,
            );
        lemma_wall_on_boundary_position(ps[k], level, xx, zz, dir, x, z, bdir);
        if xx == neighbor_x(x, bdir) && zz == neighbor_z(z, bdir) && dir == opposite(bdir) {
            // The void neighbor emits no walls at all.
            assert(false);
        } else {
            assert(xx == x && zz == z);
            lemma_single_boundary_wall_in_cell(sk, level, x, z, bdir, k - off_k);
        }
    }
}

} // verus!
