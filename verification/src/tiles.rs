//! Resolved tile types and the tile definitions palettes map characters to.
//!
//! Measurements are in milli-units (thousandths of a world unit). The bounds
//! `MAX_MEASURE_MILLI` and `MAX_TILE_SIZE_MILLI` exist only so that the
//! placement arithmetic downstream provably fits in 64-bit integers.

use vstd::prelude::*;

verus! {

/// Upper bound on any single measurement (heights, depths, elevations).
pub const MAX_MEASURE_MILLI: i64 = 1_000_000_000;

/// Upper bound on the edge length of one grid tile.
pub const MAX_TILE_SIZE_MILLI: i64 = 1_000_000;

/// Structure height of the default (void) tile.
pub const VOID_WALL_HEIGHT_MILLI: i64 = 4_000;

/// Floor slab depth of the default (void) tile.
pub const VOID_FLOOR_DEPTH_MILLI: i64 = 500;

/// An RGB color triple, each channel in milli-units (1000 = full).
#[derive(Debug, Clone, Copy, PartialEq, Eq, Structural)]
pub struct Rgb {
    pub r: i64,
    pub g: i64,
    pub b: i64,
}

/// An RGBA color, each channel in milli-units (1000 = full).
#[derive(Debug, Clone, Copy, PartialEq, Eq, Structural)]
pub struct Rgba {
    pub r: i64,
    pub g: i64,
    pub b: i64,
    pub a: i64,
}

/// The kind of a geometry tile, which decides what placements a cell emits.
#[derive(Debug, Clone, Copy, PartialEq, Eq, Structural)]
pub enum GeometryKind {
    Floor,
    Wall,
    Pillar,
    Doorway,
    Void,
}

impl GeometryKind {
    /// Whether this tile kind carries a floor slab.
    pub fn has_floor(&self) -> (r: bool)
        ensures
            r == self.spec_has_floor(),
    {
        matches!(self, GeometryKind::Floor | GeometryKind::Pillar | GeometryKind::Doorway)
    }

    /// Whether this tile kind is solid (blocks movement).
    pub fn is_solid(&self) -> (r: bool)
        ensures
            r == (*self == GeometryKind::Wall),
    {
        matches!(self, GeometryKind::Wall)
    }

    pub open spec fn spec_has_floor(self) -> bool {
        self == GeometryKind::Floor || self == GeometryKind::Pillar || self
            == GeometryKind::Doorway
    }
}

/// Definition of a geometry tile in a palette. `None` fields fall back to the
/// level-wide defaults (height, depth) or to hard-coded constants (material,
/// elevation) at resolution time.
#[derive(Debug, Clone)]
pub struct GeometryTileDef {
    pub kind: GeometryKind,
    pub material: Option<String>,
    pub height: Option<i64>,
    pub floor_depth: Option<i64>,
    pub elevation: Option<i64>,
}

impl GeometryTileDef {
    /// All present measurements are within the machine bounds.
    pub open spec fn wf(self) -> bool {
        &&& (self.height matches Some(h) ==> 0 <= h <= MAX_MEASURE_MILLI)
        &&& (self.floor_depth matches Some(d) ==> 0 <= d <= MAX_MEASURE_MILLI)
        &&& (self.elevation matches Some(e) ==> -MAX_MEASURE_MILLI <= e <= MAX_MEASURE_MILLI)
    }
}

/// A resolved geometry tile with all properties filled in.
///
/// The elevation convention is absolute: the top face of the floor slab sits
/// at `elevation`, and walls and pillars rise from `elevation` upward.
#[derive(Debug, Clone)]
pub struct ResolvedGeometryTile {
    pub kind: GeometryKind,
    pub material: String,
    pub height: i64,
    pub floor_depth: i64,
    pub elevation: i64,
}

impl ResolvedGeometryTile {
    /// All measurements are within the machine bounds.
    pub open spec fn wf(self) -> bool {
        &&& 0 <= self.height <= MAX_MEASURE_MILLI
        &&& 0 <= self.floor_depth <= MAX_MEASURE_MILLI
        &&& -MAX_MEASURE_MILLI <= self.elevation <= MAX_MEASURE_MILLI
    }

    /// The tile every unknown or out-of-bounds cell resolves to.
    pub open spec fn is_void_default(self) -> bool {
        &&& self.kind == GeometryKind::Void
        &&& self.material@ == "stone"@
        &&& self.height == VOID_WALL_HEIGHT_MILLI
        &&& self.floor_depth == VOID_FLOOR_DEPTH_MILLI
        &&& self.elevation == 0
    }
}

impl Default for ResolvedGeometryTile {
    /// The default geometry tile: a void cell with the stock material.
    fn default() -> (r: Self)
        ensures
            r.is_void_default(),
            r.wf(),
    {
        ResolvedGeometryTile {
            kind: GeometryKind::Void,
            material: String::from_str("stone"),
            height: VOID_WALL_HEIGHT_MILLI,
            floor_depth: VOID_FLOOR_DEPTH_MILLI,
            elevation: 0,
        }
    }
}

/// Definition of a ceiling tile in a palette.
#[derive(Debug, Clone)]
pub struct CeilingTileDef {
    pub material: Option<String>,
    pub height: Option<i64>,
    pub thickness: Option<i64>,
}

impl CeilingTileDef {
    pub open spec fn wf(self) -> bool {
        &&& (self.height matches Some(h) ==> 0 <= h <= MAX_MEASURE_MILLI)
        &&& (self.thickness matches Some(t) ==> 0 <= t <= MAX_MEASURE_MILLI)
    }
}

/// A resolved ceiling tile: a slab whose bottom face sits at `height`.
#[derive(Debug, Clone)]
pub struct ResolvedCeilingTile {
    pub material: String,
    pub height: i64,
    pub thickness: i64,
}

impl ResolvedCeilingTile {
    pub open spec fn wf(self) -> bool {
        &&& 0 <= self.height <= MAX_MEASURE_MILLI
        &&& 0 <= self.thickness <= MAX_MEASURE_MILLI
    }
}

/// A point light carried by an ambient tile.
#[derive(Debug, Clone, Copy, PartialEq, Eq, Structural)]
pub struct LightDef {
    pub height: i64,
    pub intensity: i64,
    pub shadows: bool,
    pub color: Rgb,
    pub range: i64,
}

/// A particle emitter carried by an ambient tile.
#[derive(Debug, Clone)]
pub struct ParticleDef {
    pub kind: String,
    pub height: i64,
    pub rate: i64,
    pub color: Option<Rgba>,
}

/// An audio zone carried by an ambient tile.
#[derive(Debug, Clone)]
pub struct AudioDef {
    pub sound: String,
    pub volume: i64,
    pub radius: i64,
}

/// Definition of an ambient tile in a palette. A single cell may stack
/// several lights, particle emitters, and audio zones.
#[derive(Debug, Clone)]
pub struct AmbientTileDef {
    pub lights: Vec<LightDef>,
    pub particles: Vec<ParticleDef>,
    pub audio: Vec<AudioDef>,
}

/// A resolved ambient tile with all its elements.
#[derive(Debug, Clone)]
pub struct ResolvedAmbientTile {
    pub lights: Vec<LightDef>,
    pub particles: Vec<ParticleDef>,
    pub audio: Vec<AudioDef>,
}

impl ResolvedAmbientTile {
    /// No lights, particles, or audio zones: the default for blank and
    /// unknown characters and for out-of-bounds queries.
    pub open spec fn is_empty(self) -> bool {
        &&& self.lights@.len() == 0
        &&& self.particles@.len() == 0
        &&& self.audio@.len() == 0
    }

}

impl Default for ResolvedAmbientTile {
    /// The default ambient tile carries no elements at all.
    fn default() -> (r: Self)
        ensures
            r.is_empty(),
    {
        ResolvedAmbientTile { lights: Vec::new(), particles: Vec::new(), audio: Vec::new() }
    }
}

/// Copy a vector of light definitions.
pub(crate) fn copy_lights(v: &Vec<LightDef>) -> (r: Vec<LightDef>)
    ensures
        r@ == v@,
{
    let mut r: Vec<LightDef> = Vec::new();
    let len = v.len();
    let mut i: usize = 0;
    while i < len
        invariant
            len == v@.len(),
            i <= len,
            r@ == v@.subrange(0, i as int),
        decreases len - i,
    {
        r.push(v[i]);
        proof {
            assert(r@ =~= v@.subrange(0, i + 1));
        }
        i += 1;
    }
    proof {
        assert(v@.subrange(0, len as int) =~= v@);
    }
    r
}

/// Copy a vector of particle definitions, cloning each name.
pub(crate) fn copy_particles(v: &Vec<ParticleDef>) -> (r: Vec<ParticleDef>)
    ensures
        r@ == v@,
{
    let mut r: Vec<ParticleDef> = Vec::new();
    let len = v.len();
    let mut i: usize = 0;
    while i < len
        invariant
            len == v@.len(),
            i <= len,
            r@ == v@.subrange(0, i as int),
        decreases len - i,
    {
        let p = &v[i];
        r.push(ParticleDef { kind: p.kind.clone(), height: p.height, rate: p.rate, color: p.color });
        proof {
            assert(r@ =~= v@.subrange(0, i + 1));
        }
        i += 1;
    }
    proof {
        assert(v@.subrange(0, len as int) =~= v@);
    }
    r
}

/// Copy a vector of audio definitions, cloning each sound name.
pub(crate) fn copy_audio(v: &Vec<AudioDef>) -> (r: Vec<AudioDef>)
    ensures
        r@ == v@,
{
    let mut r: Vec<AudioDef> = Vec::new();
    let len = v.len();
    let mut i: usize = 0;
    while i < len
        invariant
            len == v@.len(),
            i <= len,
            r@ == v@.subrange(0, i as int),
        decreases len - i,
    {
        let a = &v[i];
        r.push(AudioDef { sound: a.sound.clone(), volume: a.volume, radius: a.radius });
        proof {
            assert(r@ =~= v@.subrange(0, i + 1));
        }
        i += 1;
    }
    proof {
        assert(v@.subrange(0, len as int) =~= v@);
    }
    r
}

/// Level-wide ambient light settings.
#[derive(Debug, Clone, Copy, PartialEq, Eq, Structural)]
pub struct GlobalAmbientDef {
    pub color: Rgb,
    pub brightness: i64,
}

impl Default for GlobalAmbientDef {
    /// Dim blue-grey ambient light.
    fn default() -> (r: Self)
        ensures
            r.color == (Rgb { r: 400, g: 400, b: 500 }),
            r.brightness == 30_000i64,
    {
        GlobalAmbientDef { color: Rgb { r: 400, g: 400, b: 500 }, brightness: 30_000 }
    }
}

} // verus!
