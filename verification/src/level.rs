//! The raw level description and the fully resolved level model.
//!
//! A raw description is the parsed form of an authored level file: character
//! grids, level-wide defaults, and palette references. Resolution (see
//! `resolve`) turns it into a `LevelDefinition` whose grids are fully
//! substituted and padded, and which answers cell queries safely for any
//! coordinate.

use vstd::prelude::*;

use crate::palettes::named_lookup;
use crate::palettes::named_get;
use crate::palettes::NamedEntry;
use crate::palettes::PaletteEntry;
use crate::tiles::copy_audio;
use crate::tiles::copy_lights;
use crate::tiles::copy_particles;
use crate::tiles::AmbientTileDef;
use crate::tiles::CeilingTileDef;
use crate::tiles::GeometryTileDef;
use crate::tiles::GlobalAmbientDef;
use crate::tiles::LightDef;
use crate::tiles::ParticleDef;
use crate::tiles::AudioDef;
use crate::tiles::ResolvedAmbientTile;
use crate::tiles::ResolvedCeilingTile;
use crate::tiles::ResolvedGeometryTile;
use crate::tiles::MAX_TILE_SIZE_MILLI;
use crate::tiles::MAX_MEASURE_MILLI;

verus! {

/// A grid cell coordinate: column `x`, row `z`.
#[derive(Debug, Clone, Copy, PartialEq, Eq, Structural)]
pub struct GridPos {
    pub x: i32,
    pub z: i32,
}

/// A resolved monster spawn point taken from the monster grid.
#[derive(Debug, Clone)]
pub struct ResolvedMonsterSpawn {
    /// Grid position of the spawn.
    pub grid_pos: GridPos,
    /// Creature type identifier, validated against the creature registry at
    /// spawn-resolution time, not here.
    pub enemy_type: String,
}

/// Legacy area spawn definition, carried through resolution unchanged.
#[derive(Debug, Clone)]
pub struct SpawnZoneDef {
    pub pos: GridPos,
    pub half_extents: GridPos,
    pub enemy_type: String,
    pub max_enemies: usize,
    pub spawn_delay: i64,
}

/// Length of the longest row of a character grid.
pub open spec fn spec_grid_width(rows: Seq<String>) -> int
    decreases rows.len(),
{
    if rows.len() == 0 {
        0
    } else {
        let rest = spec_grid_width(rows.drop_last());
        let last = rows.last()@.len() as int;
        if last > rest {
            last
        } else {
            rest
        }
    }
}

/// Every row is at most as long as the grid is wide.
pub proof fn lemma_grid_width_bounds(rows: Seq<String>, i: int)
    requires
        0 <= i < rows.len(),
    ensures
        rows[i]@.len() <= spec_grid_width(rows),
        spec_grid_width(rows) >= 0,
    decreases rows.len(),
{
    if rows.len() > 0 {
        if i < rows.len() - 1 {
            assert(rows.drop_last()[i] == rows[i]);
            lemma_grid_width_bounds(rows.drop_last(), i);
        } else {
            lemma_grid_width_nonneg(rows.drop_last());
        }
    }
}

/// Grid width is never negative.
pub proof fn lemma_grid_width_nonneg(rows: Seq<String>)
    ensures
        spec_grid_width(rows) >= 0,
    decreases rows.len(),
{
    if rows.len() > 0 {
        lemma_grid_width_nonneg(rows.drop_last());
    }
}

/// Raw level definition, as parsed from an authored level file.
#[derive(Debug, Clone)]
pub struct LevelDefinitionRaw {
    pub name: String,
    pub tile_size: i64,
    pub default_wall_height: i64,
    pub default_floor_depth: i64,
    pub default_ceiling_height: i64,
    pub default_ceiling_thickness: i64,
    pub global_ambient: GlobalAmbientDef,
    pub player_start: GridPos,
    /// External palette file references; each falls back to the matching
    /// inline palette when absent or not found in the registry.
    pub geometry_palette_file: Option<String>,
    pub ambient_palette_file: Option<String>,
    pub monster_palette_file: Option<String>,
    pub ceiling_palette_file: Option<String>,
    /// Inline palettes.
    pub geometry_palette: Vec<PaletteEntry<GeometryTileDef>>,
    pub ambient_palette: Vec<PaletteEntry<AmbientTileDef>>,
    pub monster_palette: Vec<PaletteEntry<String>>,
    pub ceiling_palette: Vec<PaletteEntry<CeilingTileDef>>,
    /// Character grids. Geometry and ambient are required; the monster and
    /// ceiling grids may be empty (absent).
    pub geometry: Vec<String>,
    pub ambient: Vec<String>,
    pub monsters: Vec<String>,
    pub ceiling: Vec<String>,
    /// Legacy spawn zones, carried through unchanged.
    pub spawn_zones: Vec<SpawnZoneDef>,
}

impl LevelDefinitionRaw {
    /// Machine bounds on the raw description: measurements fit the milli-unit
    /// budget and the grid dimensions fit in 32-bit coordinates.
    pub open spec fn wf(self) -> bool {
        &&& 0 < self.tile_size <= MAX_TILE_SIZE_MILLI
        &&& 0 <= self.default_wall_height <= MAX_MEASURE_MILLI
        &&& 0 <= self.default_floor_depth <= MAX_MEASURE_MILLI
        &&& 0 <= self.default_ceiling_height <= MAX_MEASURE_MILLI
        &&& 0 <= self.default_ceiling_thickness <= MAX_MEASURE_MILLI
        &&& forall|i: int|
            0 <= i < self.geometry_palette@.len() ==> (#[trigger] self.geometry_palette@[i]).value.wf()
        &&& forall|i: int|
            0 <= i < self.ceiling_palette@.len() ==> (#[trigger] self.ceiling_palette@[i]).value.wf()
        &&& self.geometry@.len() <= i32::MAX
        &&& spec_grid_width(self.geometry@) <= i32::MAX
    }

    /// The geometry and ambient grids agree on both dimensions; theirs is the
    /// master dimension of the level.
    pub open spec fn master_dims_ok(self) -> bool {
        &&& self.ambient@.len() == self.geometry@.len()
        &&& spec_grid_width(self.ambient@) == spec_grid_width(self.geometry@)
    }

    /// The monster grid, when present, matches the master dimension.
    pub open spec fn monster_dims_ok(self) -> bool {
        self.monsters@.len() == 0 || (self.monsters@.len() == self.geometry@.len()
            && spec_grid_width(self.monsters@) == spec_grid_width(self.geometry@))
    }

    /// The ceiling grid, when present, matches the master dimension.
    pub open spec fn ceiling_dims_ok(self) -> bool {
        self.ceiling@.len() == 0 || (self.ceiling@.len() == self.geometry@.len()
            && spec_grid_width(self.ceiling@) == spec_grid_width(self.geometry@))
    }

    /// All structural dimension checks pass; resolution succeeds exactly when
    /// this holds.
    pub open spec fn dims_ok(self) -> bool {
        self.master_dims_ok() && self.monster_dims_ok() && self.ceiling_dims_ok()
    }
}

/// Processed level definition with fully resolved, padded grids.
#[derive(Debug, Clone)]
pub struct LevelDefinition {
    pub name: String,
    pub tile_size: i64,
    pub default_wall_height: i64,
    pub default_floor_depth: i64,
    pub default_ceiling_height: i64,
    pub default_ceiling_thickness: i64,
    pub global_ambient: GlobalAmbientDef,
    pub player_start: GridPos,
    pub width: usize,
    pub height: usize,
    pub geometry: Vec<Vec<ResolvedGeometryTile>>,
    pub ambient: Vec<Vec<ResolvedAmbientTile>>,
    /// Ceiling grid; `None` cells mean open sky.
    pub ceiling: Vec<Vec<Option<ResolvedCeilingTile>>>,
    /// Monster spawn points in row-major grid order.
    pub monster_spawns: Vec<ResolvedMonsterSpawn>,
    /// Legacy spawn zones, carried through unchanged.
    pub spawn_zones: Vec<SpawnZoneDef>,
}

impl LevelDefinition {
    /// Whether `(x, z)` lies inside the level's grid.
    pub open spec fn in_bounds(self, x: int, z: int) -> bool {
        0 <= x < self.width && 0 <= z < self.height
    }

    /// Structural well-formedness: all four grids are exactly
    /// `width x height`, every tile is within the measurement bounds, and
    /// every monster spawn lies inside the grid.
    pub open spec fn wf(self) -> bool {
        &&& 0 < self.tile_size <= MAX_TILE_SIZE_MILLI
        &&& self.width <= i32::MAX
        &&& self.height <= i32::MAX
        &&& self.geometry@.len() == self.height
        &&& forall|z: int|
            0 <= z < self.height ==> (#[trigger] self.geometry@[z])@.len() == self.width
        &&& forall|z: int, x: int|
            0 <= z < self.height && 0 <= x < self.width ==> (
            #[trigger] self.geometry@[z]@[x]).wf()
        &&& self.ambient@.len() == self.height
        &&& forall|z: int| 0 <= z < self.height ==> (#[trigger] self.ambient@[z])@.len() == self.width
        &&& self.ceiling@.len() == self.height
        &&& forall|z: int| 0 <= z < self.height ==> (#[trigger] self.ceiling@[z])@.len() == self.width
        &&& forall|z: int, x: int|
            0 <= z < self.height && 0 <= x < self.width ==> match #[trigger] self.ceiling@[z]@[x] {
                Some(t) => t.wf(),
                None => true,
            }
        &&& forall|i: int|
            0 <= i < self.monster_spawns@.len() ==> {
                let p = (#[trigger] self.monster_spawns@[i]).grid_pos;
                0 <= p.x < self.width && 0 <= p.z < self.height
            }
    }

    /// Geometry tile at a grid position; any out-of-bounds coordinate gets
    /// the void default, never a panic.
    pub fn get_geometry(&self, x: i32, z: i32) -> (t: ResolvedGeometryTile)
        requires
            self.wf(),
        ensures
            self.in_bounds(x as int, z as int) ==> t == self.geometry@[z as int]@[x as int],
            !self.in_bounds(x as int, z as int) ==> t.is_void_default(),
            t.wf(),
    {
        if x < 0 || z < 0 {
            return ResolvedGeometryTile::default();
        }
        let ux = x as usize;
        let uz = z as usize;
        if uz >= self.height || ux >= self.width {
            return ResolvedGeometryTile::default();
        }
        let cell = &self.geometry[uz][ux];
        ResolvedGeometryTile {
            kind: cell.kind,
            material: cell.material.clone(),
            height: cell.height,
            floor_depth: cell.floor_depth,
            elevation: cell.elevation,
        }
    }

    /// Ambient tile at a grid position; out of bounds yields the empty tile.
    pub fn get_ambient(&self, x: i32, z: i32) -> (t: ResolvedAmbientTile)
        requires
            self.wf(),
        ensures
            self.in_bounds(x as int, z as int) ==> {
                let cell = self.ambient@[z as int]@[x as int];
                t.lights@ == cell.lights@ && t.particles@ == cell.particles@ && t.audio@
                    == cell.audio@
            },
            !self.in_bounds(x as int, z as int) ==> t.is_empty(),
    {
        if x < 0 || z < 0 {
            return ResolvedAmbientTile::default();
        }
        let ux = x as usize;
        let uz = z as usize;
        if uz >= self.height || ux >= self.width {
            return ResolvedAmbientTile::default();
        }
        let cell = &self.ambient[uz][ux];
        ResolvedAmbientTile {
            lights: copy_lights(&cell.lights),
            particles: copy_particles(&cell.particles),
            audio: copy_audio(&cell.audio),
        }
    }

    /// Ceiling tile at a grid position; `None` when out of bounds or open
    /// sky.
    pub fn get_ceiling(&self, x: i32, z: i32) -> (t: Option<ResolvedCeilingTile>)
        requires
            self.wf(),
        ensures
            self.in_bounds(x as int, z as int) ==> t == self.ceiling@[z as int]@[x as int],
            !self.in_bounds(x as int, z as int) ==> t is None,
    {
        if x < 0 || z < 0 {
            return None;
        }
        let ux = x as usize;
        let uz = z as usize;
        if uz >= self.height || ux >= self.width {
            return None;
        }
        match &self.ceiling[uz][ux] {
            Some(cell) => Some(
                ResolvedCeilingTile {
                    material: cell.material.clone(),
                    height: cell.height,
                    thickness: cell.thickness,
                },
            ),
            None => None,
        }
    }

    /// World position (in milli-units) of the center of a grid tile.
    pub fn grid_to_world(&self, x: i32, z: i32) -> (w: (i64, i64))
        requires
            self.wf(),
        ensures
            w.0 == x * self.tile_size + self.tile_size / 2,
            w.1 == z * self.tile_size + self.tile_size / 2,
    {
        proof {
            crate::num::lemma_mul_in_range(
                x as int,
                self.tile_size as int,
                i32::MIN as int,
                i32::MAX as int,
                MAX_TILE_SIZE_MILLI as int,
            );
            crate::num::lemma_mul_in_range(
                z as int,
                self.tile_size as int,
                i32::MIN as int,
                i32::MAX as int,
                MAX_TILE_SIZE_MILLI as int,
            );
        }
        let half = self.tile_size / 2;
        ((x as i64) * self.tile_size + half, (z as i64) * self.tile_size + half)
    }
}

/// Registry of all resolved level definitions, keyed by level name.
#[derive(Debug, Clone)]
pub struct LevelRegistry {
    pub levels: Vec<NamedEntry<LevelDefinition>>,
}

impl LevelRegistry {
    /// An empty registry.
    pub fn new() -> (r: Self)
        ensures
            r.levels@.len() == 0,
    {
        LevelRegistry { levels: Vec::new() }
    }

    /// Get a level by name.
    pub fn get(&self, name: &str) -> (r: Option<&LevelDefinition>)
        ensures
            match r {
                Some(v) => named_lookup(self.levels@, name@) == Some(*v),
                None => named_lookup(self.levels@, name@) is None,
            },
    {
        named_get(&self.levels, name)
    }
}

/// Which level to load next.
#[derive(Debug, Clone)]
pub struct CurrentLevel {
    pub name: String,
}

impl Default for CurrentLevel {
    /// The first level of the game.
    fn default() -> (r: Self)
        ensures
            r.name@ == "level1"@,
    {
        CurrentLevel { name: String::from_str("level1") }
    }
}

} // verus!
