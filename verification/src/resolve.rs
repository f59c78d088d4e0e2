//! Resolution of a raw level description against the palette registry.
//!
//! The resolution rules, cell by cell:
//! - geometry: palette hit substitutes the definition with level defaults for
//!   absent fields; unknown characters resolve to the void default; rows are
//!   padded to the master width with the void default.
//! - ambient: blank (`.` or space) and unknown characters resolve to the
//!   empty tile; rows are padded with the empty tile.
//! - ceiling (authored): blank means open sky (`None`); unknown characters
//!   get the default ceiling; rows are padded with `None`.
//! - ceiling (absent): synthesized from geometry, one default ceiling tile
//!   over every floor-carrying cell.
//! - monsters: non-blank characters with a palette hit become spawn records
//!   in row-major order; unknown characters are dropped.

use vstd::prelude::*;
use vstd::string::StrSliceExecFns;

use crate::error::DataLoadError;
use crate::level::spec_grid_width;
use crate::level::LevelDefinition;
use crate::level::lemma_grid_width_bounds;
use crate::level::lemma_grid_width_nonneg;
use crate::level::GridPos;
use crate::level::LevelDefinitionRaw;
use crate::level::ResolvedMonsterSpawn;
use crate::palettes::lemma_palette_lookup_member;
use crate::palettes::lemma_named_lookup_member;
use crate::palettes::named_lookup;
use crate::palettes::palette_get;
use crate::palettes::palette_lookup;
use crate::palettes::PaletteEntry;
use crate::palettes::PaletteRegistry;
use crate::tiles::copy_audio;
use crate::tiles::copy_lights;
use crate::tiles::copy_particles;
use crate::tiles::AmbientTileDef;
use crate::tiles::CeilingTileDef;
use crate::tiles::GeometryTileDef;
use crate::tiles::ResolvedAmbientTile;
use crate::tiles::ResolvedCeilingTile;
use crate::tiles::ResolvedGeometryTile;
use crate::tiles::MAX_MEASURE_MILLI;

verus! {

/// Blank grid characters: no ambient elements, no ceiling, no spawn.
pub open spec fn is_blank(c: char) -> bool {
    c == '.' || c == ' '
}

// === Effective palettes ===
//
// Each layer prefers its external palette file when the reference is present
// and found in the registry, and falls back to the inline palette otherwise.

pub open spec fn effective_geometry_palette(raw: LevelDefinitionRaw, reg: PaletteRegistry) -> Seq<
    PaletteEntry<GeometryTileDef>,
> {
    match raw.geometry_palette_file {
        Some(f) => match named_lookup(reg.geometry@, f@) {
            Some(file) => file.tiles@,
            None => raw.geometry_palette@,
        },
        None => raw.geometry_palette@,
    }
}

pub open spec fn effective_ambient_palette(raw: LevelDefinitionRaw, reg: PaletteRegistry) -> Seq<
    PaletteEntry<AmbientTileDef>,
> {
    match raw.ambient_palette_file {
        Some(f) => match named_lookup(reg.ambient@, f@) {
            Some(file) => file.tiles@,
            None => raw.ambient_palette@,
        },
        None => raw.ambient_palette@,
    }
}

pub open spec fn effective_monster_palette(raw: LevelDefinitionRaw, reg: PaletteRegistry) -> Seq<
    PaletteEntry<String>,
> {
    match raw.monster_palette_file {
        Some(f) => match named_lookup(reg.monster@, f@) {
            Some(file) => file.entries@,
            None => raw.monster_palette@,
        },
        None => raw.monster_palette@,
    }
}

pub open spec fn effective_ceiling_palette(raw: LevelDefinitionRaw, reg: PaletteRegistry) -> Seq<
    PaletteEntry<CeilingTileDef>,
> {
    match raw.ceiling_palette_file {
        Some(f) => match named_lookup(reg.ceiling@, f@) {
            Some(file) => file.tiles@,
            None => raw.ceiling_palette@,
        },
        None => raw.ceiling_palette@,
    }
}

fn choose_geometry_palette<'a>(raw: &'a LevelDefinitionRaw, reg: &'a PaletteRegistry) -> (p: &'a Vec<
    PaletteEntry<GeometryTileDef>,
>)
    requires
        raw.wf(),
        reg.wf(),
    ensures
        p@ == effective_geometry_palette(*raw, *reg),
        forall|i: int| 0 <= i < p@.len() ==> (#[trigger] p@[i]).value.wf(),
{
    match &raw.geometry_palette_file {
        Some(f) => match reg.get_geometry(f.as_str()) {
            Some(file) => {
                proof {
                    lemma_named_lookup_member(reg.geometry@, f@);
                }
                &file.tiles
            },
            None => &raw.geometry_palette,
        },
        None => &raw.geometry_palette,
    }
}

fn choose_ambient_palette<'a>(raw: &'a LevelDefinitionRaw, reg: &'a PaletteRegistry) -> (p: &'a Vec<
    PaletteEntry<AmbientTileDef>,
>)
    ensures
        p@ == effective_ambient_palette(*raw, *reg),
{
    match &raw.ambient_palette_file {
        Some(f) => match reg.get_ambient(f.as_str()) {
            Some(file) => &file.tiles,
            None => &raw.ambient_palette,
        },
        None => &raw.ambient_palette,
    }
}

fn choose_monster_palette<'a>(raw: &'a LevelDefinitionRaw, reg: &'a PaletteRegistry) -> (p: &'a Vec<
    PaletteEntry<String>,
>)
    ensures
        p@ == effective_monster_palette(*raw, *reg),
{
    match &raw.monster_palette_file {
        Some(f) => match reg.get_monster(f.as_str()) {
            Some(file) => &file.entries,
            None => &raw.monster_palette,
        },
        None => &raw.monster_palette,
    }
}

fn choose_ceiling_palette<'a>(raw: &'a LevelDefinitionRaw, reg: &'a PaletteRegistry) -> (p: &'a Vec<
    PaletteEntry<CeilingTileDef>,
>)
    requires
        raw.wf(),
        reg.wf(),
    ensures
        p@ == effective_ceiling_palette(*raw, *reg),
        forall|i: int| 0 <= i < p@.len() ==> (#[trigger] p@[i]).value.wf(),
{
    match &raw.ceiling_palette_file {
        Some(f) => match reg.get_ceiling(f.as_str()) {
            Some(file) => {
                proof {
                    lemma_named_lookup_member(reg.ceiling@, f@);
                }
                &file.tiles
            },
            None => &raw.ceiling_palette,
        },
        None => &raw.ceiling_palette,
    }
}

// === Geometry layer ===

/// How one geometry character resolves: palette hit fills absent fields from
/// the level defaults, miss yields the void default.
pub open spec fn geo_tile_resolves(
    t: ResolvedGeometryTile,
    pal: Seq<PaletteEntry<GeometryTileDef>>,
    c: char,
    dwh: i64,
    dfd: i64,
) -> bool {
    match palette_lookup(pal, c) {
        Some(def) => {
            &&& t.kind == def.kind
            &&& t.material@ == (match def.material {
                Some(m) => m@,
                None => "stone"@,
            })
            &&& t.height == (match def.height {
                Some(h) => h,
                None => dwh,
            })
            &&& t.floor_depth == (match def.floor_depth {
                Some(d) => d,
                None => dfd,
            })
            &&& t.elevation == (match def.elevation {
                Some(e) => e,
                None => 0,
            })
        },
        None => t.is_void_default(),
    }
}

/// One resolved geometry row: substituted up to the authored length, padded
/// with the void default up to `width`.
pub open spec fn geo_row_resolves(
    tiles: Seq<ResolvedGeometryTile>,
    row: Seq<char>,
    width: int,
    pal: Seq<PaletteEntry<GeometryTileDef>>,
    dwh: i64,
    dfd: i64,
) -> bool {
    &&& tiles.len() == width
    &&& forall|x: int|
        0 <= x < row.len() && x < width ==> geo_tile_resolves(
            #[trigger] tiles[x],
            pal,
            row[x],
            dwh,
            dfd,
        )
    &&& forall|x: int| row.len() <= x < width ==> (#[trigger] tiles[x]).is_void_default()
    &&& forall|x: int| 0 <= x < width ==> (#[trigger] tiles[x]).wf()
}

/// The whole resolved geometry grid, row by row.
pub open spec fn geo_grid_resolves(
    g: Seq<Vec<ResolvedGeometryTile>>,
    rows: Seq<String>,
    width: int,
    pal: Seq<PaletteEntry<GeometryTileDef>>,
    dwh: i64,
    dfd: i64,
) -> bool {
    &&& g.len() == rows.len()
    &&& forall|z: int|
        0 <= z < rows.len() ==> geo_row_resolves((#[trigger] g[z])@, rows[z]@, width, pal, dwh, dfd)
}

fn resolve_geometry_cell(
    pal: &Vec<PaletteEntry<GeometryTileDef>>,
    c: char,
    dwh: i64,
    dfd: i64,
) -> (t: ResolvedGeometryTile)
    requires
        0 <= dwh <= MAX_MEASURE_MILLI,
        0 <= dfd <= MAX_MEASURE_MILLI,
        forall|i: int| 0 <= i < pal@.len() ==> (#[trigger] pal@[i]).value.wf(),
    ensures
        geo_tile_resolves(t, pal@, c, dwh, dfd),
        t.wf(),
{
    match palette_get(pal, c) {
        Some(def) => {
            proof {
                lemma_palette_lookup_member(pal@, c);
            }
            ResolvedGeometryTile {
                kind: def.kind,
                material: match &def.material {
                    Some(m) => m.clone(),
                    None => String::from_str("stone"),
                },
                height: match def.height {
                    Some(h) => h,
                    None => dwh,
                },
                floor_depth: match def.floor_depth {
                    Some(d) => d,
                    None => dfd,
                },
                elevation: match def.elevation {
                    Some(e) => e,
                    None => 0,
                },
            }
        },
        None => ResolvedGeometryTile::default(),
    }
}

fn resolve_geometry_row(
    row: &str,
    width: usize,
    pal: &Vec<PaletteEntry<GeometryTileDef>>,
    dwh: i64,
    dfd: i64,
) -> (tiles: Vec<ResolvedGeometryTile>)
    requires
        row@.len() <= width,
        0 <= dwh <= MAX_MEASURE_MILLI,
        0 <= dfd <= MAX_MEASURE_MILLI,
        forall|i: int| 0 <= i < pal@.len() ==> (#[trigger] pal@[i]).value.wf(),
    ensures
        geo_row_resolves(tiles@, row@, width as int, pal@, dwh, dfd),
{
    let rlen = row.unicode_len();
    let mut tiles: Vec<ResolvedGeometryTile> = Vec::new();
    let mut x: usize = 0;
    while x < width
        invariant
            rlen == row@.len(),
            rlen <= width,
            x <= width,
            tiles@.len() == x,
            0 <= dwh <= MAX_MEASURE_MILLI,
            0 <= dfd <= MAX_MEASURE_MILLI,
            forall|i: int| 0 <= i < pal@.len() ==> (#[trigger] pal@[i]).value.wf(),
            forall|j: int|
                0 <= j < x && j < rlen ==> geo_tile_resolves(
                    #[trigger] tiles@[j],
                    pal@,
                    row@[j],
                    dwh,
                    dfd,
                ),
            forall|j: int| rlen <= j < x ==> (#[trigger] tiles@[j]).is_void_default(),
            forall|j: int| 0 <= j < x ==> (#[trigger] tiles@[j]).wf(),
        decreases width - x,
    {
        if x < rlen {
            tiles.push(resolve_geometry_cell(pal, row.get_char(x), dwh, dfd));
        } else {
            tiles.push(ResolvedGeometryTile::default());
        }
        x += 1;
    }
    tiles
}

// === Ambient layer ===

/// How one ambient character resolves: blank and unknown characters carry no
/// elements, a palette hit copies the definition's element lists.
pub open spec fn ambient_tile_resolves(
    t: ResolvedAmbientTile,
    pal: Seq<PaletteEntry<AmbientTileDef>>,
    c: char,
) -> bool {
    if is_blank(c) {
        t.is_empty()
    } else {
        match palette_lookup(pal, c) {
            Some(def) => {
                &&& t.lights@ == def.lights@
                &&& t.particles@ == def.particles@
                &&& t.audio@ == def.audio@
            },
            None => t.is_empty(),
        }
    }
}

/// One resolved ambient row, padded with the empty tile up to `width`.
pub open spec fn ambient_row_resolves(
    tiles: Seq<ResolvedAmbientTile>,
    row: Seq<char>,
    width: int,
    pal: Seq<PaletteEntry<AmbientTileDef>>,
) -> bool {
    &&& tiles.len() == width
    &&& forall|x: int|
        0 <= x < row.len() && x < width ==> ambient_tile_resolves(#[trigger] tiles[x], pal, row[x])
    &&& forall|x: int| row.len() <= x < width ==> (#[trigger] tiles[x]).is_empty()
}

/// The whole resolved ambient grid, row by row.
pub open spec fn ambient_grid_resolves(
    g: Seq<Vec<ResolvedAmbientTile>>,
    rows: Seq<String>,
    width: int,
    pal: Seq<PaletteEntry<AmbientTileDef>>,
) -> bool {
    &&& g.len() == rows.len()
    &&& forall|z: int|
        0 <= z < rows.len() ==> ambient_row_resolves((#[trigger] g[z])@, rows[z]@, width, pal)
}

fn resolve_ambient_cell(pal: &Vec<PaletteEntry<AmbientTileDef>>, c: char) -> (t:
    ResolvedAmbientTile)
    ensures
        ambient_tile_resolves(t, pal@, c),
{
    if c == '.' || c == ' ' {
        return ResolvedAmbientTile::default();
    }
    match palette_get(pal, c) {
        Some(def) => ResolvedAmbientTile {
            lights: copy_lights(&def.lights),
            particles: copy_particles(&def.particles),
            audio: copy_audio(&def.audio),
        },
        None => ResolvedAmbientTile::default(),
    }
}

fn resolve_ambient_row(row: &str, width: usize, pal: &Vec<PaletteEntry<AmbientTileDef>>) -> (tiles:
    Vec<ResolvedAmbientTile>)
    requires
        row@.len() <= width,
    ensures
        ambient_row_resolves(tiles@, row@, width as int, pal@),
{
    let rlen = row.unicode_len();
    let mut tiles: Vec<ResolvedAmbientTile> = Vec::new();
    let mut x: usize = 0;
    while x < width
        invariant
            rlen == row@.len(),
            rlen <= width,
            x <= width,
            tiles@.len() == x,
            forall|j: int|
                0 <= j < x && j < rlen ==> ambient_tile_resolves(#[trigger] tiles@[j], pal@, row@[j]),
            forall|j: int| rlen <= j < x ==> (#[trigger] tiles@[j]).is_empty(),
        decreases width - x,
    {
        if x < rlen {
            tiles.push(resolve_ambient_cell(pal, row.get_char(x)));
        } else {
            tiles.push(ResolvedAmbientTile::default());
        }
        x += 1;
    }
    tiles
}

// === Ceiling layer ===

/// How one authored ceiling character resolves: blank means open sky,
/// a palette hit fills absent fields from the level defaults, and an unknown
/// character gets the full default ceiling.
pub open spec fn ceiling_tile_resolves(
    t: Option<ResolvedCeilingTile>,
    pal: Seq<PaletteEntry<CeilingTileDef>>,
    c: char,
    dch: i64,
    dct: i64,
) -> bool {
    if is_blank(c) {
        t is None
    } else {
        match palette_lookup(pal, c) {
            Some(def) => match t {
                Some(ct) => {
                    &&& ct.material@ == (match def.material {
                        Some(m) => m@,
                        None => "ceiling"@,
                    })
                    &&& ct.height == (match def.height {
                        Some(h) => h,
                        None => dch,
                    })
                    &&& ct.thickness == (match def.thickness {
                        Some(th) => th,
                        None => dct,
                    })
                },
                None => false,
            },
            None => match t {
                Some(ct) => {
                    &&& ct.material@ == "ceiling"@
                    &&& ct.height == dch
                    &&& ct.thickness == dct
                },
                None => false,
            },
        }
    }
}

/// One resolved authored ceiling row, padded with `None` up to `width`.
pub open spec fn ceiling_row_resolves(
    tiles: Seq<Option<ResolvedCeilingTile>>,
    row: Seq<char>,
    width: int,
    pal: Seq<PaletteEntry<CeilingTileDef>>,
    dch: i64,
    dct: i64,
) -> bool {
    &&& tiles.len() == width
    &&& forall|x: int|
        0 <= x < row.len() && x < width ==> ceiling_tile_resolves(
            #[trigger] tiles[x],
            pal,
            row[x],
            dch,
            dct,
        )
    &&& forall|x: int| row.len() <= x < width ==> (#[trigger] tiles[x]) is None
    &&& forall|x: int|
        0 <= x < width ==> match #[trigger] tiles[x] {
            Some(ct) => ct.wf(),
            None => true,
        }
}

/// The whole authored ceiling grid, row by row.
pub open spec fn ceiling_grid_resolves(
    g: Seq<Vec<Option<ResolvedCeilingTile>>>,
    rows: Seq<String>,
    width: int,
    pal: Seq<PaletteEntry<CeilingTileDef>>,
    dch: i64,
    dct: i64,
) -> bool {
    &&& g.len() == rows.len()
    &&& forall|z: int|
        0 <= z < rows.len() ==> ceiling_row_resolves(
            (#[trigger] g[z])@,
            rows[z]@,
            width,
            pal,
            dch,
            dct,
        )
}

/// How a synthesized ceiling cell relates to its geometry cell: a default
/// ceiling over every floor-carrying tile, open sky elsewhere.
pub open spec fn synth_ceiling_tile(
    t: Option<ResolvedCeilingTile>,
    geo: ResolvedGeometryTile,
    dch: i64,
    dct: i64,
) -> bool {
    if geo.kind.spec_has_floor() {
        match t {
            Some(ct) => {
                &&& ct.material@ == "ceiling"@
                &&& ct.height == dch
                &&& ct.thickness == dct
            },
            None => false,
        }
    } else {
        t is None
    }
}

/// The whole synthesized ceiling grid, cell by cell over geometry.
pub open spec fn synth_ceiling_grid(
    g: Seq<Vec<Option<ResolvedCeilingTile>>>,
    geo: Seq<Vec<ResolvedGeometryTile>>,
    dch: i64,
    dct: i64,
) -> bool {
    &&& g.len() == geo.len()
    &&& forall|z: int| 0 <= z < geo.len() ==> (#[trigger] g[z])@.len() == geo[z]@.len()
    &&& forall|z: int, x: int|
        0 <= z < geo.len() && 0 <= x < geo[z]@.len() ==> synth_ceiling_tile(
            #[trigger] g[z]@[x],
            geo[z]@[x],
            dch,
            dct,
        )
}

fn resolve_ceiling_cell(pal: &Vec<PaletteEntry<CeilingTileDef>>, c: char, dch: i64, dct: i64) -> (t:
    Option<ResolvedCeilingTile>)
    requires
        0 <= dch <= MAX_MEASURE_MILLI,
        0 <= dct <= MAX_MEASURE_MILLI,
        forall|i: int| 0 <= i < pal@.len() ==> (#[trigger] pal@[i]).value.wf(),
    ensures
        ceiling_tile_resolves(t, pal@, c, dch, dct),
        match t {
            Some(ct) => ct.wf(),
            None => true,
        },
{
    if c == '.' || c == ' ' {
        return None;
    }
    match palette_get(pal, c) {
        Some(def) => {
            proof {
                lemma_palette_lookup_member(pal@, c);
            }
            Some(
                ResolvedCeilingTile {
                    material: match &def.material {
                        Some(m) => m.clone(),
                        None => String::from_str("ceiling"),
                    },
                    height: match def.height {
                        Some(h) => h,
                        None => dch,
                    },
                    thickness: match def.thickness {
                        Some(th) => th,
                        None => dct,
                    },
                },
            )
        },
        None => Some(
            ResolvedCeilingTile { material: String::from_str("ceiling"), height: dch, thickness: dct },
        ),
    }
}

fn resolve_ceiling_row(
    row: &str,
    width: usize,
    pal: &Vec<PaletteEntry<CeilingTileDef>>,
    dch: i64,
    dct: i64,
) -> (tiles: Vec<Option<ResolvedCeilingTile>>)
    requires
        row@.len() <= width,
        0 <= dch <= MAX_MEASURE_MILLI,
        0 <= dct <= MAX_MEASURE_MILLI,
        forall|i: int| 0 <= i < pal@.len() ==> (#[trigger] pal@[i]).value.wf(),
    ensures
        ceiling_row_resolves(tiles@, row@, width as int, pal@, dch, dct),
{
    let rlen = row.unicode_len();
    let mut tiles: Vec<Option<ResolvedCeilingTile>> = Vec::new();
    let mut x: usize = 0;
    while x < width
        invariant
            rlen == row@.len(),
            rlen <= width,
            x <= width,
            tiles@.len() == x,
            0 <= dch <= MAX_MEASURE_MILLI,
            0 <= dct <= MAX_MEASURE_MILLI,
            forall|i: int| 0 <= i < pal@.len() ==> (#[trigger] pal@[i]).value.wf(),
            forall|j: int|
                0 <= j < x && j < rlen ==> ceiling_tile_resolves(
                    #[trigger] tiles@[j],
                    pal@,
                    row@[j],
                    dch,
                    dct,
                ),
            forall|j: int| rlen <= j < x ==> (#[trigger] tiles@[j]) is None,
            forall|j: int|
                0 <= j < x ==> match #[trigger] tiles@[j] {
                    Some(ct) => ct.wf(),
                    None => true,
                },
        decreases width - x,
    {
        if x < rlen {
            tiles.push(resolve_ceiling_cell(pal, row.get_char(x), dch, dct));
        } else {
            tiles.push(None);
        }
        x += 1;
    }
    tiles
}

fn synth_ceiling_row(geo_row: &Vec<ResolvedGeometryTile>, dch: i64, dct: i64) -> (tiles: Vec<
    Option<ResolvedCeilingTile>,
>)
    requires
        0 <= dch <= MAX_MEASURE_MILLI,
        0 <= dct <= MAX_MEASURE_MILLI,
    ensures
        tiles@.len() == geo_row@.len(),
        forall|x: int|
            0 <= x < geo_row@.len() ==> synth_ceiling_tile(#[trigger] tiles@[x], geo_row@[x], dch, dct),
        forall|x: int|
            0 <= x < geo_row@.len() ==> match #[trigger] tiles@[x] {
                Some(ct) => ct.wf(),
                None => true,
            },
{
    let len = geo_row.len();
    let mut tiles: Vec<Option<ResolvedCeilingTile>> = Vec::new();
    let mut x: usize = 0;
    while x < len
        invariant
            len == geo_row@.len(),
            x <= len,
            tiles@.len() == x,
            0 <= dch <= MAX_MEASURE_MILLI,
            0 <= dct <= MAX_MEASURE_MILLI,
            forall|j: int|
                0 <= j < x ==> synth_ceiling_tile(#[trigger] tiles@[j], geo_row@[j], dch, dct),
            forall|j: int|
                0 <= j < x ==> match #[trigger] tiles@[j] {
                    Some(ct) => ct.wf(),
                    None => true,
                },
        decreases len - x,
    {
        if geo_row[x].kind.has_floor() {
            tiles.push(
                Some(
                    ResolvedCeilingTile {
                        material: String::from_str("ceiling"),
                        height: dch,
                        thickness: dct,
                    },
                ),
            );
        } else {
            tiles.push(None);
        }
        x += 1;
    }
    tiles
}

// === Monster layer ===

/// Spawn cells `(x, z, c)` of one row, scanning columns `0..upto`:
/// the non-blank characters whose palette lookup succeeds.
pub open spec fn row_spawn_cells(
    row: Seq<char>,
    pal: Seq<PaletteEntry<String>>,
    z: int,
    upto: int,
) -> Seq<(int, int, char)>
    decreases upto,
{
    if upto <= 0 {
        Seq::empty()
    } else {
        let prev = row_spawn_cells(row, pal, z, upto - 1);
        let c = row[upto - 1];
        if !is_blank(c) && palette_lookup(pal, c) is Some {
            prev.push((upto - 1, z, c))
        } else {
            prev
        }
    }
}

/// Spawn cells of the rows `0..uptoz`, in row-major order.
pub open spec fn grid_spawn_cells(
    rows: Seq<String>,
    pal: Seq<PaletteEntry<String>>,
    uptoz: int,
) -> Seq<(int, int, char)>
    decreases uptoz,
{
    if uptoz <= 0 {
        Seq::empty()
    } else {
        grid_spawn_cells(rows, pal, uptoz - 1) + row_spawn_cells(
            rows[uptoz - 1]@,
            pal,
            uptoz - 1,
            rows[uptoz - 1]@.len() as int,
        )
    }
}

/// The resolved spawn list corresponds one-to-one, in order, to the spawn
/// cells of the monster grid.
pub open spec fn spawns_match(
    spawns: Seq<ResolvedMonsterSpawn>,
    cells: Seq<(int, int, char)>,
    pal: Seq<PaletteEntry<String>>,
) -> bool {
    &&& spawns.len() == cells.len()
    &&& forall|i: int|
        0 <= i < cells.len() ==> {
            &&& (#[trigger] spawns[i]).grid_pos.x as int == cells[i].0
            &&& spawns[i].grid_pos.z as int == cells[i].1
            &&& spawns[i].enemy_type@ == palette_lookup(pal, cells[i].2)->Some_0@
        }
}

/// Every spawn cell of a row lies in that row, at the given row index.
pub proof fn lemma_row_spawn_cells_bounds(
    row: Seq<char>,
    pal: Seq<PaletteEntry<String>>,
    z: int,
    upto: int,
)
    ensures
        forall|i: int|
            0 <= i < row_spawn_cells(row, pal, z, upto).len() ==> {
                &&& 0 <= (#[trigger] row_spawn_cells(row, pal, z, upto)[i]).0 < upto
                &&& row_spawn_cells(row, pal, z, upto)[i].1 == z
            },
    decreases upto,
{
    if upto > 0 {
        lemma_row_spawn_cells_bounds(row, pal, z, upto - 1);
        let prev = row_spawn_cells(row, pal, z, upto - 1);
        let cur = row_spawn_cells(row, pal, z, upto);
        let c = row[upto - 1];
        if !is_blank(c) && palette_lookup(pal, c) is Some {
            assert(cur == prev.push((upto - 1, z, c)));
            assert forall|i: int| 0 <= i < cur.len() implies 0 <= (#[trigger] cur[i]).0 < upto
                && cur[i].1 == z by {
                if i < prev.len() {
                    assert(cur[i] == prev[i]);
                } else {
                    assert(cur[i] == (upto - 1, z, c));
                }
            }
        } else {
            assert(cur == prev);
        }
    }
}

/// Every spawn cell of a grid lies inside the grid, within its row's length.
pub proof fn lemma_grid_spawn_cells_bounds(
    rows: Seq<String>,
    pal: Seq<PaletteEntry<String>>,
    uptoz: int,
)
    requires
        uptoz <= rows.len(),
    ensures
        forall|i: int|
            0 <= i < grid_spawn_cells(rows, pal, uptoz).len() ==> {
                &&& 0 <= (#[trigger] grid_spawn_cells(rows, pal, uptoz)[i]).0 < spec_grid_width(rows)
                &&& 0 <= grid_spawn_cells(rows, pal, uptoz)[i].1 < uptoz
            },
    decreases uptoz,
{
    if uptoz > 0 {
        lemma_grid_spawn_cells_bounds(rows, pal, uptoz - 1);
        lemma_row_spawn_cells_bounds(rows[uptoz - 1]@, pal, uptoz - 1, rows[uptoz - 1]@.len() as int);
        lemma_grid_width_bounds(rows, uptoz - 1);
        let prev = grid_spawn_cells(rows, pal, uptoz - 1);
        let rowc = row_spawn_cells(rows[uptoz - 1]@, pal, uptoz - 1, rows[uptoz - 1]@.len() as int);
        let cur = grid_spawn_cells(rows, pal, uptoz);
        assert(cur == prev + rowc);
        assert forall|i: int| 0 <= i < cur.len() implies 0 <= (#[trigger] cur[i]).0
            < spec_grid_width(rows) && 0 <= cur[i].1 < uptoz by {
            if i < prev.len() {
                assert(cur[i] == prev[i]);
            } else {
                assert(cur[i] == rowc[i - prev.len()]);
            }
        }
    }
}

// === Whole-level resolution ===

/// Length of the longest row of a grid.
pub fn grid_width(rows: &Vec<String>) -> (w: usize)
    ensures
        w as int == spec_grid_width(rows@),
{
    let len = rows.len();
    let mut w: usize = 0;
    let mut i: usize = 0;
    proof {
        assert(rows@.subrange(0, 0) =~= Seq::<String>::empty());
    }
    while i < len
        invariant
            len == rows@.len(),
            i <= len,
            w as int == spec_grid_width(rows@.subrange(0, i as int)),
        decreases len - i,
    {
        let rl = rows[i].as_str().unicode_len();
        if rl > w {
            w = rl;
        }
        proof {
            let pre = rows@.subrange(0, i as int);
            let post = rows@.subrange(0, i + 1);
            assert(post.drop_last() =~= pre);
            assert(post.last() == rows@[i as int]);
        }
        i += 1;
    }
    proof {
        assert(rows@.subrange(0, len as int) =~= rows@);
    }
    w
}

/// What the structural error reports: the master (geometry) dimensions as
/// expected, and the dimensions of the first disagreeing layer (ambient,
/// then monster, then ceiling) as actual.
pub open spec fn dim_error_matches(e: DataLoadError, raw: LevelDefinitionRaw) -> bool {
    match e {
        DataLoadError::GridMismatch {
            expected_width,
            expected_height,
            actual_width,
            actual_height,
        } => {
            &&& expected_width == spec_grid_width(raw.geometry@)
            &&& expected_height == raw.geometry@.len()
            &&& if !raw.master_dims_ok() {
                actual_width == spec_grid_width(raw.ambient@) && actual_height
                    == raw.ambient@.len()
            } else if !raw.monster_dims_ok() {
                actual_width == spec_grid_width(raw.monsters@) && actual_height
                    == raw.monsters@.len()
            } else {
                actual_width == spec_grid_width(raw.ceiling@) && actual_height
                    == raw.ceiling@.len()
            }
        },
        _ => false,
    }
}

/// The full resolution relation: `m` is exactly what resolving `raw` against
/// `reg` produces. Every observation of `m` is pinned by this predicate, so
/// resolution is deterministic (see `lemma_resolution_deterministic`).
pub open spec fn resolved_from(
    m: LevelDefinition,
    raw: LevelDefinitionRaw,
    reg: PaletteRegistry,
) -> bool {
    &&& m.name == raw.name
    &&& m.tile_size == raw.tile_size
    &&& m.default_wall_height == raw.default_wall_height
    &&& m.default_floor_depth == raw.default_floor_depth
    &&& m.default_ceiling_height == raw.default_ceiling_height
    &&& m.default_ceiling_thickness == raw.default_ceiling_thickness
    &&& m.global_ambient == raw.global_ambient
    &&& m.player_start == raw.player_start
    &&& m.height == raw.geometry@.len()
    &&& m.width as int == spec_grid_width(raw.geometry@)
    &&& geo_grid_resolves(
        m.geometry@,
        raw.geometry@,
        m.width as int,
        effective_geometry_palette(raw, reg),
        raw.default_wall_height,
        raw.default_floor_depth,
    )
    &&& ambient_grid_resolves(
        m.ambient@,
        raw.ambient@,
        m.width as int,
        effective_ambient_palette(raw, reg),
    )
    &&& if raw.ceiling@.len() > 0 {
        ceiling_grid_resolves(
            m.ceiling@,
            raw.ceiling@,
            m.width as int,
            effective_ceiling_palette(raw, reg),
            raw.default_ceiling_height,
            raw.default_ceiling_thickness,
        )
    } else {
        synth_ceiling_grid(
            m.ceiling@,
            m.geometry@,
            raw.default_ceiling_height,
            raw.default_ceiling_thickness,
        )
    }
    &&& spawns_match(
        m.monster_spawns@,
        grid_spawn_cells(
            raw.monsters@,
            effective_monster_palette(raw, reg),
            raw.monsters@.len() as int,
        ),
        effective_monster_palette(raw, reg),
    )
    &&& m.spawn_zones == raw.spawn_zones
}

impl LevelDefinition {
    /// Resolve a raw level description against the palette registry.
    ///
    /// Succeeds exactly when the layer dimensions agree (the structural
    /// checks of `dims_ok`); the error reports the first disagreeing layer.
    /// On success the returned model satisfies the full resolution relation
    /// and is well-formed.
    pub fn from_raw(raw: LevelDefinitionRaw, palette_registry: &PaletteRegistry) -> (r: Result<
        LevelDefinition,
        DataLoadError,
    >)
        requires
            raw.wf(),
            palette_registry.wf(),
        ensures
            r is Ok <==> raw.dims_ok(),
            (r matches Ok(m) ==> resolved_from(m, raw, *palette_registry) && m.wf()),
            (r matches Err(e) ==> dim_error_matches(e, raw)),
    {
        let geo_h = raw.geometry.len();
        let geo_w = grid_width(&raw.geometry);
        let amb_h = raw.ambient.len();
        let amb_w = grid_width(&raw.ambient);

        if geo_h != amb_h || geo_w != amb_w {
            return Err(
                DataLoadError::GridMismatch {
                    expected_width: geo_w,
                    expected_height: geo_h,
                    actual_width: amb_w,
                    actual_height: amb_h,
                },
            );
        }
        if raw.monsters.len() > 0 {
            let mon_h = raw.monsters.len();
            let mon_w = grid_width(&raw.monsters);
            if mon_h != geo_h || mon_w != geo_w {
                return Err(
                    DataLoadError::GridMismatch {
                        expected_width: geo_w,
                        expected_height: geo_h,
                        actual_width: mon_w,
                        actual_height: mon_h,
                    },
                );
            }
        }
        if raw.ceiling.len() > 0 {
            let ceil_h = raw.ceiling.len();
            let ceil_w = grid_width(&raw.ceiling);
            if ceil_h != geo_h || ceil_w != geo_w {
                return Err(
                    DataLoadError::GridMismatch {
                        expected_width: geo_w,
                        expected_height: geo_h,
                        actual_width: ceil_w,
                        actual_height: ceil_h,
                    },
                );
            }
        }

        let geometry_palette = choose_geometry_palette(&raw, palette_registry);
        let ambient_palette = choose_ambient_palette(&raw, palette_registry);
        let monster_palette = choose_monster_palette(&raw, palette_registry);
        let ceiling_palette = choose_ceiling_palette(&raw, palette_registry);

        // Geometry grid.
        let mut geometry: Vec<Vec<ResolvedGeometryTile>> = Vec::new();
        let mut z: usize = 0;
        while z < geo_h
            invariant
                geo_h == raw.geometry@.len(),
                geo_w as int == spec_grid_width(raw.geometry@),
                z <= geo_h,
                geometry@.len() == z,
                0 <= raw.default_wall_height <= MAX_MEASURE_MILLI,
                0 <= raw.default_floor_depth <= MAX_MEASURE_MILLI,
                forall|i: int|
                    0 <= i < geometry_palette@.len() ==> (#[trigger] geometry_palette@[i]).value.wf(),
                forall|zz: int|
                    0 <= zz < z ==> geo_row_resolves(
                        (#[trigger] geometry@[zz])@,
                        raw.geometry@[zz]@,
                        geo_w as int,
                        geometry_palette@,
                        raw.default_wall_height,
                        raw.default_floor_depth,
                    ),
            decreases geo_h - z,
        {
            proof {
                lemma_grid_width_bounds(raw.geometry@, z as int);
            }
            geometry.push(
                resolve_geometry_row(
                    raw.geometry[z].as_str(),
                    geo_w,
                    geometry_palette,
                    raw.default_wall_height,
                    raw.default_floor_depth,
                ),
            );
            z += 1;
        }

        // Ambient grid.
        let mut ambient: Vec<Vec<ResolvedAmbientTile>> = Vec::new();
        let mut z: usize = 0;
        while z < geo_h
            invariant
                geo_h == raw.ambient@.len(),
                geo_w as int == spec_grid_width(raw.ambient@),
                z <= geo_h,
                ambient@.len() == z,
                forall|zz: int|
                    0 <= zz < z ==> ambient_row_resolves(
                        (#[trigger] ambient@[zz])@,
                        raw.ambient@[zz]@,
                        geo_w as int,
                        ambient_palette@,
                    ),
            decreases geo_h - z,
        {
            proof {
                lemma_grid_width_bounds(raw.ambient@, z as int);
            }
            ambient.push(resolve_ambient_row(raw.ambient[z].as_str(), geo_w, ambient_palette));
            z += 1;
        }

        // Monster spawns, in row-major order.
        let mut monster_spawns: Vec<ResolvedMonsterSpawn> = Vec::new();
        if raw.monsters.len() > 0 {
            let mut z: usize = 0;
            while z < geo_h
                invariant
                    geo_h == raw.monsters@.len(),
                    geo_h <= i32::MAX,
                    geo_w as int == spec_grid_width(raw.monsters@),
                    geo_w <= i32::MAX,
                    z <= geo_h,
                    spawns_match(
                        monster_spawns@,
                        grid_spawn_cells(raw.monsters@, monster_palette@, z as int),
                        monster_palette@,
                    ),
                decreases geo_h - z,
            {
                let row = raw.monsters[z].as_str();
                let rlen = row.unicode_len();
                proof {
                    lemma_grid_width_bounds(raw.monsters@, z as int);
                }
                let mut x: usize = 0;
                while x < rlen
                    invariant
                        rlen == row@.len(),
                        row@ == raw.monsters@[z as int]@,
                        z < geo_h,
                        geo_h == raw.monsters@.len(),
                        geo_h <= i32::MAX,
                        rlen <= geo_w <= i32::MAX,
                        x <= rlen,
                        spawns_match(
                            monster_spawns@,
                            grid_spawn_cells(raw.monsters@, monster_palette@, z as int)
                                + row_spawn_cells(row@, monster_palette@, z as int, x as int),
                            monster_palette@,
                        ),
                    decreases rlen - x,
                {
                    let c = row.get_char(x);
                    let ghost cells_prev = grid_spawn_cells(raw.monsters@, monster_palette@, z as int)
                        + row_spawn_cells(row@, monster_palette@, z as int, x as int);
                    if !(c == '.' || c == ' ') {
                        match palette_get(monster_palette, c) {
                            Some(enemy_type) => {
                                monster_spawns.push(
                                    ResolvedMonsterSpawn {
                                        grid_pos: GridPos { x: x as i32, z: z as i32 },
                                        enemy_type: enemy_type.clone(),
                                    },
                                );
                                proof {
                                    let t = (x as int, z as int, c);
                                    assert(row_spawn_cells(
                                        row@,
                                        monster_palette@,
                                        z as int,
                                        x as int + 1,
                                    ) == row_spawn_cells(
                                        row@,
                                        monster_palette@,
                                        z as int,
                                        x as int,
                                    ).push(t));
                                    let cells_new = grid_spawn_cells(
                                        raw.monsters@,
                                        monster_palette@,
                                        z as int,
                                    ) + row_spawn_cells(
                                        row@,
                                        monster_palette@,
                                        z as int,
                                        x as int + 1,
                                    );
                                    assert(cells_new =~= cells_prev.push(t));
                                    assert forall|i: int|
                                        0 <= i < cells_new.len() implies {
                                        &&& (#[trigger] monster_spawns@[i]).grid_pos.x as int
                                            == cells_new[i].0
                                        &&& monster_spawns@[i].grid_pos.z as int == cells_new[i].1
                                        &&& monster_spawns@[i].enemy_type@ == palette_lookup(
                                            monster_palette@,
                                            cells_new[i].2,
                                        )->Some_0@
                                    } by {
                                        if i < cells_prev.len() {
                                            assert(cells_new[i] == cells_prev[i]);
                                        } else {
                                            assert(cells_new[i] == t);
                                        }
                                    }
                                }
                            },
                            None => {
                                proof {
                                    assert(row_spawn_cells(
                                        row@,
                                        monster_palette@,
                                        z as int,
                                        x as int + 1,
                                    ) == row_spawn_cells(
                                        row@,
                                        monster_palette@,
                                        z as int,
                                        x as int,
                                    ));
                                }
                            },
                        }
                    } else {
                        proof {
                            assert(row_spawn_cells(row@, monster_palette@, z as int, x as int + 1)
                                == row_spawn_cells(row@, monster_palette@, z as int, x as int));
                        }
                    }
                    x += 1;
                }
                proof {
                    assert(grid_spawn_cells(raw.monsters@, monster_palette@, z as int + 1)
                        == grid_spawn_cells(raw.monsters@, monster_palette@, z as int)
                        + row_spawn_cells(
                        raw.monsters@[z as int]@,
                        monster_palette@,
                        z as int,
                        raw.monsters@[z as int]@.len() as int,
                    ));
                }
                z += 1;
            }
        }

        // Ceiling grid: authored when present, synthesized from geometry
        // otherwise.
        let mut ceiling: Vec<Vec<Option<ResolvedCeilingTile>>> = Vec::new();
        if raw.ceiling.len() > 0 {
            let mut z: usize = 0;
            while z < geo_h
                invariant
                    geo_h == raw.ceiling@.len(),
                    geo_w as int == spec_grid_width(raw.ceiling@),
                    z <= geo_h,
                    ceiling@.len() == z,
                    0 <= raw.default_ceiling_height <= MAX_MEASURE_MILLI,
                    0 <= raw.default_ceiling_thickness <= MAX_MEASURE_MILLI,
                    forall|i: int|
                        0 <= i < ceiling_palette@.len() ==> (#[trigger] ceiling_palette@[i]).value.wf(),
                    forall|zz: int|
                        0 <= zz < z ==> ceiling_row_resolves(
                            (#[trigger] ceiling@[zz])@,
                            raw.ceiling@[zz]@,
                            geo_w as int,
                            ceiling_palette@,
                            raw.default_ceiling_height,
                            raw.default_ceiling_thickness,
                        ),
                decreases geo_h - z,
            {
                proof {
                    lemma_grid_width_bounds(raw.ceiling@, z as int);
                }
                ceiling.push(
                    resolve_ceiling_row(
                        raw.ceiling[z].as_str(),
                        geo_w,
                        ceiling_palette,
                        raw.default_ceiling_height,
                        raw.default_ceiling_thickness,
                    ),
                );
                z += 1;
            }
        } else {
            let mut z: usize = 0;
            while z < geo_h
                invariant
                    geo_h == geometry@.len(),
                    z <= geo_h,
                    ceiling@.len() == z,
                    0 <= raw.default_ceiling_height <= MAX_MEASURE_MILLI,
                    0 <= raw.default_ceiling_thickness <= MAX_MEASURE_MILLI,
                    forall|zz: int|
                        0 <= zz < z ==> (#[trigger] ceiling@[zz])@.len() == geometry@[zz]@.len(),
                    forall|zz: int, x: int|
                        0 <= zz < z && 0 <= x < geometry@[zz]@.len() ==> synth_ceiling_tile(
                            #[trigger] ceiling@[zz]@[x],
                            geometry@[zz]@[x],
                            raw.default_ceiling_height,
                            raw.default_ceiling_thickness,
                        ),
                    forall|zz: int, x: int|
                        0 <= zz < z && 0 <= x < geometry@[zz]@.len() ==> match #[trigger] ceiling@[zz]@[x] {
                            Some(ct) => ct.wf(),
                            None => true,
                        },
                decreases geo_h - z,
            {
                ceiling.push(
                    synth_ceiling_row(
                        &geometry[z],
                        raw.default_ceiling_height,
                        raw.default_ceiling_thickness,
                    ),
                );
                z += 1;
            }
        }

        proof {
            if raw.monsters@.len() > 0 {
                lemma_grid_spawn_cells_bounds(
                    raw.monsters@,
                    effective_monster_palette(raw, *palette_registry),
                    raw.monsters@.len() as int,
                );
            }
            lemma_grid_width_nonneg(raw.geometry@);
        }

        Ok(
            LevelDefinition {
                name: raw.name,
                tile_size: raw.tile_size,
                default_wall_height: raw.default_wall_height,
                default_floor_depth: raw.default_floor_depth,
                default_ceiling_height: raw.default_ceiling_height,
                default_ceiling_thickness: raw.default_ceiling_thickness,
                global_ambient: raw.global_ambient,
                player_start: raw.player_start,
                width: geo_w,
                height: geo_h,
                geometry,
                ambient,
                ceiling,
                monster_spawns,
                spawn_zones: raw.spawn_zones,
            },
        )
    }
}

// === Laws of resolution ===

/// Observational equality of two resolved models: the same scalar fields and
/// dimensions, the same tiles cell for cell, and the same spawns in the same
/// order.
pub open spec fn models_agree(m1: LevelDefinition, m2: LevelDefinition) -> bool {
    &&& m1.name == m2.name
    &&& m1.tile_size == m2.tile_size
    &&& m1.default_wall_height == m2.default_wall_height
    &&& m1.default_floor_depth == m2.default_floor_depth
    &&& m1.default_ceiling_height == m2.default_ceiling_height
    &&& m1.default_ceiling_thickness == m2.default_ceiling_thickness
    &&& m1.global_ambient == m2.global_ambient
    &&& m1.player_start == m2.player_start
    &&& m1.width == m2.width
    &&& m1.height == m2.height
    &&& m1.geometry@.len() == m2.geometry@.len()
    &&& forall|z: int|
        0 <= z < m1.geometry@.len() ==> (#[trigger] m1.geometry@[z])@.len() == m2.geometry@[z]@.len()
    &&& forall|z: int, x: int|
        0 <= z < m1.geometry@.len() && 0 <= x < m1.geometry@[z]@.len() ==> {
            let t1 = #[trigger] m1.geometry@[z]@[x];
            let t2 = m2.geometry@[z]@[x];
            t1.kind == t2.kind && t1.material@ == t2.material@ && t1.height == t2.height
                && t1.floor_depth == t2.floor_depth && t1.elevation == t2.elevation
        }
    &&& m1.ambient@.len() == m2.ambient@.len()
    &&& forall|z: int|
        0 <= z < m1.ambient@.len() ==> (#[trigger] m1.ambient@[z])@.len() == m2.ambient@[z]@.len()
    &&& forall|z: int, x: int|
        0 <= z < m1.ambient@.len() && 0 <= x < m1.ambient@[z]@.len() ==> {
            let t1 = #[trigger] m1.ambient@[z]@[x];
            let t2 = m2.ambient@[z]@[x];
            t1.lights@ == t2.lights@ && t1.particles@ == t2.particles@ && t1.audio@ == t2.audio@
        }
    &&& m1.ceiling@.len() == m2.ceiling@.len()
    &&& forall|z: int|
        0 <= z < m1.ceiling@.len() ==> (#[trigger] m1.ceiling@[z])@.len() == m2.ceiling@[z]@.len()
    &&& forall|z: int, x: int|
        0 <= z < m1.ceiling@.len() && 0 <= x < m1.ceiling@[z]@.len() ==> {
            match (#[trigger] m1.ceiling@[z]@[x], m2.ceiling@[z]@[x]) {
                (Some(t1), Some(t2)) => t1.material@ == t2.material@ && t1.height == t2.height
                    && t1.thickness == t2.thickness,
                (None, None) => true,
                _ => false,
            }
        }
    &&& m1.monster_spawns@.len() == m2.monster_spawns@.len()
    &&& forall|i: int|
        0 <= i < m1.monster_spawns@.len() ==> {
            let s1 = #[trigger] m1.monster_spawns@[i];
            let s2 = m2.monster_spawns@[i];
            s1.grid_pos == s2.grid_pos && s1.enemy_type@ == s2.enemy_type@
        }
    &&& m1.spawn_zones == m2.spawn_zones
}

/// Resolution is deterministic: any two models resolved from the same raw
/// description against the same palette registry agree on every observation,
/// grids and spawn-list ordering included.
pub proof fn lemma_resolution_deterministic(
    m1: LevelDefinition,
    m2: LevelDefinition,
    raw: LevelDefinitionRaw,
    reg: PaletteRegistry,
)
    requires
        resolved_from(m1, raw, reg),
        resolved_from(m2, raw, reg),
    ensures
        models_agree(m1, m2),
{
    assert forall|z: int, x: int|
        0 <= z < m1.geometry@.len() && 0 <= x < m1.geometry@[z]@.len() implies {
        let t1 = #[trigger] m1.geometry@[z]@[x];
        let t2 = m2.geometry@[z]@[x];
        t1.kind == t2.kind && t1.material@ == t2.material@ && t1.height == t2.height
            && t1.floor_depth == t2.floor_depth && t1.elevation == t2.elevation
    } by {
        assert(geo_row_resolves(
            m1.geometry@[z]@,
            raw.geometry@[z]@,
            m1.width as int,
            effective_geometry_palette(raw, reg),
            raw.default_wall_height,
            raw.default_floor_depth,
        ));
        assert(geo_row_resolves(
            m2.geometry@[z]@,
            raw.geometry@[z]@,
            m2.width as int,
            effective_geometry_palette(raw, reg),
            raw.default_wall_height,
            raw.default_floor_depth,
        ));
    }
    assert forall|z: int, x: int|
        0 <= z < m1.ambient@.len() && 0 <= x < m1.ambient@[z]@.len() implies {
        let t1 = #[trigger] m1.ambient@[z]@[x];
        let t2 = m2.ambient@[z]@[x];
        t1.lights@ == t2.lights@ && t1.particles@ == t2.particles@ && t1.audio@ == t2.audio@
    } by {
        assert(ambient_row_resolves(
            m1.ambient@[z]@,
            raw.ambient@[z]@,
            m1.width as int,
            effective_ambient_palette(raw, reg),
        ));
        assert(ambient_row_resolves(
            m2.ambient@[z]@,
            raw.ambient@[z]@,
            m2.width as int,
            effective_ambient_palette(raw, reg),
        ));
        let t1 = m1.ambient@[z]@[x];
        let t2 = m2.ambient@[z]@[x];
        if t1.is_empty() && t2.is_empty() {
            assert(t1.lights@ =~= t2.lights@);
            assert(t1.particles@ =~= t2.particles@);
            assert(t1.audio@ =~= t2.audio@);
        }
    }
    assert forall|z: int, x: int|
        0 <= z < m1.ceiling@.len() && 0 <= x < m1.ceiling@[z]@.len() implies {
        match (#[trigger] m1.ceiling@[z]@[x], m2.ceiling@[z]@[x]) {
            (Some(t1), Some(t2)) => t1.material@ == t2.material@ && t1.height == t2.height
                && t1.thickness == t2.thickness,
            (None, None) => true,
            _ => false,
        }
    } by {
        if raw.ceiling@.len() > 0 {
            assert(ceiling_row_resolves(
                m1.ceiling@[z]@,
                raw.ceiling@[z]@,
                m1.width as int,
                effective_ceiling_palette(raw, reg),
                raw.default_ceiling_height,
                raw.default_ceiling_thickness,
            ));
            assert(ceiling_row_resolves(
                m2.ceiling@[z]@,
                raw.ceiling@[z]@,
                m2.width as int,
                effective_ceiling_palette(raw, reg),
                raw.default_ceiling_height,
                raw.default_ceiling_thickness,
            ));
        } else {
            assert(synth_ceiling_tile(
                m1.ceiling@[z]@[x],
                m1.geometry@[z]@[x],
                raw.default_ceiling_height,
                raw.default_ceiling_thickness,
            ));
            assert(synth_ceiling_tile(
                m2.ceiling@[z]@[x],
                m2.geometry@[z]@[x],
                raw.default_ceiling_height,
                raw.default_ceiling_thickness,
            ));
            assert(m1.geometry@[z]@[x].kind == m2.geometry@[z]@[x].kind);
        }
    }
}

/// Dimension invariant: in a resolved model the geometry and ambient grids
/// are exactly `width x height`; when the monster or ceiling layer was
/// authored, its dimensions equal the geometry grid's too.
pub proof fn lemma_dimension_invariant(
    m: LevelDefinition,
    raw: LevelDefinitionRaw,
    reg: PaletteRegistry,
)
    requires
        resolved_from(m, raw, reg),
        raw.dims_ok(),
    ensures
        m.geometry@.len() == m.height,
        m.ambient@.len() == m.height,
        m.ceiling@.len() == m.height,
        forall|z: int| 0 <= z < m.height ==> (#[trigger] m.geometry@[z])@.len() == m.width,
        forall|z: int| 0 <= z < m.height ==> (#[trigger] m.ambient@[z])@.len() == m.width,
        raw.monsters@.len() > 0 ==> raw.monsters@.len() == raw.geometry@.len()
            && spec_grid_width(raw.monsters@) == spec_grid_width(raw.geometry@),
        raw.ceiling@.len() > 0 ==> raw.ceiling@.len() == raw.geometry@.len()
            && spec_grid_width(raw.ceiling@) == spec_grid_width(raw.geometry@),
{
    assert forall|z: int| 0 <= z < m.height implies (#[trigger] m.geometry@[z])@.len()
        == m.width by {
        assert(geo_row_resolves(
            m.geometry@[z]@,
            raw.geometry@[z]@,
            m.width as int,
            effective_geometry_palette(raw, reg),
            raw.default_wall_height,
            raw.default_floor_depth,
        ));
    }
    assert forall|z: int| 0 <= z < m.height implies (#[trigger] m.ambient@[z])@.len()
        == m.width by {
        assert(ambient_row_resolves(
            m.ambient@[z]@,
            raw.ambient@[z]@,
            m.width as int,
            effective_ambient_palette(raw, reg),
        ));
    }
    if raw.ceiling@.len() > 0 {
        assert(m.ceiling@.len() == raw.ceiling@.len());
    }
}

} // verus!
