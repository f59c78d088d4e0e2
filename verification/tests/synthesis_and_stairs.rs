//! Tests of the geometry synthesizer (wall inference, placements, ambient
//! effects) and the stair prefab generator.

use dungeon_levels::level::GridPos;
use dungeon_levels::level::LevelDefinition;
use dungeon_levels::level::LevelDefinitionRaw;
use dungeon_levels::palettes::PaletteEntry;
use dungeon_levels::palettes::PaletteRegistry;
use dungeon_levels::stairs::spawn_prefab;
use dungeon_levels::stairs::spawn_step_stairs;
use dungeon_levels::stairs::Orientation;
use dungeon_levels::stairs::PrefabInstance;
use dungeon_levels::stairs::PrefabKind;
use dungeon_levels::synthesis::build_level_from_data;
use dungeon_levels::synthesis::cell_placements;
use dungeon_levels::synthesis::cell_effects;
use dungeon_levels::synthesis::needs_wall;
use dungeon_levels::synthesis::wall_with_doorway;
use dungeon_levels::synthesis::Direction;
use dungeon_levels::synthesis::WorldVec;
use dungeon_levels::synthesis::walls_for_tile;
use dungeon_levels::synthesis::EffectKind;
use dungeon_levels::synthesis::PlacementKind;
use dungeon_levels::tiles::AmbientTileDef;
use dungeon_levels::tiles::GeometryKind;
use dungeon_levels::tiles::GeometryTileDef;
use dungeon_levels::tiles::GlobalAmbientDef;
use dungeon_levels::tiles::AudioDef;
use dungeon_levels::tiles::LightDef;
use dungeon_levels::tiles::ParticleDef;
use dungeon_levels::tiles::Rgb;

fn base_raw() -> LevelDefinitionRaw {
    LevelDefinitionRaw {
        name: "test".to_string(),
        tile_size: 2000,
        default_wall_height: 4000,
        default_floor_depth: 500,
        default_ceiling_height: 4000,
        default_ceiling_thickness: 300,
        global_ambient: GlobalAmbientDef::default(),
        player_start: GridPos { x: 0, z: 0 },
        geometry_palette_file: None,
        ambient_palette_file: None,
        monster_palette_file: None,
        ceiling_palette_file: None,
        geometry_palette: vec![],
        ambient_palette: vec![],
        monster_palette: vec![],
        ceiling_palette: vec![],
        geometry: vec![],
        ambient: vec![],
        monsters: vec![],
        ceiling: vec![],
        spawn_zones: vec![],
    }
}

fn geo_entry(c: char, kind: GeometryKind) -> PaletteEntry<GeometryTileDef> {
    PaletteEntry {
        key: c,
        value: GeometryTileDef {
            kind,
            material: None,
            height: None,
            floor_depth: None,
            elevation: None,
        },
    }
}

fn floors_level(rows: Vec<&str>) -> LevelDefinition {
    let mut raw = base_raw();
    raw.geometry_palette = vec![
        geo_entry('F', GeometryKind::Floor),
        geo_entry('W', GeometryKind::Wall),
        geo_entry('P', GeometryKind::Pillar),
        geo_entry('D', GeometryKind::Doorway),
    ];
    let blank: String = ".".repeat(rows.iter().map(|r| r.len()).max().unwrap_or(0));
    raw.ambient = vec![blank; rows.len()];
    raw.geometry = rows.into_iter().map(|r| r.to_string()).collect();
    let reg = PaletteRegistry::new();
    LevelDefinition::from_raw(raw, &reg).unwrap()
}

#[test]
fn no_wall_between_adjacent_floors() {
    let level = floors_level(vec!["FF"]);
    // The shared boundary between (0,0) and (1,0) sits at x = 2000.
    assert!(!needs_wall(&level, 1, 0));
    assert!(!needs_wall(&level, 0, 0));
    let left = walls_for_tile(&level, 0, 0);
    for w in &left {
        assert!(!(w.center.x == 2000 && w.center.z == 1000));
    }
    let right = walls_for_tile(&level, 1, 0);
    for w in &right {
        assert!(!(w.center.x == 2000 && w.center.z == 1000));
    }
}

#[test]
fn exactly_one_wall_against_a_void_neighbor() {
    let level = floors_level(vec!["F."]);
    // (1,0) is void, so floor (0,0) gets exactly one wall on the east
    // boundary at x = 2000.
    let walls = walls_for_tile(&level, 0, 0);
    let on_boundary = walls
        .iter()
        .filter(|w| w.center.x == 2000 && w.center.z == 1000)
        .count();
    assert_eq!(on_boundary, 1);
    // And the void cell itself emits no placements at all (no authored
    // ceiling here, and synthesis gives void cells none).
    let void_ps = cell_placements(&level, 1, 0);
    assert!(void_ps.is_empty());
}

#[test]
fn edge_tiles_get_boundary_walls() {
    let level = floors_level(vec!["F"]);
    // All four neighbors are out of bounds, hence void: four walls.
    let walls = walls_for_tile(&level, 0, 0);
    assert_eq!(walls.len(), 4);
    for w in &walls {
        assert_eq!(w.kind, PlacementKind::WallSegment);
        assert_eq!(w.size.y, 4000);
        assert_eq!(w.center.y, 2000);
    }
    // North, south, west, east in order.
    assert_eq!((walls[0].center.x, walls[0].center.z), (1000, 0));
    assert_eq!((walls[1].center.x, walls[1].center.z), (1000, 2000));
    assert_eq!((walls[2].center.x, walls[2].center.z), (0, 1000));
    assert_eq!((walls[3].center.x, walls[3].center.z), (2000, 1000));
}

#[test]
fn doorways_get_no_walls_and_wall_tiles_get_blocks() {
    let level = floors_level(vec!["DW"]);
    // Doorway: floor slab plus synthesized ceiling, never inferred walls.
    let door_ps = cell_placements(&level, 0, 0);
    assert_eq!(door_ps.len(), 2);
    assert_eq!(door_ps[0].kind, PlacementKind::FloorSlab);
    assert_eq!(door_ps[1].kind, PlacementKind::CeilingSlab);
    // Wall tile: one solid block filling the cell.
    let wall_ps = cell_placements(&level, 1, 0);
    assert_eq!(wall_ps.len(), 1);
    assert_eq!(wall_ps[0].kind, PlacementKind::WallBlock);
    assert_eq!(wall_ps[0].size.x, 2000);
    assert_eq!(wall_ps[0].size.y, 4000);
    assert_eq!(wall_ps[0].size.z, 2000);
    assert_eq!(wall_ps[0].center.y, 2000);
}

#[test]
fn pillar_tiles_emit_floor_pillar_walls_and_ceiling() {
    let level = floors_level(vec!["P"]);
    let ps = cell_placements(&level, 0, 0);
    // Floor slab, pillar, four boundary walls, synthesized ceiling.
    assert_eq!(ps.len(), 7);
    assert_eq!(ps[0].kind, PlacementKind::FloorSlab);
    assert_eq!(ps[1].kind, PlacementKind::Pillar);
    assert_eq!(ps[1].material, "pillar");
    assert_eq!(ps[1].size.x, 800);
    assert_eq!(ps[1].size.z, 800);
    for w in &ps[2..6] {
        assert_eq!(w.kind, PlacementKind::WallSegment);
    }
    assert_eq!(ps[6].kind, PlacementKind::CeilingSlab);
    // Ceiling slab: bottom face at the default height, half a thickness up.
    assert_eq!(ps[6].center.y, 4000 + 150);
}

#[test]
fn ambient_lights_become_effect_placements() {
    let mut raw = base_raw();
    raw.geometry_palette = vec![geo_entry('F', GeometryKind::Floor)];
    raw.ambient_palette = vec![PaletteEntry {
        key: 'L',
        value: AmbientTileDef {
            lights: vec![LightDef {
                height: 3000,
                intensity: 120_000_000,
                shadows: true,
                color: Rgb { r: 1000, g: 800, b: 600 },
                range: 15_000,
            }],
            particles: vec![],
            audio: vec![],
        },
    }];
    raw.geometry = vec!["F".to_string()];
    raw.ambient = vec!["L".to_string()];
    let reg = PaletteRegistry::new();
    let level = LevelDefinition::from_raw(raw, &reg).unwrap();
    let es = cell_effects(&level, 0, 0);
    assert_eq!(es.len(), 1);
    assert_eq!((es[0].position.x, es[0].position.y, es[0].position.z), (1000, 3000, 1000));
    match &es[0].kind {
        EffectKind::Light { intensity, shadows, color, range } => {
            assert_eq!(*intensity, 120_000_000);
            assert!(*shadows);
            assert_eq!(*color, Rgb { r: 1000, g: 800, b: 600 });
            assert_eq!(*range, 15_000);
        }
        _ => panic!("expected a light effect"),
    }
}

#[test]
fn particles_and_audio_are_declared_as_effects() {
    // Particle and audio entries become effect placements even though no
    // renderer implements them yet; consumers decide what to do with them.
    let mut raw = base_raw();
    raw.geometry_palette = vec![geo_entry('F', GeometryKind::Floor)];
    raw.ambient_palette = vec![PaletteEntry {
        key: 'M',
        value: AmbientTileDef {
            lights: vec![],
            particles: vec![ParticleDef {
                kind: "mist".to_string(),
                height: 500,
                rate: 5_000,
                color: None,
            }],
            audio: vec![AudioDef { sound: "drip".to_string(), volume: 500, radius: 5_000 }],
        },
    }];
    raw.geometry = vec!["F".to_string()];
    raw.ambient = vec!["M".to_string()];
    let reg = PaletteRegistry::new();
    let level = LevelDefinition::from_raw(raw, &reg).unwrap();
    let es = cell_effects(&level, 0, 0);
    assert_eq!(es.len(), 2);
    match &es[0].kind {
        EffectKind::Particle { name, rate, color } => {
            assert_eq!(name, "mist");
            assert_eq!(*rate, 5_000);
            assert!(color.is_none());
        }
        _ => panic!("expected a particle effect"),
    }
    assert_eq!(es[0].position.y, 500);
    match &es[1].kind {
        EffectKind::Audio { sound, volume, radius } => {
            assert_eq!(sound, "drip");
            assert_eq!(*volume, 500);
            assert_eq!(*radius, 5_000);
        }
        _ => panic!("expected an audio effect"),
    }
    assert_eq!(es[1].position.y, 0);
}

#[test]
fn elevated_tiles_lift_their_slabs_and_walls() {
    let mut raw = base_raw();
    raw.geometry_palette = vec![PaletteEntry {
        key: 'E',
        value: GeometryTileDef {
            kind: GeometryKind::Floor,
            material: Some("wood".to_string()),
            height: Some(3_000),
            floor_depth: Some(400),
            elevation: Some(1_000),
        },
    }];
    raw.geometry = vec!["E".to_string()];
    raw.ambient = vec![".".to_string()];
    let reg = PaletteRegistry::new();
    let level = LevelDefinition::from_raw(raw, &reg).unwrap();
    let tile = level.get_geometry(0, 0);
    assert_eq!(tile.material, "wood");
    assert_eq!(tile.elevation, 1_000);
    let ps = cell_placements(&level, 0, 0);
    // Floor slab: top face at the elevation.
    assert_eq!(ps[0].kind, PlacementKind::FloorSlab);
    assert_eq!(ps[0].center.y, 1_000 - 400 / 2);
    assert_eq!(ps[0].material, "wood");
    // Walls rise from the elevation by the structure height.
    assert_eq!(ps[1].kind, PlacementKind::WallSegment);
    assert_eq!(ps[1].center.y, 1_000 + 3_000 / 2);
    assert_eq!(ps[1].size.y, 3_000);
}

#[test]
fn build_walks_every_cell_and_places_the_player() {
    let mut raw = base_raw();
    raw.geometry_palette = vec![geo_entry('F', GeometryKind::Floor)];
    raw.geometry = vec!["F.".to_string()];
    raw.ambient = vec!["..".to_string()];
    raw.player_start = GridPos { x: 1, z: 0 };
    let reg = PaletteRegistry::new();
    let level = LevelDefinition::from_raw(raw, &reg).unwrap();
    let build = build_level_from_data(&level);
    // The floor cell gives a slab, four walls (east neighbor is void, the
    // rest are out of bounds) minus the shared one... the east neighbor is
    // void too, so four walls, plus a synthesized ceiling: six placements.
    // The void cell adds nothing.
    assert_eq!(build.placements.len(), 6);
    assert!(build.effects.is_empty());
    assert_eq!(build.player_world.x, 3000);
    assert_eq!(build.player_world.y, 1000);
    assert_eq!(build.player_world.z, 1000);
}

#[test]
fn doorway_walls_flank_a_centered_passage() {
    // A 10-unit north wall with a 2.5-unit doorway: two 3.75-unit segments
    // offset 3.125 units from the center, on either side.
    let base = WorldVec { x: 0, y: 0, z: -5000 };
    let ws = wall_with_doorway(base, 10_000, Direction::North, 4_000, 500, 2_500, "stone_wall");
    assert_eq!(ws.len(), 2);
    assert_eq!(ws[0].size.x, 3_750);
    assert_eq!(ws[1].size.x, 3_750);
    assert_eq!(ws[0].center.x, -3_125);
    assert_eq!(ws[1].center.x, 3_125);
    assert_eq!(ws[0].center.y, 2_000);
    assert_eq!(ws[0].center.z, -5000);
    assert_eq!(ws[0].size.z, 500);
    assert_eq!(ws[0].material, "stone_wall");
    // A west wall runs along the z axis instead.
    let vs = wall_with_doorway(
        WorldVec { x: -5000, y: 0, z: 0 },
        10_000,
        Direction::West,
        4_000,
        500,
        2_500,
        "stone_wall",
    );
    assert_eq!(vs[0].center.z, -3_125);
    assert_eq!(vs[1].center.z, 3_125);
    assert_eq!(vs[0].size.z, 3_750);
    assert_eq!(vs[0].size.x, 500);
}

#[test]
fn stair_counts_and_heights_divide_evenly() {
    // from 0.0 to 1.4 with a 0.35 rise bound: four steps, the top step's
    // center a half-rise below the target elevation.
    let prefab = PrefabInstance {
        kind: PrefabKind::StepStairs,
        position: GridPos { x: 0, z: 0 },
        rotation: Orientation::Deg0,
        from_elevation: 0,
        to_elevation: 1400,
        length: Some(1),
    };
    let steps = spawn_step_stairs(&prefab, 2000, "stone");
    assert_eq!(steps.len(), 4);
    let centers: Vec<i64> = steps.iter().map(|s| s.center.y).collect();
    assert_eq!(centers, vec![175, 525, 875, 1225]);
    let rise = steps[0].size.y;
    assert_eq!(rise, 350);
    assert_eq!(steps[3].center.y, 1400 - rise / 2);
    // Step depth divides the run; offsets are symmetric about the middle.
    let zs: Vec<i64> = steps.iter().map(|s| s.center.z).collect();
    assert_eq!(zs, vec![250, 750, 1250, 1750]);
    for s in &steps {
        assert_eq!(s.kind, PlacementKind::StairStep);
        assert_eq!(s.material, "stone");
        assert_eq!(s.size.z, 500);
        assert_eq!(s.yaw_degrees, 0);
    }
}

#[test]
fn flat_stairs_produce_no_steps() {
    let prefab = PrefabInstance {
        kind: PrefabKind::StepStairs,
        position: GridPos { x: 0, z: 0 },
        rotation: Orientation::Deg0,
        from_elevation: 500,
        to_elevation: 500,
        length: None,
    };
    assert!(spawn_step_stairs(&prefab, 2000, "stone").is_empty());
    let descending = PrefabInstance { to_elevation: 200, ..prefab };
    assert!(spawn_step_stairs(&descending, 2000, "stone").is_empty());
}

#[test]
fn rotated_stairs_run_along_the_rotated_axis() {
    let prefab = PrefabInstance {
        kind: PrefabKind::StepStairs,
        position: GridPos { x: 0, z: 0 },
        rotation: Orientation::Deg90,
        from_elevation: 0,
        to_elevation: 700,
        length: Some(2),
    };
    let steps = spawn_prefab(&prefab, 2000, "stone");
    assert_eq!(steps.len(), 2);
    // A quarter turn sends the run offset to the x axis.
    assert_eq!(steps[0].yaw_degrees, 90);
    assert_eq!(steps[0].center.z, 1000);
    assert_eq!(steps[1].center.z, 1000);
    assert_eq!(steps[0].center.x, 1000 - 1000);
    assert_eq!(steps[1].center.x, 1000 + 1000);
    assert_eq!(steps[0].center.y, 175);
    assert_eq!(steps[1].center.y, 525);
}
