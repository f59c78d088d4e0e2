//! Tests of level resolution: dimensions, palette fallback, defaults,
//! padding, spawn scanning, and the safe out-of-bounds queries.

use dungeon_levels::error::DataLoadError;
use dungeon_levels::level::GridPos;
use dungeon_levels::level::LevelDefinition;
use dungeon_levels::level::LevelDefinitionRaw;
use dungeon_levels::palettes::GeometryPaletteFile;
use dungeon_levels::palettes::NamedEntry;
use dungeon_levels::palettes::PaletteEntry;
use dungeon_levels::palettes::PaletteRegistry;
use dungeon_levels::tiles::GeometryKind;
use dungeon_levels::tiles::GeometryTileDef;
use dungeon_levels::tiles::GlobalAmbientDef;

fn base_raw() -> LevelDefinitionRaw {
    LevelDefinitionRaw {
        name: "test".to_string(),
        tile_size: 2000,
        default_wall_height: 4000,
        default_floor_depth: 500,
        default_ceiling_height: 4000,
        default_ceiling_thickness: 300,
        global_ambient: GlobalAmbientDef::default(),
        player_start: GridPos { x: 0, z: 0 },
        geometry_palette_file: None,
        ambient_palette_file: None,
        monster_palette_file: None,
        ceiling_palette_file: None,
        geometry_palette: vec![],
        ambient_palette: vec![],
        monster_palette: vec![],
        ceiling_palette: vec![],
        geometry: vec![],
        ambient: vec![],
        monsters: vec![],
        ceiling: vec![],
        spawn_zones: vec![],
    }
}

fn geo_entry(c: char, kind: GeometryKind) -> PaletteEntry<GeometryTileDef> {
    PaletteEntry {
        key: c,
        value: GeometryTileDef {
            kind,
            material: None,
            height: None,
            floor_depth: None,
            elevation: None,
        },
    }
}

#[test]
fn resolves_a_small_level() {
    let mut raw = base_raw();
    raw.geometry_palette = vec![geo_entry('F', GeometryKind::Floor), geo_entry('W', GeometryKind::Wall)];
    raw.geometry = vec!["FW".to_string(), "F.".to_string()];
    raw.ambient = vec!["..".to_string(), "..".to_string()];
    let reg = PaletteRegistry::new();
    let level = LevelDefinition::from_raw(raw, &reg).unwrap();
    assert_eq!(level.width, 2);
    assert_eq!(level.height, 2);
    assert_eq!(level.get_geometry(0, 0).kind, GeometryKind::Floor);
    assert_eq!(level.get_geometry(1, 0).kind, GeometryKind::Wall);
    assert_eq!(level.get_geometry(0, 1).kind, GeometryKind::Floor);
    // Unknown character resolves to the void default.
    let void = level.get_geometry(1, 1);
    assert_eq!(void.kind, GeometryKind::Void);
    assert_eq!(void.material, "stone");
    // Absent definition fields fall back to the level defaults.
    let floor = level.get_geometry(0, 0);
    assert_eq!(floor.material, "stone");
    assert_eq!(floor.height, 4000);
    assert_eq!(floor.floor_depth, 500);
    assert_eq!(floor.elevation, 0);
}

#[test]
fn pads_short_rows_to_the_master_width() {
    let mut raw = base_raw();
    raw.geometry_palette = vec![geo_entry('F', GeometryKind::Floor)];
    raw.geometry = vec!["FFF".to_string(), "F".to_string()];
    raw.ambient = vec!["...".to_string(), ".".to_string()];
    let reg = PaletteRegistry::new();
    let level = LevelDefinition::from_raw(raw, &reg).unwrap();
    assert_eq!(level.width, 3);
    assert_eq!(level.height, 2);
    // Cells beyond the authored row length are the void default.
    assert_eq!(level.get_geometry(1, 1).kind, GeometryKind::Void);
    assert_eq!(level.get_geometry(2, 1).kind, GeometryKind::Void);
    assert_eq!(level.get_geometry(0, 1).kind, GeometryKind::Floor);
}

#[test]
fn master_dimension_mismatch_is_an_error() {
    let mut raw = base_raw();
    raw.geometry = vec!["..".to_string(), "..".to_string()];
    raw.ambient = vec!["..".to_string()];
    let reg = PaletteRegistry::new();
    let r = LevelDefinition::from_raw(raw, &reg);
    assert!(matches!(
        r,
        Err(DataLoadError::GridMismatch {
            expected_width: 2,
            expected_height: 2,
            actual_width: 2,
            actual_height: 1,
        })
    ));
}

#[test]
fn mismatched_monster_grid_is_an_error() {
    // Geometry 10 x 5, monster grid 10 x 4: a structural error, no model.
    let mut raw = base_raw();
    raw.geometry = vec!["..........".to_string(); 5];
    raw.ambient = vec!["..........".to_string(); 5];
    raw.monsters = vec!["..........".to_string(); 4];
    let reg = PaletteRegistry::new();
    let r = LevelDefinition::from_raw(raw, &reg);
    assert!(matches!(
        r,
        Err(DataLoadError::GridMismatch {
            expected_width: 10,
            expected_height: 5,
            actual_width: 10,
            actual_height: 4,
        })
    ));
}

#[test]
fn mismatched_ceiling_grid_is_an_error() {
    let mut raw = base_raw();
    raw.geometry = vec!["...".to_string()];
    raw.ambient = vec!["...".to_string()];
    raw.ceiling = vec!["..".to_string()];
    let reg = PaletteRegistry::new();
    let r = LevelDefinition::from_raw(raw, &reg);
    assert!(matches!(
        r,
        Err(DataLoadError::GridMismatch {
            expected_width: 3,
            expected_height: 1,
            actual_width: 2,
            actual_height: 1,
        })
    ));
}

#[test]
fn missing_external_catalog_falls_back_to_inline() {
    // The referenced geometry catalog is absent from the store; the inline
    // palette mapping '#' to Wall must take over and resolution succeeds.
    let mut raw = base_raw();
    raw.geometry_palette_file = Some("dungeon.ron".to_string());
    raw.geometry_palette = vec![geo_entry('#', GeometryKind::Wall)];
    raw.geometry = vec!["#".to_string()];
    raw.ambient = vec![".".to_string()];
    let reg = PaletteRegistry::new();
    let level = LevelDefinition::from_raw(raw, &reg).unwrap();
    assert_eq!(level.get_geometry(0, 0).kind, GeometryKind::Wall);
}

#[test]
fn external_catalog_takes_precedence_over_inline() {
    let mut raw = base_raw();
    raw.geometry_palette_file = Some("dungeon.ron".to_string());
    // Inline says Wall, the external file says Floor: external wins.
    raw.geometry_palette = vec![geo_entry('#', GeometryKind::Wall)];
    raw.geometry = vec!["#".to_string()];
    raw.ambient = vec![".".to_string()];
    let mut reg = PaletteRegistry::new();
    reg.geometry.push(NamedEntry {
        name: "dungeon.ron".to_string(),
        value: GeometryPaletteFile { tiles: vec![geo_entry('#', GeometryKind::Floor)] },
    });
    let level = LevelDefinition::from_raw(raw, &reg).unwrap();
    assert_eq!(level.get_geometry(0, 0).kind, GeometryKind::Floor);
}

#[test]
fn out_of_bounds_queries_return_safe_defaults() {
    let mut raw = base_raw();
    raw.geometry_palette = vec![geo_entry('F', GeometryKind::Floor)];
    raw.geometry = vec!["F".to_string()];
    raw.ambient = vec![".".to_string()];
    let reg = PaletteRegistry::new();
    let level = LevelDefinition::from_raw(raw, &reg).unwrap();
    assert_eq!(level.get_geometry(-1, 0).kind, GeometryKind::Void);
    assert_eq!(level.get_geometry(level.width as i32, 0).kind, GeometryKind::Void);
    assert_eq!(level.get_geometry(0, -1).kind, GeometryKind::Void);
    assert_eq!(level.get_geometry(0, level.height as i32).kind, GeometryKind::Void);
    let amb = level.get_ambient(-1, 0);
    assert!(amb.lights.is_empty() && amb.particles.is_empty() && amb.audio.is_empty());
    assert!(level.get_ceiling(-1, 0).is_none());
    assert!(level.get_ceiling(0, 99).is_none());
}

#[test]
fn unknown_monster_character_is_dropped() {
    // 'Z' has no registry entry: resolution succeeds with no spawn for it.
    let mut raw = base_raw();
    raw.monster_palette = vec![PaletteEntry { key: 'g', value: "goblin".to_string() }];
    raw.geometry = vec!["..".to_string()];
    raw.ambient = vec!["..".to_string()];
    raw.monsters = vec!["Zg".to_string()];
    let reg = PaletteRegistry::new();
    let level = LevelDefinition::from_raw(raw, &reg).unwrap();
    assert_eq!(level.monster_spawns.len(), 1);
    assert_eq!(level.monster_spawns[0].enemy_type, "goblin");
    assert_eq!(level.monster_spawns[0].grid_pos, GridPos { x: 1, z: 0 });
}

#[test]
fn monster_spawns_scan_in_row_major_order() {
    let mut raw = base_raw();
    raw.monster_palette = vec![
        PaletteEntry { key: 'a', value: "ant".to_string() },
        PaletteEntry { key: 'b', value: "bat".to_string() },
    ];
    raw.geometry = vec!["...".to_string(), "...".to_string()];
    raw.ambient = vec!["...".to_string(), "...".to_string()];
    raw.monsters = vec![".b.".to_string(), "a.b".to_string()];
    let reg = PaletteRegistry::new();
    let level = LevelDefinition::from_raw(raw, &reg).unwrap();
    let got: Vec<(i32, i32, &str)> = level
        .monster_spawns
        .iter()
        .map(|s| (s.grid_pos.x, s.grid_pos.z, s.enemy_type.as_str()))
        .collect();
    assert_eq!(got, vec![(1, 0, "bat"), (0, 1, "ant"), (2, 1, "bat")]);
}

#[test]
fn resolution_is_deterministic() {
    // Resolving the same raw description twice gives identical grids and
    // spawn ordering.
    let make = || {
        let mut raw = base_raw();
        raw.geometry_palette = vec![
            geo_entry('F', GeometryKind::Floor),
            geo_entry('W', GeometryKind::Wall),
            geo_entry('P', GeometryKind::Pillar),
        ];
        raw.monster_palette = vec![PaletteEntry { key: 'g', value: "goblin".to_string() }];
        raw.geometry = vec!["FWP".to_string(), "F..".to_string()];
        raw.ambient = vec!["...".to_string(), "...".to_string()];
        raw.monsters = vec!["g..".to_string(), ".g.".to_string()];
        raw
    };
    let reg = PaletteRegistry::new();
    let a = LevelDefinition::from_raw(make(), &reg).unwrap();
    let b = LevelDefinition::from_raw(make(), &reg).unwrap();
    assert_eq!(a.width, b.width);
    assert_eq!(a.height, b.height);
    for z in 0..a.height as i32 {
        for x in 0..a.width as i32 {
            let ta = a.get_geometry(x, z);
            let tb = b.get_geometry(x, z);
            assert_eq!(ta.kind, tb.kind);
            assert_eq!(ta.material, tb.material);
            assert_eq!(ta.height, tb.height);
            assert_eq!(ta.floor_depth, tb.floor_depth);
            assert_eq!(ta.elevation, tb.elevation);
        }
    }
    assert_eq!(a.monster_spawns.len(), b.monster_spawns.len());
    for (sa, sb) in a.monster_spawns.iter().zip(b.monster_spawns.iter()) {
        assert_eq!(sa.grid_pos, sb.grid_pos);
        assert_eq!(sa.enemy_type, sb.enemy_type);
    }
}

#[test]
fn dimension_invariant_holds_after_resolution() {
    let mut raw = base_raw();
    raw.geometry_palette = vec![geo_entry('F', GeometryKind::Floor)];
    raw.geometry = vec!["FF".to_string(), "F".to_string(), "".to_string()];
    raw.ambient = vec!["..".to_string(), "..".to_string(), "..".to_string()];
    let reg = PaletteRegistry::new();
    let level = LevelDefinition::from_raw(raw, &reg).unwrap();
    assert_eq!(level.geometry.len(), level.height);
    assert_eq!(level.ambient.len(), level.height);
    assert_eq!(level.ceiling.len(), level.height);
    for z in 0..level.height {
        assert_eq!(level.geometry[z].len(), level.width);
        assert_eq!(level.ambient[z].len(), level.width);
        assert_eq!(level.ceiling[z].len(), level.width);
    }
}

#[test]
fn grid_to_world_centers_tiles() {
    let mut raw = base_raw();
    raw.geometry = vec![".".to_string()];
    raw.ambient = vec![".".to_string()];
    let reg = PaletteRegistry::new();
    let level = LevelDefinition::from_raw(raw, &reg).unwrap();
    assert_eq!(level.grid_to_world(0, 0), (1000, 1000));
    assert_eq!(level.grid_to_world(3, 2), (7000, 5000));
    assert_eq!(level.grid_to_world(-1, 0), (-1000, 1000));
}
