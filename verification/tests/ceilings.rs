//! Tests of the ceiling layer: authored grids, defaults for unknown
//! characters, and synthesis from geometry when no grid was authored.

use dungeon_levels::level::GridPos;
use dungeon_levels::level::LevelDefinition;
use dungeon_levels::level::LevelDefinitionRaw;
use dungeon_levels::palettes::PaletteEntry;
use dungeon_levels::palettes::PaletteRegistry;
use dungeon_levels::tiles::CeilingTileDef;
use dungeon_levels::tiles::GeometryKind;
use dungeon_levels::tiles::GeometryTileDef;
use dungeon_levels::tiles::GlobalAmbientDef;

fn base_raw() -> LevelDefinitionRaw {
    LevelDefinitionRaw {
        name: "test".to_string(),
        tile_size: 2000,
        default_wall_height: 4000,
        default_floor_depth: 500,
        default_ceiling_height: 3500,
        default_ceiling_thickness: 300,
        global_ambient: GlobalAmbientDef::default(),
        player_start: GridPos { x: 0, z: 0 },
        geometry_palette_file: None,
        ambient_palette_file: None,
        monster_palette_file: None,
        ceiling_palette_file: None,
        geometry_palette: vec![],
        ambient_palette: vec![],
        monster_palette: vec![],
        ceiling_palette: vec![],
        geometry: vec![],
        ambient: vec![],
        monsters: vec![],
        ceiling: vec![],
        spawn_zones: vec![],
    }
}

fn geo_entry(c: char, kind: GeometryKind) -> PaletteEntry<GeometryTileDef> {
    PaletteEntry {
        key: c,
        value: GeometryTileDef {
            kind,
            material: None,
            height: None,
            floor_depth: None,
            elevation: None,
        },
    }
}

#[test]
fn authored_ceiling_resolves_blank_known_and_unknown() {
    let mut raw = base_raw();
    raw.geometry = vec!["...".to_string()];
    raw.ambient = vec!["...".to_string()];
    raw.ceiling_palette = vec![PaletteEntry {
        key: 'c',
        value: CeilingTileDef {
            material: Some("wood_ceiling".to_string()),
            height: Some(2800),
            thickness: None,
        },
    }];
    raw.ceiling = vec![".cX".to_string()];
    let reg = PaletteRegistry::new();
    let level = LevelDefinition::from_raw(raw, &reg).unwrap();
    // Blank means open sky.
    assert!(level.get_ceiling(0, 0).is_none());
    // Palette hit, with the absent thickness defaulted.
    let known = level.get_ceiling(1, 0).unwrap();
    assert_eq!(known.material, "wood_ceiling");
    assert_eq!(known.height, 2800);
    assert_eq!(known.thickness, 300);
    // Unknown character gets the full default ceiling.
    let unknown = level.get_ceiling(2, 0).unwrap();
    assert_eq!(unknown.material, "ceiling");
    assert_eq!(unknown.height, 3500);
    assert_eq!(unknown.thickness, 300);
}

#[test]
fn absent_ceiling_is_synthesized_over_floor_tiles() {
    let mut raw = base_raw();
    raw.geometry_palette = vec![
        geo_entry('F', GeometryKind::Floor),
        geo_entry('W', GeometryKind::Wall),
        geo_entry('P', GeometryKind::Pillar),
        geo_entry('D', GeometryKind::Doorway),
    ];
    raw.geometry = vec!["FWPD.".to_string()];
    raw.ambient = vec![".....".to_string()];
    let reg = PaletteRegistry::new();
    let level = LevelDefinition::from_raw(raw, &reg).unwrap();
    // Floor, Pillar and Doorway carry a floor, so they get a ceiling.
    let over_floor = level.get_ceiling(0, 0).unwrap();
    assert_eq!(over_floor.material, "ceiling");
    assert_eq!(over_floor.height, 3500);
    assert_eq!(over_floor.thickness, 300);
    assert!(level.get_ceiling(2, 0).is_some());
    assert!(level.get_ceiling(3, 0).is_some());
    // Wall and Void cells stay open.
    assert!(level.get_ceiling(1, 0).is_none());
    assert!(level.get_ceiling(4, 0).is_none());
}

#[test]
fn kind_queries_match_their_definitions() {
    assert!(GeometryKind::Floor.has_floor());
    assert!(GeometryKind::Pillar.has_floor());
    assert!(GeometryKind::Doorway.has_floor());
    assert!(!GeometryKind::Wall.has_floor());
    assert!(!GeometryKind::Void.has_floor());
    assert!(GeometryKind::Wall.is_solid());
    assert!(!GeometryKind::Floor.is_solid());
}
