//! Tests of the spawn resolver, the palette store, filename classification,
//! and the text utilities they rest on.

use dungeon_levels::level::GridPos;
use dungeon_levels::level::LevelDefinition;
use dungeon_levels::level::LevelDefinitionRaw;
use dungeon_levels::level::LevelRegistry;
use dungeon_levels::palettes::classify_palette_filename;
use dungeon_levels::palettes::named_get;
use dungeon_levels::palettes::palette_get;
use dungeon_levels::palettes::NamedEntry;
use dungeon_levels::palettes::PaletteCategory;
use dungeon_levels::palettes::PaletteEntry;
use dungeon_levels::palettes::PaletteRegistry;
use dungeon_levels::spawning::spawn_monsters_from_grid;
use dungeon_levels::spawning::ColliderConfig;
use dungeon_levels::spawning::EnemyDefinition;
use dungeon_levels::spawning::EnemyRegistry;
use dungeon_levels::text::contains_sub;
use dungeon_levels::text::str_eq;
use dungeon_levels::tiles::GlobalAmbientDef;

fn base_raw() -> LevelDefinitionRaw {
    LevelDefinitionRaw {
        name: "test".to_string(),
        tile_size: 2000,
        default_wall_height: 4000,
        default_floor_depth: 500,
        default_ceiling_height: 4000,
        default_ceiling_thickness: 300,
        global_ambient: GlobalAmbientDef::default(),
        player_start: GridPos { x: 0, z: 0 },
        geometry_palette_file: None,
        ambient_palette_file: None,
        monster_palette_file: None,
        ceiling_palette_file: None,
        geometry_palette: vec![],
        ambient_palette: vec![],
        monster_palette: vec![],
        ceiling_palette: vec![],
        geometry: vec![],
        ambient: vec![],
        monsters: vec![],
        ceiling: vec![],
        spawn_zones: vec![],
    }
}

fn goblin_definition() -> EnemyDefinition {
    EnemyDefinition {
        name: "Goblin".to_string(),
        max_health: 30_000,
        damage: 8_000,
        move_speed: 3_500,
        detection_range: 12_000,
        attack_range: 1_800,
        attack_cooldown: 2_000,
        model_path: "models/goblin.glb".to_string(),
        scale: 1_000,
        collider: None,
        animations: None,
    }
}

#[test]
fn spawn_resolution_emits_descriptors_for_known_types() {
    let mut raw = base_raw();
    raw.monster_palette = vec![
        PaletteEntry { key: 'g', value: "goblin".to_string() },
        PaletteEntry { key: 'u', value: "unregistered".to_string() },
    ];
    raw.geometry = vec!["...".to_string()];
    raw.ambient = vec!["...".to_string()];
    raw.monsters = vec!["gug".to_string()];
    let palettes = PaletteRegistry::new();
    let level = LevelDefinition::from_raw(raw, &palettes).unwrap();
    assert_eq!(level.monster_spawns.len(), 3);

    let mut enemies = EnemyRegistry::new();
    enemies.definitions.push(NamedEntry { name: "goblin".to_string(), value: goblin_definition() });
    let ds = spawn_monsters_from_grid(&level, &enemies);
    // The unregistered type is dropped; the two goblins survive in order.
    assert_eq!(ds.len(), 2);
    assert_eq!(ds[0].enemy_type, "goblin");
    assert_eq!((ds[0].world.x, ds[0].world.y, ds[0].world.z), (1000, 0, 1000));
    assert_eq!((ds[1].world.x, ds[1].world.z), (5000, 1000));
    assert_eq!(ds[0].stats.max_health, 30_000);
    assert_eq!(ds[0].stats.damage, 8_000);
    assert_eq!(ds[0].model_path, "models/goblin.glb");
    assert_eq!(ds[0].scale, 1_000);
    // No collider configured: the stock capsule.
    assert_eq!(ds[0].collider, ColliderConfig { half_height: 500, radius: 300 });
}

#[test]
fn configured_collider_overrides_the_stock_capsule() {
    let mut raw = base_raw();
    raw.monster_palette = vec![PaletteEntry { key: 'g', value: "goblin".to_string() }];
    raw.geometry = vec![".".to_string()];
    raw.ambient = vec![".".to_string()];
    raw.monsters = vec!["g".to_string()];
    let palettes = PaletteRegistry::new();
    let level = LevelDefinition::from_raw(raw, &palettes).unwrap();

    let mut def = goblin_definition();
    def.collider = Some(ColliderConfig { half_height: 900, radius: 450 });
    let mut enemies = EnemyRegistry::new();
    enemies.definitions.push(NamedEntry { name: "goblin".to_string(), value: def });
    let ds = spawn_monsters_from_grid(&level, &enemies);
    assert_eq!(ds.len(), 1);
    assert_eq!(ds[0].collider, ColliderConfig { half_height: 900, radius: 450 });
}

#[test]
fn to_stats_copies_the_combat_numbers() {
    let def = goblin_definition();
    let stats = def.to_stats();
    assert_eq!(stats.max_health, 30_000);
    assert_eq!(stats.damage, 8_000);
    assert_eq!(stats.move_speed, 3_500);
    assert_eq!(stats.detection_range, 12_000);
    assert_eq!(stats.attack_range, 1_800);
    assert_eq!(stats.attack_cooldown, 2_000);
}

#[test]
fn enemy_registry_lookup_by_name() {
    let mut enemies = EnemyRegistry::new();
    enemies.definitions.push(NamedEntry { name: "goblin".to_string(), value: goblin_definition() });
    assert!(enemies.get("goblin").is_some());
    assert!(enemies.get("dragon").is_none());
    assert_eq!(enemies.get("goblin").unwrap().name, "Goblin");
}

#[test]
fn palette_lookup_takes_the_first_match() {
    let entries = vec![
        PaletteEntry { key: 'a', value: 1u32 },
        PaletteEntry { key: 'b', value: 2u32 },
        PaletteEntry { key: 'a', value: 3u32 },
    ];
    assert_eq!(palette_get(&entries, 'a'), Some(&1));
    assert_eq!(palette_get(&entries, 'b'), Some(&2));
    assert_eq!(palette_get(&entries, 'c'), None);
}

#[test]
fn named_lookup_compares_whole_names() {
    let entries = vec![
        NamedEntry { name: "cave.ron".to_string(), value: 1u32 },
        NamedEntry { name: "cavern.ron".to_string(), value: 2u32 },
    ];
    assert_eq!(named_get(&entries, "cavern.ron"), Some(&2));
    assert_eq!(named_get(&entries, "cave.ron"), Some(&1));
    assert_eq!(named_get(&entries, "cave"), None);
}

#[test]
fn filename_classification_follows_precedence() {
    assert_eq!(classify_palette_filename("dungeon_geometry.ron"), Some(PaletteCategory::Geometry));
    assert_eq!(classify_palette_filename("crypt_ambient.ron"), Some(PaletteCategory::Ambient));
    assert_eq!(classify_palette_filename("monster_set.ron"), Some(PaletteCategory::Monster));
    assert_eq!(classify_palette_filename("stone_ceiling.ron"), Some(PaletteCategory::Ceiling));
    // "ceiling" wins over any other category word in the same name.
    assert_eq!(
        classify_palette_filename("geometry_ceiling.ron"),
        Some(PaletteCategory::Ceiling)
    );
    assert_eq!(classify_palette_filename("tileset.ron"), None);
}

#[test]
fn text_utilities_compare_and_search() {
    assert!(str_eq("abc", "abc"));
    assert!(!str_eq("abc", "abd"));
    assert!(!str_eq("abc", "ab"));
    assert!(str_eq("", ""));
    assert!(contains_sub("dungeon_geometry.ron", "geometry"));
    assert!(!contains_sub("dungeon.ron", "geometry"));
    assert!(contains_sub("abc", ""));
    assert!(!contains_sub("ab", "abc"));
}

#[test]
fn level_registry_lookup_by_name() {
    let mut raw = base_raw();
    raw.geometry = vec![".".to_string()];
    raw.ambient = vec![".".to_string()];
    let palettes = PaletteRegistry::new();
    let level = LevelDefinition::from_raw(raw, &palettes).unwrap();
    let mut registry = LevelRegistry::new();
    registry.levels.push(NamedEntry { name: "level1".to_string(), value: level });
    assert!(registry.get("level1").is_some());
    assert!(registry.get("level2").is_none());
    assert_eq!(registry.get("level1").unwrap().width, 1);
}
