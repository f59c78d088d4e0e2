//! The spawn resolver: cross-references the resolved monster spawn list
//! against the creature registry and emits entity-instantiation descriptors.
//!
//! A spawn whose creature type is missing from the registry is dropped (the
//! caller may log it); spawn loss is never fatal.

use vstd::prelude::*;

use crate::level::LevelDefinition;
use crate::level::ResolvedMonsterSpawn;
use crate::palettes::named_lookup;
use crate::palettes::named_get;
use crate::palettes::NamedEntry;
use crate::synthesis::WorldVec;

verus! {

/// Animation clip indices for a creature type.
#[derive(Debug, Clone, Copy, PartialEq, Eq, Structural)]
pub struct AnimationIndices {
    pub idle: u32,
    pub walk: u32,
    /// Falls back to `idle` when absent.
    pub combat_idle: Option<u32>,
    pub attack: u32,
    pub hurt: Option<u32>,
    pub death: u32,
}

/// Animation configuration for a creature type. The hit frame is a fraction
/// of the attack clip in milli-units; the hurt duration is in milliseconds.
#[derive(Debug, Clone, Copy, PartialEq, Eq, Structural)]
pub struct AnimationConfig {
    pub indices: AnimationIndices,
    pub attack_hit_frame: i64,
    pub hurt_duration: i64,
}

/// Capsule collider configuration for a creature type, in milli-units.
#[derive(Debug, Clone, Copy, PartialEq, Eq, Structural)]
pub struct ColliderConfig {
    pub half_height: i64,
    pub radius: i64,
}

impl Default for ColliderConfig {
    /// The stock creature capsule.
    fn default() -> (r: Self)
        ensures
            r.half_height == 500,
            r.radius == 300,
    {
        ColliderConfig { half_height: 500, radius: 300 }
    }
}

/// The combat-relevant numbers of a creature, in milli-units
/// (milliseconds for the cooldown).
#[derive(Debug, Clone, Copy, PartialEq, Eq, Structural)]
pub struct EnemyStats {
    pub max_health: i64,
    pub damage: i64,
    pub move_speed: i64,
    pub detection_range: i64,
    pub attack_range: i64,
    pub attack_cooldown: i64,
}

/// A creature definition from the creature registry.
#[derive(Debug, Clone)]
pub struct EnemyDefinition {
    pub name: String,
    pub max_health: i64,
    pub damage: i64,
    pub move_speed: i64,
    pub detection_range: i64,
    pub attack_range: i64,
    pub attack_cooldown: i64,
    pub model_path: String,
    pub scale: i64,
    pub collider: Option<ColliderConfig>,
    pub animations: Option<AnimationConfig>,
}

impl EnemyDefinition {
    /// The stat block of this creature.
    pub fn to_stats(&self) -> (s: EnemyStats)
        ensures
            s == self.spec_stats(),
    {
        EnemyStats {
            max_health: self.max_health,
            damage: self.damage,
            move_speed: self.move_speed,
            detection_range: self.detection_range,
            attack_range: self.attack_range,
            attack_cooldown: self.attack_cooldown,
        }
    }

    pub open spec fn spec_stats(self) -> EnemyStats {
        EnemyStats {
            max_health: self.max_health,
            damage: self.damage,
            move_speed: self.move_speed,
            detection_range: self.detection_range,
            attack_range: self.attack_range,
            attack_cooldown: self.attack_cooldown,
        }
    }
}

/// The creature registry: definitions keyed by creature type name.
#[derive(Debug, Clone)]
pub struct EnemyRegistry {
    pub definitions: Vec<NamedEntry<EnemyDefinition>>,
}

impl EnemyRegistry {
    /// An empty registry.
    pub fn new() -> (r: Self)
        ensures
            r.definitions@.len() == 0,
    {
        EnemyRegistry { definitions: Vec::new() }
    }

    /// Get a creature definition by type name.
    pub fn get(&self, enemy_type: &str) -> (r: Option<&EnemyDefinition>)
        ensures
            match r {
                Some(v) => named_lookup(self.definitions@, enemy_type@) == Some(*v),
                None => named_lookup(self.definitions@, enemy_type@) is None,
            },
    {
        named_get(&self.definitions, enemy_type)
    }
}

/// One entity-instantiation descriptor: where to spawn which creature, with
/// its resolved stat block, model and collider.
#[derive(Debug, Clone)]
pub struct SpawnDescriptor {
    pub world: WorldVec,
    pub enemy_type: String,
    pub stats: EnemyStats,
    pub model_path: String,
    pub scale: i64,
    pub collider: ColliderConfig,
}

/// The spawn records among the first `upto` whose creature type the registry
/// knows, in order.
pub open spec fn known_spawns(
    spawns: Seq<ResolvedMonsterSpawn>,
    defs: Seq<NamedEntry<EnemyDefinition>>,
    upto: int,
) -> Seq<ResolvedMonsterSpawn>
    decreases upto,
{
    if upto <= 0 {
        Seq::empty()
    } else {
        let prev = known_spawns(spawns, defs, upto - 1);
        if named_lookup(defs, spawns[upto - 1].enemy_type@) is Some {
            prev.push(spawns[upto - 1])
        } else {
            prev
        }
    }
}

/// How one descriptor relates to the spawn record it came from: positioned
/// at the cell's world center at ground height, carrying the registry
/// definition's stats, model, scale and collider (or the stock capsule).
pub open spec fn descriptor_matches(
    d: SpawnDescriptor,
    s: ResolvedMonsterSpawn,
    level: LevelDefinition,
    defs: Seq<NamedEntry<EnemyDefinition>>,
) -> bool {
    match named_lookup(defs, s.enemy_type@) {
        Some(def) => {
            &&& d.world.x == level.spec_world_center(s.grid_pos.x as int)
            &&& d.world.y == 0
            &&& d.world.z == level.spec_world_center(s.grid_pos.z as int)
            &&& d.enemy_type@ == s.enemy_type@
            &&& d.stats == def.spec_stats()
            &&& d.model_path@ == def.model_path@
            &&& d.scale == def.scale
            &&& d.collider == (match def.collider {
                Some(c) => c,
                None => ColliderConfig { half_height: 500, radius: 300 },
            })
        },
        None => false,
    }
}

/// Resolve the level's monster spawn list against the creature registry,
/// emitting one descriptor per known creature type and dropping the rest.
pub fn spawn_monsters_from_grid(level: &LevelDefinition, enemy_registry: &EnemyRegistry) -> (ds:
    Vec<SpawnDescriptor>)
    requires
        level.wf(),
    ensures
        ds@.len() == known_spawns(
            level.monster_spawns@,
            enemy_registry.definitions@,
            level.monster_spawns@.len() as int,
        ).len(),
        forall|i: int|
            0 <= i < ds@.len() ==> descriptor_matches(
                #[trigger] ds@[i],
                known_spawns(
                    level.monster_spawns@,
                    enemy_registry.definitions@,
                    level.monster_spawns@.len() as int,
                )[i],
                *level,
                enemy_registry.definitions@,
            ),
{
    let n = level.monster_spawns.len();
    let mut ds: Vec<SpawnDescriptor> = Vec::new();
    let mut i: usize = 0;
    while i < n
        invariant
            level.wf(),
            n == level.monster_spawns@.len(),
            i <= n,
            ds@.len() == known_spawns(level.monster_spawns@, enemy_registry.definitions@, i as int).len(),
            forall|j: int|
                0 <= j < ds@.len() ==> descriptor_matches(
                    #[trigger] ds@[j],
                    known_spawns(level.monster_spawns@, enemy_registry.definitions@, i as int)[j],
                    *level,
                    enemy_registry.definitions@,
                ),
        decreases n - i,
    {
        let spawn = &level.monster_spawns[i];
        match enemy_registry.get(spawn.enemy_type.as_str()) {
            Some(definition) => {
                let (wx, wz) = level.grid_to_world(spawn.grid_pos.x, spawn.grid_pos.z);
                let collider = match &definition.collider {
                    Some(c) => *c,
                    None => ColliderConfig::default(),
                };
                ds.push(
                    SpawnDescriptor {
                        world: WorldVec { x: wx, y: 0, z: wz },
                        enemy_type: spawn.enemy_type.clone(),
                        stats: definition.to_stats(),
                        model_path: definition.model_path.clone(),
                        scale: definition.scale,
                        collider,
                    },
                );
                proof {
                    let ks_new = known_spawns(
                        level.monster_spawns@,
                        enemy_registry.definitions@,
                        i as int + 1,
                    );
                    let ks_old = known_spawns(
                        level.monster_spawns@,
                        enemy_registry.definitions@,
                        i as int,
                    );
                    assert(ks_new == ks_old.push(level.monster_spawns@[i as int]));
                }
            },
            None => {
                proof {
                    assert(known_spawns(
                        level.monster_spawns@,
                        enemy_registry.definitions@,
                        i as int + 1,
                    ) == known_spawns(level.monster_spawns@, enemy_registry.definitions@, i as int));
                }
            },
        }
        i += 1;
    }
    ds
}

} // verus!
