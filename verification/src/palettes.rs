//! Palette catalogs (character -> tile definition) and the registry of
//! externally shared, named palette files.
//!
//! Palettes are small association lists; lookup takes the first entry whose
//! key matches, so a palette built from a map with unique keys behaves
//! exactly like that map.

use vstd::prelude::*;

use crate::text::contains_sub;
use crate::text::has_substring;
use crate::text::str_eq;
use crate::tiles::AmbientTileDef;
use crate::tiles::CeilingTileDef;
use crate::tiles::GeometryTileDef;

verus! {

/// One palette entry: a single authoring character and its definition.
#[derive(Debug, Clone)]
pub struct PaletteEntry<V> {
    pub key: char,
    pub value: V,
}

/// First entry whose key is `c`, if any.
pub open spec fn palette_lookup<V>(entries: Seq<PaletteEntry<V>>, c: char) -> Option<V>
    decreases entries.len(),
{
    if entries.len() == 0 {
        None
    } else if entries[0].key == c {
        Some(entries[0].value)
    } else {
        palette_lookup(entries.drop_first(), c)
    }
}

/// Linear scan for the first entry keyed by `c`.
pub fn palette_get<'a, V>(entries: &'a Vec<PaletteEntry<V>>, c: char) -> (r: Option<&'a V>)
    ensures
        match r {
            Some(v) => palette_lookup(entries@, c) == Some(*v),
            None => palette_lookup(entries@, c) is None,
        },
{
    let len = entries.len();
    proof {
        assert(entries@.subrange(0, len as int) =~= entries@);
    }
    let mut i: usize = 0;
    while i < len
        invariant
            len == entries@.len(),
            i <= len,
            palette_lookup(entries@, c) == palette_lookup(
                entries@.subrange(i as int, len as int),
                c,
            ),
        decreases len - i,
    {
        proof {
            assert(entries@.subrange(i as int, len as int).drop_first() =~= entries@.subrange(
                i + 1,
                len as int,
            ));
        }
        if entries[i].key == c {
            return Some(&entries[i].value);
        }
        i += 1;
    }
    proof {
        assert(entries@.subrange(len as int, len as int).len() == 0);
    }
    None
}

/// A successful lookup returns the value of one of the entries.
pub proof fn lemma_palette_lookup_member<V>(entries: Seq<PaletteEntry<V>>, c: char)
    requires
        palette_lookup(entries, c) is Some,
    ensures
        exists|i: int|
            0 <= i < entries.len() && (#[trigger] entries[i]).value == palette_lookup(
                entries,
                c,
            )->Some_0,
    decreases entries.len(),
{
    if entries.len() > 0 {
        if entries[0].key == c {
            assert(entries[0].value == palette_lookup(entries, c)->Some_0);
        } else {
            lemma_palette_lookup_member(entries.drop_first(), c);
            let i = choose|i: int|
                0 <= i < entries.drop_first().len() && (#[trigger] entries.drop_first()[i]).value
                    == palette_lookup(entries.drop_first(), c)->Some_0;
            assert(entries[i + 1].value == palette_lookup(entries, c)->Some_0);
        }
    }
}

/// An external geometry palette file.
#[derive(Debug, Clone)]
pub struct GeometryPaletteFile {
    pub tiles: Vec<PaletteEntry<GeometryTileDef>>,
}

impl GeometryPaletteFile {
    /// Every tile definition respects the measurement bounds.
    pub open spec fn wf(self) -> bool {
        forall|i: int| 0 <= i < self.tiles@.len() ==> (#[trigger] self.tiles@[i]).value.wf()
    }
}

/// An external ambient palette file.
#[derive(Debug, Clone)]
pub struct AmbientPaletteFile {
    pub tiles: Vec<PaletteEntry<AmbientTileDef>>,
}

/// An external monster palette file: character -> creature type name.
#[derive(Debug, Clone)]
pub struct MonsterPaletteFile {
    pub entries: Vec<PaletteEntry<String>>,
}

/// An external ceiling palette file.
#[derive(Debug, Clone)]
pub struct CeilingPaletteFile {
    pub tiles: Vec<PaletteEntry<CeilingTileDef>>,
}

impl CeilingPaletteFile {
    /// Every tile definition respects the measurement bounds.
    pub open spec fn wf(self) -> bool {
        forall|i: int| 0 <= i < self.tiles@.len() ==> (#[trigger] self.tiles@[i]).value.wf()
    }
}

/// One named entry of the palette registry.
#[derive(Debug, Clone)]
pub struct NamedEntry<V> {
    pub name: String,
    pub value: V,
}

/// First entry stored under `name`, if any.
pub open spec fn named_lookup<V>(entries: Seq<NamedEntry<V>>, name: Seq<char>) -> Option<V>
    decreases entries.len(),
{
    if entries.len() == 0 {
        None
    } else if entries[0].name@ == name {
        Some(entries[0].value)
    } else {
        named_lookup(entries.drop_first(), name)
    }
}

/// A successful lookup returns the value of one of the entries.
pub proof fn lemma_named_lookup_member<V>(entries: Seq<NamedEntry<V>>, name: Seq<char>)
    requires
        named_lookup(entries, name) is Some,
    ensures
        exists|i: int|
            0 <= i < entries.len() && (#[trigger] entries[i]).value == named_lookup(
                entries,
                name,
            )->Some_0,
    decreases entries.len(),
{
    if entries.len() > 0 {
        if entries[0].name@ == name {
            assert(entries[0].value == named_lookup(entries, name)->Some_0);
        } else {
            lemma_named_lookup_member(entries.drop_first(), name);
            let i = choose|i: int|
                0 <= i < entries.drop_first().len() && (#[trigger] entries.drop_first()[i]).value
                    == named_lookup(entries.drop_first(), name)->Some_0;
            assert(entries[i + 1].value == named_lookup(entries, name)->Some_0);
        }
    }
}

/// Linear scan for the first entry stored under `name`.
pub fn named_get<'a, V>(entries: &'a Vec<NamedEntry<V>>, name: &str) -> (r: Option<&'a V>)
    ensures
        match r {
            Some(v) => named_lookup(entries@, name@) == Some(*v),
            None => named_lookup(entries@, name@) is None,
        },
{
    let len = entries.len();
    proof {
        assert(entries@.subrange(0, len as int) =~= entries@);
    }
    let mut i: usize = 0;
    while i < len
        invariant
            len == entries@.len(),
            i <= len,
            named_lookup(entries@, name@) == named_lookup(
                entries@.subrange(i as int, len as int),
                name@,
            ),
        decreases len - i,
    {
        proof {
            assert(entries@.subrange(i as int, len as int).drop_first() =~= entries@.subrange(
                i + 1,
                len as int,
            ));
        }
        if str_eq(entries[i].name.as_str(), name) {
            return Some(&entries[i].value);
        }
        i += 1;
    }
    proof {
        assert(entries@.subrange(len as int, len as int).len() == 0);
    }
    None
}

/// Registry of loaded external palette files, one list per category.
///
/// Loaded once at startup and read-only afterwards; every level resolution
/// borrows it.
#[derive(Debug, Clone)]
pub struct PaletteRegistry {
    pub geometry: Vec<NamedEntry<GeometryPaletteFile>>,
    pub ambient: Vec<NamedEntry<AmbientPaletteFile>>,
    pub monster: Vec<NamedEntry<MonsterPaletteFile>>,
    pub ceiling: Vec<NamedEntry<CeilingPaletteFile>>,
}

impl PaletteRegistry {
    /// Every stored geometry and ceiling palette respects the measurement
    /// bounds.
    pub open spec fn wf(self) -> bool {
        &&& forall|i: int| 0 <= i < self.geometry@.len() ==> (#[trigger] self.geometry@[i]).value.wf()
        &&& forall|i: int| 0 <= i < self.ceiling@.len() ==> (#[trigger] self.ceiling@[i]).value.wf()
    }

    /// An empty registry with no palettes in any category.
    pub fn new() -> (r: Self)
        ensures
            r.geometry@.len() == 0,
            r.ambient@.len() == 0,
            r.monster@.len() == 0,
            r.ceiling@.len() == 0,
    {
        PaletteRegistry {
            geometry: Vec::new(),
            ambient: Vec::new(),
            monster: Vec::new(),
            ceiling: Vec::new(),
        }
    }

    /// Get a geometry palette by filename.
    pub fn get_geometry(&self, filename: &str) -> (r: Option<&GeometryPaletteFile>)
        ensures
            match r {
                Some(v) => named_lookup(self.geometry@, filename@) == Some(*v),
                None => named_lookup(self.geometry@, filename@) is None,
            },
    {
        named_get(&self.geometry, filename)
    }

    /// Get an ambient palette by filename.
    pub fn get_ambient(&self, filename: &str) -> (r: Option<&AmbientPaletteFile>)
        ensures
            match r {
                Some(v) => named_lookup(self.ambient@, filename@) == Some(*v),
                None => named_lookup(self.ambient@, filename@) is None,
            },
    {
        named_get(&self.ambient, filename)
    }

    /// Get a monster palette by filename.
    pub fn get_monster(&self, filename: &str) -> (r: Option<&MonsterPaletteFile>)
        ensures
            match r {
                Some(v) => named_lookup(self.monster@, filename@) == Some(*v),
                None => named_lookup(self.monster@, filename@) is None,
            },
    {
        named_get(&self.monster, filename)
    }

    /// Get a ceiling palette by filename.
    pub fn get_ceiling(&self, filename: &str) -> (r: Option<&CeilingPaletteFile>)
        ensures
            match r {
                Some(v) => named_lookup(self.ceiling@, filename@) == Some(*v),
                None => named_lookup(self.ceiling@, filename@) is None,
            },
    {
        named_get(&self.ceiling, filename)
    }
}

/// The category a palette file belongs to.
#[derive(Debug, Clone, Copy, PartialEq, Eq, Structural)]
pub enum PaletteCategory {
    Geometry,
    Ambient,
    Monster,
    Ceiling,
}

/// Category of a palette file as decided by its filename, checking for the
/// category words in fixed precedence order.
pub open spec fn spec_classify_filename(name: Seq<char>) -> Option<PaletteCategory> {
    if has_substring(name, "ceiling"@) {
        Some(PaletteCategory::Ceiling)
    } else if has_substring(name, "geometry"@) {
        Some(PaletteCategory::Geometry)
    } else if has_substring(name, "ambient"@) {
        Some(PaletteCategory::Ambient)
    } else if has_substring(name, "monster"@) {
        Some(PaletteCategory::Monster)
    } else {
        None
    }
}

/// Classify a palette file by its filename. `None` means the name decides
/// nothing and the caller must fall back to content-shape detection.
pub fn classify_palette_filename(name: &str) -> (r: Option<PaletteCategory>)
    ensures
        r == spec_classify_filename(name@),
{
    if contains_sub(name, "ceiling") {
        Some(PaletteCategory::Ceiling)
    } else if contains_sub(name, "geometry") {
        Some(PaletteCategory::Geometry)
    } else if contains_sub(name, "ambient") {
        Some(PaletteCategory::Ambient)
    } else if contains_sub(name, "monster") {
        Some(PaletteCategory::Monster)
    } else {
        None
    }
}

} // verus!
