//! The stair prefab generator: a parametric, pure function that turns a
//! start/end elevation, a horizontal run and an orientation into a sequence
//! of solid step blocks.
//!
//! The step count is the ceiling of the height difference over the per-step
//! rise bound, so every step's rise stays within what a stepped-locomotion
//! controller can climb, and the steps divide the height evenly: step `i`'s
//! vertical center is `from + (2*i + 1) * diff / (2 * n)` (exact integer
//! arithmetic, truncated toward zero), which for `i = n - 1` lands the top
//! step flush with the target elevation.

use vstd::prelude::*;

use crate::level::GridPos;
use crate::num::lemma_ceil_div_bounds;
use crate::num::lemma_mul_div_bound;
use crate::num::lemma_mul_in_range;
use crate::synthesis::Placement;
use crate::synthesis::PlacementKind;
use crate::synthesis::WorldVec;
use crate::tiles::MAX_MEASURE_MILLI;
use crate::tiles::MAX_TILE_SIZE_MILLI;

verus! {

/// Per-step rise bound used for level stairs, within the locomotion
/// controller's maximum auto-step height.
pub const MAX_STEP_RISE_MILLI: i64 = 350;

/// The kinds of prefab the generator knows.
#[derive(Debug, Clone, Copy, PartialEq, Eq, Structural)]
pub enum PrefabKind {
    StepStairs,
}

/// A quarter-turn orientation about the vertical axis.
#[derive(Debug, Clone, Copy, PartialEq, Eq, Structural)]
pub enum Orientation {
    Deg0,
    Deg90,
    Deg180,
    Deg270,
}

impl Orientation {
    /// The yaw angle in degrees.
    pub open spec fn spec_yaw(self) -> int {
        match self {
            Orientation::Deg0 => 0,
            Orientation::Deg90 => 90,
            Orientation::Deg180 => 180,
            Orientation::Deg270 => 270,
        }
    }
}

/// A declarative prefab placement record: what to build, where, and between
/// which elevations.
#[derive(Debug, Clone)]
pub struct PrefabInstance {
    pub kind: PrefabKind,
    /// Grid cell of the prefab's origin.
    pub position: GridPos,
    /// Orientation of the run axis.
    pub rotation: Orientation,
    pub from_elevation: i64,
    pub to_elevation: i64,
    /// Run length in grid cells; absent means one cell.
    pub length: Option<u32>,
}

impl PrefabInstance {
    /// Elevations within the measurement bounds.
    pub open spec fn wf(self) -> bool {
        &&& -MAX_MEASURE_MILLI <= self.from_elevation <= MAX_MEASURE_MILLI
        &&& -MAX_MEASURE_MILLI <= self.to_elevation <= MAX_MEASURE_MILLI
    }

    /// Run length in cells, defaulting to one.
    pub open spec fn spec_run_cells(self) -> int {
        match self.length {
            Some(l) => l as int,
            None => 1,
        }
    }
}

/// Number of steps: the ceiling of the height difference over the rise
/// bound; zero when the difference is zero or negative.
pub open spec fn spec_num_steps(from: int, to: int, max_rise: int) -> int {
    if to <= from {
        0
    } else {
        (to - from + max_rise - 1) / max_rise
    }
}

/// The world-space offset of step `i`'s center along the run axis, measured
/// from the run's middle.
pub open spec fn spec_step_offset(total: int, n: int, i: int) -> int {
    ((2 * i + 1) * total) / (2 * n) - total / 2
}

/// The world-space height of step `i`'s center.
pub open spec fn spec_step_center_y(from: int, to: int, n: int, i: int) -> int {
    from + ((2 * i + 1) * (to - from)) / (2 * n)
}

/// The run-axis offset rotated into world space: the x component.
pub open spec fn spec_rotated_x(off: int, o: Orientation) -> int {
    match o {
        Orientation::Deg0 => 0,
        Orientation::Deg90 => off,
        Orientation::Deg180 => 0,
        Orientation::Deg270 => -off,
    }
}

/// The run-axis offset rotated into world space: the z component.
pub open spec fn spec_rotated_z(off: int, o: Orientation) -> int {
    match o {
        Orientation::Deg0 => off,
        Orientation::Deg90 => 0,
        Orientation::Deg180 => -off,
        Orientation::Deg270 => 0,
    }
}

/// Step `i` of a staircase: a solid block of one tile width, one step rise
/// and one step depth, centered on the rotated run axis at its computed
/// height.
pub open spec fn is_stair_step(
    p: Placement,
    prefab: PrefabInstance,
    ts: int,
    mat: Seq<char>,
    i: int,
) -> bool {
    let from = prefab.from_elevation as int;
    let to = prefab.to_elevation as int;
    let n = spec_num_steps(from, to, MAX_STEP_RISE_MILLI as int);
    let total = prefab.spec_run_cells() * ts;
    let bx = prefab.position.x * ts + ts / 2;
    let bz = prefab.position.z * ts + ts / 2;
    let off = spec_step_offset(total, n, i);
    &&& p.kind == PlacementKind::StairStep
    &&& p.material@ == mat
    &&& p.yaw_degrees == prefab.rotation.spec_yaw()
    &&& p.center.x == bx + spec_rotated_x(off, prefab.rotation)
    &&& p.center.y == spec_step_center_y(from, to, n, i)
    &&& p.center.z == bz + spec_rotated_z(off, prefab.rotation)
    &&& p.size.x == ts
    &&& p.size.y == (to - from) / n
    &&& p.size.z == total / n
}

/// When the height difference divides evenly into `n` steps of rise `2 * h`,
/// the top step's center sits exactly half a rise below the target
/// elevation, so the top face lands flush with it.
pub proof fn lemma_top_step_flush(from: int, to: int, n: int, h: int)
    requires
        n >= 1,
        h >= 1,
        to - from == n * (2 * h),
    ensures
        spec_step_center_y(from, to, n, n - 1) == to - h,
{
    let d = to - from;
    assert((2 * (n - 1) + 1) * d == (2 * n) * (d - h)) by (nonlinear_arith)
        requires
            d == n * (2 * h),
    ;
    assert(((2 * n) * (d - h)) / (2 * n) == d - h) by (nonlinear_arith)
        requires
            n >= 1,
    ;
}

/// Generate the step blocks of a staircase prefab. A zero or negative height
/// difference is a caller error and produces no steps (the caller may log
/// it); otherwise the top step always lands flush with the target elevation.
pub fn spawn_step_stairs(prefab: &PrefabInstance, tile_size: i64, material: &str) -> (steps: Vec<
    Placement,
>)
    requires
        prefab.wf(),
        0 < tile_size <= MAX_TILE_SIZE_MILLI,
    ensures
        steps@.len() == spec_num_steps(
            prefab.from_elevation as int,
            prefab.to_elevation as int,
            MAX_STEP_RISE_MILLI as int,
        ),
        forall|i: int|
            0 <= i < steps@.len() ==> is_stair_step(
                #[trigger] steps@[i],
                *prefab,
                tile_size as int,
                material@,
                i,
            ),
{
    let height_diff = prefab.to_elevation - prefab.from_elevation;
    if height_diff <= 0 {
        return Vec::new();
    }
    let num_steps = (height_diff + MAX_STEP_RISE_MILLI - 1) / MAX_STEP_RISE_MILLI;
    proof {
        lemma_ceil_div_bounds(height_diff as int, MAX_STEP_RISE_MILLI as int);
    }
    let length_cells: i64 = match prefab.length {
        Some(l) => l as i64,
        None => 1,
    };
    proof {
        lemma_mul_in_range(
            length_cells as int,
            tile_size as int,
            0,
            u32::MAX as int,
            MAX_TILE_SIZE_MILLI as int,
        );
        lemma_mul_in_range(
            prefab.position.x as int,
            tile_size as int,
            i32::MIN as int,
            i32::MAX as int,
            MAX_TILE_SIZE_MILLI as int,
        );
        lemma_mul_in_range(
            prefab.position.z as int,
            tile_size as int,
            i32::MIN as int,
            i32::MAX as int,
            MAX_TILE_SIZE_MILLI as int,
        );
    }
    let total_length = length_cells * tile_size;
    let base_x = (prefab.position.x as i64) * tile_size + tile_size / 2;
    let base_z = (prefab.position.z as i64) * tile_size + tile_size / 2;
    let step_rise = height_diff / num_steps;
    let step_depth = total_length / num_steps;
    let yaw: i64 = match prefab.rotation {
        Orientation::Deg0 => 0,
        Orientation::Deg90 => 90,
        Orientation::Deg180 => 180,
        Orientation::Deg270 => 270,
    };
    let mut steps: Vec<Placement> = Vec::new();
    let mut i: i64 = 0;
    while i < num_steps
        invariant
            0 < num_steps,
            num_steps == spec_num_steps(
                prefab.from_elevation as int,
                prefab.to_elevation as int,
                MAX_STEP_RISE_MILLI as int,
            ),
            height_diff == prefab.to_elevation - prefab.from_elevation,
            0 < height_diff <= 2_000_000_000,
            num_steps <= height_diff,
            prefab.wf(),
            0 < tile_size <= MAX_TILE_SIZE_MILLI,
            length_cells as int == prefab.spec_run_cells(),
            0 <= length_cells <= u32::MAX,
            total_length == length_cells * tile_size,
            0 <= total_length <= 4_294_967_295_000_000,
            base_x as int == prefab.position.x * tile_size + tile_size / 2,
            base_z as int == prefab.position.z * tile_size + tile_size / 2,
            -3_000_000_000_000_000 <= base_x <= 3_000_000_000_000_000,
            -3_000_000_000_000_000 <= base_z <= 3_000_000_000_000_000,
            step_rise == height_diff as int / num_steps as int,
            step_depth == total_length as int / num_steps as int,
            yaw == prefab.rotation.spec_yaw(),
            0 <= i <= num_steps,
            steps@.len() == i,
            forall|j: int|
                0 <= j < i ==> is_stair_step(
                    #[trigger] steps@[j],
                    *prefab,
                    tile_size as int,
                    material@,
                    j,
                ),
        decreases num_steps - i,
    {
        let k: i128 = 2 * (i as i128) + 1;
        proof {
            lemma_mul_div_bound((2 * i + 1) as int, height_diff as int, (2 * num_steps) as int);
            lemma_mul_div_bound((2 * i + 1) as int, total_length as int, (2 * num_steps) as int);
            crate::num::lemma_mul_abs_bound(k as int, height_diff as int, 4_000_000_002, 2_000_000_000);
            crate::num::lemma_mul_abs_bound(k as int, total_length as int, 4_000_000_002, 4_294_967_295_000_000);
        }
        let rise_part: i64 = ((k * (height_diff as i128)) / (2 * (num_steps as i128))) as i64;
        let run_part: i64 = ((k * (total_length as i128)) / (2 * (num_steps as i128))) as i64;
        let center_y = prefab.from_elevation + rise_part;
        let off = run_part - total_length / 2;
        let (dx, dz): (i64, i64) = match prefab.rotation {
            Orientation::Deg0 => (0, off),
            Orientation::Deg90 => (off, 0),
            Orientation::Deg180 => (0, -off),
            Orientation::Deg270 => (-off, 0),
        };
        steps.push(
            Placement {
                kind: PlacementKind::StairStep,
                material: String::from_str(material),
                center: WorldVec { x: base_x + dx, y: center_y, z: base_z + dz },
                size: WorldVec { x: tile_size, y: step_rise, z: step_depth },
                yaw_degrees: yaw,
            },
        );
        i += 1;
    }
    steps
}

/// Generate the placements of one prefab record.
pub fn spawn_prefab(prefab: &PrefabInstance, tile_size: i64, material: &str) -> (ps: Vec<Placement>)
    requires
        prefab.wf(),
        0 < tile_size <= MAX_TILE_SIZE_MILLI,
    ensures
        prefab.kind == PrefabKind::StepStairs ==> {
            &&& ps@.len() == spec_num_steps(
                prefab.from_elevation as int,
                prefab.to_elevation as int,
                MAX_STEP_RISE_MILLI as int,
            )
            &&& forall|i: int|
                0 <= i < ps@.len() ==> is_stair_step(
                    #[trigger] ps@[i],
                    *prefab,
                    tile_size as int,
                    material@,
                    i,
                )
        },
{
    match prefab.kind {
        PrefabKind::StepStairs => spawn_step_stairs(prefab, tile_size, material),
    }
}

} // verus!
