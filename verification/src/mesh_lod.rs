//! Level-of-detail table of the attack-source mesh renderer: 28 levels of
//! decreasing vertex count, and the level chosen for a projected size.

use vstd::prelude::*;

verus! {

/// Number of LOD levels.
pub const TOTAL_LOD_LEVELS: usize = 28;
/// Most attack sources drawn at once.
pub const MAX_ATTACK_SOURCES: usize = 32;
/// Screen coverage threshold of levels 0–6 (pixels).
pub const COVERAGE_THRESHOLD_LEVEL_0_6: u32 = 2048;
/// Screen coverage threshold of levels 7–13 (pixels).
pub const COVERAGE_THRESHOLD_LEVEL_7_13: u32 = 512;
/// Screen coverage threshold of levels 14–20 (pixels).
pub const COVERAGE_THRESHOLD_LEVEL_14_20: u32 = 128;
/// Screen coverage threshold of levels 21–27 (pixels).
pub const COVERAGE_THRESHOLD_LEVEL_21_27: u32 = 64;

/// One level of detail.
#[derive(Debug, Clone, Copy, PartialEq, Eq, Structural)]
pub struct MeshLodLevel {
    /// LOD level number (0–27, 0 = highest detail)
    pub level: u32,
    /// Number of vertices in this LOD level
    pub vertex_count: u32,
    /// Number of triangles in this LOD level
    pub triangle_count: u32,
    /// Projected size (pixels) from which this level is used
    pub screen_coverage_pixels: u32,
}

impl MeshLodLevel {
    pub fn new(level: u32, vertex_count: u32, triangle_count: u32, screen_coverage: u32) -> (r: Self)
        ensures
            r == (MeshLodLevel { level, vertex_count, triangle_count, screen_coverage_pixels: screen_coverage }),
    {
        MeshLodLevel { level, vertex_count, triangle_count, screen_coverage_pixels: screen_coverage }
    }
}

/// Vertex count of level `l`: 1024 falling by 18 per level over levels 0–6,
/// 896 by 54 over 7–13, 512 by 36 over 14–20, 256 by 27 over 21–27.
pub open spec fn lod_vertex_count(l: nat) -> nat {
    if l < 7 {
        (1024 - l * 18) as nat
    } else if l < 14 {
        (896 - (l - 7) * 54) as nat
    } else if l < 21 {
        (512 - (l - 14) * 36) as nat
    } else {
        (256 - (l - 21) * 27) as nat
    }
}

/// Screen coverage threshold of level `l`.
pub open spec fn lod_coverage(l: nat) -> nat {
    if l < 7 {
        2048
    } else if l < 14 {
        512
    } else if l < 21 {
        128
    } else {
        64
    }
}

/// Level `l` of the table.
pub open spec fn lod_level(l: nat) -> MeshLodLevel {
    let v = lod_vertex_count(l);
    MeshLodLevel {
        level: l as u32,
        vertex_count: v as u32,
        triangle_count: (if v / 3 > 21 { v / 3 } else { 21 }) as u32,
        screen_coverage_pixels: lod_coverage(l) as u32,
    }
}

/// The 28 levels of detail, level 0 first.
pub fn create_lod_levels() -> (r: Vec<MeshLodLevel>)
    ensures
        r@.len() == TOTAL_LOD_LEVELS,
        forall|i: int| 0 <= i < r@.len() ==> #[trigger] r@[i] == lod_level(i as nat),
        // detail never increases from one level to the next
        forall|i: int, j: int| 0 <= i <= j < r@.len() ==> #[trigger] r@[i].vertex_count >= #[trigger] r@[j].vertex_count,
{
    let mut levels: Vec<MeshLodLevel> = Vec::new();
    for level in 0..TOTAL_LOD_LEVELS
        invariant
            levels@.len() == level,
            forall|i: int| 0 <= i < levels@.len() ==> #[trigger] levels@[i] == lod_level(i as nat),
    {
        let l = level as u32;
        let vertex_count: u32 = if level < 7 {
            1024 - l * 18
        } else if level < 14 {
            896 - (l - 7) * 54
        } else if level < 21 {
            512 - (l - 14) * 36
        } else {
            256 - (l - 21) * 27
        };
        let third = vertex_count / 3;
        let triangle_count = if third > 21 { third } else { 21 };
        let coverage = if level < 7 {
            COVERAGE_THRESHOLD_LEVEL_0_6
        } else if level < 14 {
            COVERAGE_THRESHOLD_LEVEL_7_13
        } else if level < 21 {
            COVERAGE_THRESHOLD_LEVEL_14_20
        } else {
            COVERAGE_THRESHOLD_LEVEL_21_27
        };
        levels.push(MeshLodLevel::new(l, vertex_count, triangle_count, coverage));
    }
    assert forall|i: int, j: int| 0 <= i <= j < levels@.len() implies #[trigger] levels@[i].vertex_count
        >= #[trigger] levels@[j].vertex_count by {
        assert(levels@[i] == lod_level(i as nat));
        assert(levels@[j] == lod_level(j as nat));
    }
    levels
}

/// Level drawn at a projected size of `px` pixels.
pub open spec fn lod_for_size(px: nat) -> nat {
    if px >= 2048 {
        0
    } else if px >= 512 {
        7
    } else if px >= 128 {
        14
    } else {
        27
    }
}

/// The table's coverage thresholds go in four bands of seven levels: 2048
/// px for levels 0–6, 512 for 7–13, 128 for 14–20 and 64 for 21–27. The
/// threshold is the same across a band and falls from band to band, and
/// the selection switches to the first level of each of the three upper
/// bands exactly at that band's threshold.
pub proof fn law_lod_coverage_bands()
    ensures
        forall|l: nat| l < 7 ==> #[trigger] lod_coverage(l) == 2048,
        forall|l: nat| 7 <= l < 14 ==> #[trigger] lod_coverage(l) == 512,
        forall|l: nat| 14 <= l < 21 ==> #[trigger] lod_coverage(l) == 128,
        forall|l: nat| 21 <= l < 28 ==> #[trigger] lod_coverage(l) == 64,
        forall|l: nat, m: nat|
            l < 28 && m < 28 && l / 7 == m / 7 ==> #[trigger] lod_coverage(l) == #[trigger] lod_coverage(m),
        forall|l: nat, m: nat|
            l < 28 && m < 28 && l / 7 < m / 7 ==> #[trigger] lod_coverage(l) > #[trigger] lod_coverage(m),
        forall|l: nat|
            l < 21 ==> lod_for_size(#[trigger] lod_coverage(l)) == 7 * (l / 7) && lod_for_size(
                (lod_coverage(l) - 1) as nat,
            ) != 7 * (l / 7),
{
}

/// Level to draw at a projected size of `screen_size_px` pixels: 0 from
/// 2048 px, 7 from 512 px, 14 from 128 px, 27 below.
pub fn select_lod_for_screen_size(screen_size_px: u32, _lod_levels: &[MeshLodLevel]) -> (r: u32)
    ensures
        r == lod_for_size(screen_size_px as nat),
        r == (if screen_size_px >= 2048 {
            0u32
        } else if screen_size_px >= 512 {
            7u32
        } else if screen_size_px >= 128 {
            14u32
        } else {
            27u32
        }),
{
    if screen_size_px >= 2048 {
        0
    } else if screen_size_px >= 512 {
        7
    } else if screen_size_px >= 128 {
        14
    } else {
        27
    }
}

} // verus!
