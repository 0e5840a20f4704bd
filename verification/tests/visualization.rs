use synesthesia::vbuffer::{VBufferMeta, FFT_SIZE, FREQ_BINS, V_BUF_BYTES, V_BUF_CELLS, V_DEPTH, V_FREQ_BINS};
use synesthesia::voxel::{lattice_points, VoxelGrid};

#[test]
fn test_stft_constants() {
    assert_eq!(FFT_SIZE, 512);
    assert_eq!(FREQ_BINS, 512);
}

#[test]
fn test_probe_grid_creation() {
    let probes = lattice_points(8, 8, 8);
    assert_eq!(probes.len(), 512);
    assert_eq!(probes[0], (0, 0, 0));
    assert_eq!(probes[1], (0, 0, 1));
    assert_eq!(probes[8], (0, 1, 0));
    assert_eq!(probes[64], (1, 0, 0));
    assert_eq!(probes[511], (7, 7, 7));
}

#[test]
fn lattice_points_of_uneven_grid() {
    let pts = lattice_points(2, 3, 1);
    assert_eq!(pts, vec![(0, 0, 0), (0, 1, 0), (0, 2, 0), (1, 0, 0), (1, 1, 0), (1, 2, 0)]);
    assert!(lattice_points(0, 4, 4).is_empty());
}

#[test]
fn voxel_grid_set_get_and_index() {
    let mut grid: VoxelGrid<u32> = VoxelGrid::with_dimensions(4, 3, 2);
    assert_eq!(grid.dimensions(), (4, 3, 2));
    assert_eq!(grid.index(1, 2, 1), 1 + 2 * 4 + 1 * 4 * 3);
    assert_eq!(grid.get(3, 2, 1), 0);
    grid.set(3, 2, 1, 42);
    assert_eq!(grid.get(3, 2, 1), 42);
    assert_eq!(grid.get(0, 0, 0), 0);
    assert_eq!(grid.get_ref(3, 2, 1), Some(&42));
    assert_eq!(grid.get_ref(4, 0, 0), None);
    let cube: VoxelGrid<u8> = VoxelGrid::new(5);
    assert_eq!(cube.dimensions(), (5, 5, 5));
    assert_eq!(cube.index(4, 4, 4), 124);
}

#[test]
fn vbuffer_geometry() {
    assert_eq!(V_DEPTH, 512);
    assert_eq!(V_FREQ_BINS, 512);
    assert_eq!(V_BUF_CELLS, 512 * 512);
    assert_eq!(V_BUF_BYTES, 2_097_152);
}

#[test]
fn vbuffer_slots_wrap_and_window() {
    let mut meta = VBufferMeta::new();
    assert_eq!(meta.write_slot(), 0);
    assert_eq!(meta.context_window(10), (0, 0));
    assert!(!meta.ready(1));
    for _ in 0..515 {
        meta.advance();
    }
    assert_eq!(meta.available_frames(), 515);
    assert_eq!(meta.write_slot(), 3);
    assert_eq!(meta.write_offset(), 3 * 512 * 8);
    let pc = meta.push_const(1000);
    assert_eq!(pc.write_version, 2);
    assert_eq!(pc.context_len, 512);
    assert_eq!(pc.freq_bins, 512);
    assert_eq!(pc.depth, 512);
    assert_eq!(meta.context_window(64), (64, 451));
    assert_eq!(meta.context_window(2000), (512, 3));
    assert!(meta.has_enough_frames(515));
    assert!(!meta.has_enough_frames(516));
    assert_eq!(VBufferMeta::slot_of(1025), 1);
}

use synesthesia::state::{update_waterfall, WATERFALL_CELLS};
use synesthesia::vbuffer::extract_window_from_vbuf_snapshot;

#[test]
fn waterfall_copies_full_frames_only() {
    let mut display = vec![7u32; 4];
    update_waterfall(&mut display, &[1, 2, 3]);
    assert_eq!(display, vec![7, 7, 7, 7]);
    let frame: Vec<u32> = (0..(WATERFALL_CELLS as u32 + 10)).collect();
    update_waterfall(&mut display, &frame);
    assert_eq!(display.len(), 65536);
    assert_eq!(display[0], 0);
    assert_eq!(display[65535], 65535);
}

#[test]
fn window_extraction_from_snapshot() {
    // 4 slots; slot s holds row [10*s, 10*s+1, 10*s+2]
    let snapshot: Vec<Vec<u32>> = (0..4u32).map(|s| vec![10 * s, 10 * s + 1, 10 * s + 2]).collect();
    // newest frame is version 5 (slot 1); take 3 frames, rows of 2 bins, window of 4 rows
    let w = extract_window_from_vbuf_snapshot(&snapshot, 5, 3, 4, 2, 99);
    assert_eq!(w.len(), 8);
    // rows: version 3 (slot 3), version 4 (slot 0), version 5 (slot 1), then fill
    assert_eq!(w, vec![30, 31, 0, 1, 10, 11, 99, 99]);
    // only version 0 and 1 exist yet: the oldest rows stay empty
    let young = extract_window_from_vbuf_snapshot(&snapshot, 1, 3, 3, 2, 99);
    assert_eq!(young, vec![99, 99, 0, 1, 10, 11]);
}

#[test]
fn window_slots_never_alias() {
    let start = 1_000_003u64;
    let mut seen = std::collections::HashSet::new();
    for i in 0..V_DEPTH as u64 {
        assert!(seen.insert(VBufferMeta::slot_of(start + i)));
    }
}

#[test]
fn voxel_indices_are_distinct_and_in_range() {
    let g: VoxelGrid<u8> = VoxelGrid::with_dimensions(3, 4, 5);
    let mut seen = std::collections::HashSet::new();
    for z in 0..5 {
        for y in 0..4 {
            for x in 0..3 {
                let i = g.index(x, y, z);
                assert!(i < 60);
                assert!(seen.insert(i));
            }
        }
    }
}
