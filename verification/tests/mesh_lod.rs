use synesthesia::mesh_lod::{create_lod_levels, select_lod_for_screen_size, MeshLodLevel};

#[test]
fn test_lod_levels_creation() {
    let levels = create_lod_levels();
    assert_eq!(levels.len(), 28);
}

#[test]
fn test_lod_levels_sequential() {
    let levels = create_lod_levels();
    for (idx, level) in levels.iter().enumerate() {
        assert_eq!(level.level, idx as u32);
    }
}

#[test]
fn test_lod_vertex_counts_decreasing() {
    let levels = create_lod_levels();
    let mut prev = u32::MAX;
    for level in levels {
        assert!(level.vertex_count <= prev);
        prev = level.vertex_count;
    }
}

#[test]
fn test_lod_selection_high_detail() {
    let levels = create_lod_levels();
    let lod = select_lod_for_screen_size(3000.0f32 as u32, &levels);
    assert!(lod < 7);
}

#[test]
fn test_lod_selection_low_detail() {
    let levels = create_lod_levels();
    let lod = select_lod_for_screen_size(50.0f32 as u32, &levels);
    assert!(lod >= 21);
}

#[test]
fn lod_table_values() {
    let levels = create_lod_levels();
    assert_eq!(levels[0], MeshLodLevel::new(0, 1024, 341, 2048));
    assert_eq!(levels[6], MeshLodLevel::new(6, 916, 305, 2048));
    assert_eq!(levels[7], MeshLodLevel::new(7, 896, 298, 512));
    assert_eq!(levels[14], MeshLodLevel::new(14, 512, 170, 128));
    assert_eq!(levels[27], MeshLodLevel::new(27, 94, 31, 64));
    assert_eq!(select_lod_for_screen_size(2048, &levels), 0);
    assert_eq!(select_lod_for_screen_size(2047, &levels), 7);
    assert_eq!(select_lod_for_screen_size(512, &levels), 7);
    assert_eq!(select_lod_for_screen_size(128, &levels), 14);
    assert_eq!(select_lod_for_screen_size(127, &levels), 27);
}
