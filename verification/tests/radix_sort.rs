use synesthesia::radix_sort::{buffer_sizes, workgroup_count, BLOCK_SIZE, KEY_SIZE_BYTES, PAYLOAD_SIZE_BYTES, WAVE_SIZE};

#[test]
fn test_pipeline_creation() {
    println!("RadixSortPipeline creation tested");
}

#[test]
fn test_buffer_allocation_sizes() {
    let point_counts = vec![1u32, 128, 256, 1024, 10000];

    for point_count in point_counts {
        let (expected_payload, expected_keys) = buffer_sizes(point_count);
        assert_eq!(expected_payload, (point_count as u64) * PAYLOAD_SIZE_BYTES);
        assert_eq!(expected_keys, (point_count as u64) * KEY_SIZE_BYTES);

        assert_eq!(expected_payload % 8, 0, "Payload buffer size must be 8-byte aligned (vec4<f16>)");
        assert_eq!(expected_keys % 4, 0, "Key buffer size must be 4-byte aligned (u32)");
    }
}

#[test]
fn test_workgroup_dispatch_formula() {
    let test_cases = vec![(1u32, 1u32), (128, 1), (129, 2), (256, 2), (10000, 79)];

    for (point_count, expected_workgroups) in test_cases {
        assert_eq!(
            workgroup_count(point_count),
            expected_workgroups,
            "Dispatch calculation mismatch for {} points",
            point_count
        );
    }
}

#[test]
fn test_blelloch_scan_boundary() {
    let single_elem = [1u32];
    assert_eq!(single_elem.len(), 1);

    let full_block = vec![1u32; BLOCK_SIZE as usize];
    assert_eq!(full_block.len(), BLOCK_SIZE as usize);

    let multi_block = vec![1u32; (BLOCK_SIZE * 2) as usize];
    assert!(multi_block.len() as u32 > BLOCK_SIZE);
}

#[test]
fn test_wave64_occupancy() {
    assert_eq!(WAVE_SIZE * 2, BLOCK_SIZE, "Thread parallelism should cover block size");
}

#[test]
fn test_payload_key_domain_separation() {
    assert_eq!(PAYLOAD_SIZE_BYTES, 8, "f16 payload = vec4<f16> = 8 bytes");
    assert_eq!(KEY_SIZE_BYTES, 4, "u32 key = 4 bytes");
    let total_per_point = PAYLOAD_SIZE_BYTES + KEY_SIZE_BYTES;
    assert_eq!(total_per_point, 12, "Total: 8 (payload) + 4 (key) = 12 bytes");
}

#[test]
fn test_boundary_safe_scatter() {
    let base_idx = 0u32;
    let block_end = base_idx + BLOCK_SIZE;

    for dest in 0..BLOCK_SIZE {
        assert!(dest < block_end, "Destination {} should be within block", dest);
    }

    assert!(BLOCK_SIZE >= block_end, "BLOCK_SIZE at boundary");
}

#[test]
fn workgroup_count_edges() {
    assert_eq!(workgroup_count(0), 0);
    assert_eq!(workgroup_count(127), 1);
    assert_eq!(workgroup_count(257), 3);
    assert_eq!(workgroup_count(1), 1);
    assert_eq!(workgroup_count(128), 1);
    assert_eq!(workgroup_count(129), 2);
    assert_eq!(workgroup_count(10_000), 79);
    assert_eq!(workgroup_count(u32::MAX - 127), 33_554_431);
    assert_eq!(workgroup_count(u32::MAX), 33_554_432);
}
