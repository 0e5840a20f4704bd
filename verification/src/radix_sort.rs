//! Dispatch arithmetic of the GPU radix sort used for Gaussian-splatting
//! spatial binning (Wave64 Blelloch scan, f16 payloads with u32 keys).

use vstd::prelude::*;

verus! {

/// Payload per point: [azimuth, elevation, frequency, intensity] as vec4<f16>.
pub const PAYLOAD_SIZE_BYTES: u64 = 8;

/// Key per point: grid hash as u32.
pub const KEY_SIZE_BYTES: u64 = 4;

/// Blelloch scan block size: elements processed per workgroup.
pub const BLOCK_SIZE: u32 = 128;

/// Wave64 workgroup size: threads per workgroup, two elements each.
pub const WAVE_SIZE: u32 = 64;

/// Number of workgroups to dispatch for `point_count` points: the integer
/// ceiling of `point_count / BLOCK_SIZE`, for every count.
pub fn workgroup_count(point_count: u32) -> (r: u32)
    ensures
        r == (point_count + BLOCK_SIZE - 1) / (BLOCK_SIZE as int),
        r * BLOCK_SIZE >= point_count,
        r == 0 || (r - 1) * BLOCK_SIZE < point_count,
{
    let q = point_count / BLOCK_SIZE;
    let r = if point_count % BLOCK_SIZE == 0 { q } else { q + 1 };
    assert(r == (point_count + 127) / 128 && r * 128 >= point_count && (r == 0 || (r - 1) * 128 < point_count))
        by (nonlinear_arith)
        requires
            q == point_count / 128,
            r == (if point_count % 128 == 0 { q as int } else { q + 1 }),
            0 <= point_count,
    {
        vstd::arithmetic::div_mod::lemma_fundamental_div_mod(point_count as int, 128);
        vstd::arithmetic::div_mod::lemma_fundamental_div_mod(point_count + 127, 128);
    }
    r
}

/// Sizes of the payload and key buffers for `point_count` points, in bytes.
pub fn buffer_sizes(point_count: u32) -> (r: (u64, u64))
    ensures
        r.0 == point_count * PAYLOAD_SIZE_BYTES,
        r.1 == point_count * KEY_SIZE_BYTES,
        r.0 % 8 == 0,
        r.1 % 4 == 0,
{
    let payload_size_bytes = (point_count as u64) * PAYLOAD_SIZE_BYTES;
    let key_size_bytes = (point_count as u64) * KEY_SIZE_BYTES;
    (payload_size_bytes, key_size_bytes)
}

} // verus!
