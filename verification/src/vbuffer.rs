//! Versioned GPU buffer (V-buffer) bookkeeping.
//!
//! A V-buffer is an append-only storage buffer of `V_DEPTH` frame slots:
//! the write head is a monotonically increasing version, and the frame at
//! version `v` lives in slot `v % V_DEPTH`. Any window of the last `T`
//! frames therefore maps to a contiguous (possibly wrapped) run of slots.

use vstd::prelude::*;

verus! {

/// Capacity in frames (a power of 2).
pub const V_DEPTH: usize = 512;
/// Frequency bins per frame.
pub const V_FREQ_BINS: usize = 512;
/// Cells in the whole buffer.
pub const V_BUF_CELLS: usize = V_DEPTH * V_FREQ_BINS;
/// Bytes in the whole buffer (vec4<f16> is 8 bytes).
pub const V_BUF_BYTES: u64 = 2097152;
/// Bytes per cell (vec4<f16>).
pub const V_CELL_BYTES: usize = 8;

/// Number of IQ samples per FFT frame of the STFT pass.
pub const FFT_SIZE: usize = 512;
/// Output frequency bins of the STFT pass.
pub const FREQ_BINS: usize = 512;

/// Push-constant block passed to every shader that reads the V-buffer.
#[derive(Debug, Clone, Copy)]
pub struct VBufferPushConst {
    /// Slot of the most recently written frame.
    pub write_version: u32,
    /// How many frames to read back.
    pub context_len: u32,
    pub freq_bins: u32,
    pub depth: u32,
}

/// CPU-side metadata of a V-buffer.
pub struct VBufferMeta {
    /// Monotonically increasing write counter. Never resets.
    pub version: u64,
}

impl VBufferMeta {
    /// A V-buffer with nothing written yet.
    pub fn new() -> (r: Self)
        ensures
            r.version == 0,
    {
        VBufferMeta { version: 0 }
    }

    /// Slot that the next frame is written to.
    pub fn write_slot(&self) -> (r: usize)
        ensures
            r == self.version % (V_DEPTH as u64),
            r < V_DEPTH,
    {
        (self.version % (V_DEPTH as u64)) as usize
    }

    /// Byte offset in the GPU buffer of the next frame's slot.
    pub fn write_offset(&self) -> (r: u64)
        ensures
            r == (self.version % (V_DEPTH as u64)) * V_FREQ_BINS * V_CELL_BYTES,
    {
        let slot = self.write_slot();
        (slot * V_FREQ_BINS * V_CELL_BYTES) as u64
    }

    /// Record that one more frame has been written.
    pub fn advance(&mut self)
        requires
            old(self).version < u64::MAX,
        ensures
            final(self).version == old(self).version + 1,
    {
        self.version += 1;
    }

    /// Build the push-constant block for shaders reading `context_len`
    /// frames back (at most the whole depth).
    pub fn push_const(&self, context_len: u32) -> (r: VBufferPushConst)
        ensures
            r.write_version == (if self.version == 0 { 0 } else { (self.version - 1) % (V_DEPTH as int) }),
            r.context_len == (if context_len < V_DEPTH { context_len } else { V_DEPTH as u32 }),
            r.freq_bins == V_FREQ_BINS,
            r.depth == V_DEPTH,
    {
        let last = if self.version > 0 { self.version - 1 } else { 0 };
        VBufferPushConst {
            write_version: (last % (V_DEPTH as u64)) as u32,
            context_len: if context_len < V_DEPTH as u32 { context_len } else { V_DEPTH as u32 },
            freq_bins: V_FREQ_BINS as u32,
            depth: V_DEPTH as u32,
        }
    }

    /// Number of frames pushed so far.
    pub fn available_frames(&self) -> (r: u64)
        ensures
            r == self.version,
    {
        self.version
    }

    /// True once enough frames have been pushed for a full context window.
    pub fn ready(&self, context_len: u32) -> (r: bool)
        ensures
            r == (self.version >= context_len),
    {
        self.version >= context_len as u64
    }

    /// Does the buffer hold at least `required` frames?
    pub fn has_enough_frames(&self, required: usize) -> (r: bool)
        ensures
            r == (self.version >= required),
    {
        self.version >= required as u64
    }

    /// The window of the most recent frames to read back when `n_frames`
    /// are asked for: how many frames (never more than were written, nor
    /// than the depth) and the version of the oldest one.
    pub fn context_window(&self, n_frames: usize) -> (r: (usize, u64))
        ensures
            r.0 == min3(n_frames as int, self.version as int, V_DEPTH as int),
            r.0 == 0 ==> r.1 == 0,
            r.0 > 0 ==> r.1 == self.version - r.0,
            r.1 + r.0 <= self.version,
    {
        let available: usize = if self.version < V_DEPTH as u64 { self.version as usize } else { V_DEPTH };
        let n = if n_frames < available { n_frames } else { available };
        if n == 0 {
            return (0, 0);
        }
        (n, self.version - n as u64)
    }

    /// Slot holding the frame written at `version`.
    pub fn slot_of(version: u64) -> (r: usize)
        ensures
            r == version % (V_DEPTH as u64),
            r < V_DEPTH,
    {
        (version % (V_DEPTH as u64)) as usize
    }
}

/// Cell (i, j) of a training window of `t` frames × `f` bins read back
/// from a V-buffer snapshot of `depth` slots whose newest frame has version
/// `write_version`: row i holds the frame `t - 1 - i` versions back (oldest
/// first), bin j of it; frames before version 0, rows from `t` on and bins
/// from `f` on hold `fill`.
pub open spec fn window_cell<T>(
    snapshot: Seq<Vec<T>>,
    write_version: u64,
    t: nat,
    f: nat,
    fill: T,
    i: nat,
    j: nat,
) -> T {
    if i < t && j < f && write_version >= t - 1 - i {
        snapshot[((write_version - (t - 1 - i)) % (snapshot.len() as int)) as int]@[j as int]
    } else {
        fill
    }
}

/// Flatten the most recent `context_len` frames (at most `max_context`)
/// of a V-buffer snapshot into a training window of `max_context` rows of
/// `input_bins` cells, oldest frame first; only the first
/// `min(V_FREQ_BINS, input_bins)` bins of each row are copied.
pub fn extract_window_from_vbuf_snapshot<T: Copy>(
    snapshot: &Vec<Vec<T>>,
    write_version: u64,
    context_len: usize,
    max_context: usize,
    input_bins: usize,
    fill: T,
) -> (r: Vec<T>)
    requires
        snapshot@.len() > 0,
        max_context * input_bins <= usize::MAX,
        forall|s: int|
            0 <= s < snapshot@.len() ==> (#[trigger] snapshot@[s])@.len() >= (if V_FREQ_BINS < input_bins {
                V_FREQ_BINS as int
            } else {
                input_bins as int
            }),
    ensures
        r@.len() == max_context * input_bins,
        forall|k: int|
            0 <= k < r@.len() ==> #[trigger] r@[k] == window_cell(
                snapshot@,
                write_version,
                (if context_len < max_context { context_len } else { max_context }) as nat,
                (if V_FREQ_BINS < input_bins { V_FREQ_BINS } else { input_bins }) as nat,
                fill,
                (k / input_bins as int) as nat,
                (k % input_bins as int) as nat,
            ),
{
    let depth = snapshot.len();
    let f = if V_FREQ_BINS < input_bins { V_FREQ_BINS } else { input_bins };
    let t = if context_len < max_context { context_len } else { max_context };
    let total = max_context * input_bins;
    let mut window: Vec<T> = Vec::new();
    for k in 0..total
        invariant
            window@.len() == k,
            forall|q: int| 0 <= q < k ==> #[trigger] window@[q] == fill,
    {
        window.push(fill);
    }
    for i in 0..t
        invariant
            t <= max_context,
            f <= input_bins,
            depth == snapshot@.len(),
            depth > 0,
            total == max_context * input_bins,
            window@.len() == total,
            t == (if context_len < max_context { context_len } else { max_context }),
            f == (if V_FREQ_BINS < input_bins { V_FREQ_BINS } else { input_bins }),
            forall|s: int| 0 <= s < snapshot@.len() ==> (#[trigger] snapshot@[s])@.len() >= f,
            forall|k: int|
                0 <= k < total ==> #[trigger] window@[k] == (if k / input_bins as int >= i {
                    fill
                } else {
                    window_cell(snapshot@, write_version, t as nat, f as nat, fill, (k / input_bins as int) as nat, (
                    k % input_bins as int) as nat)
                }),
    {
        let frames_back = (t - 1 - i) as u64;
        if write_version >= frames_back && f > 0 {
            let version = write_version - frames_back;
            let slot = (version % (depth as u64)) as usize;
            let row = &snapshot[slot];
            assert(i * input_bins + input_bins <= total) by (nonlinear_arith)
                requires
                    i < max_context,
                    total == max_context * input_bins,
            ;
            let dst_off = i * input_bins;
            for j in 0..f
                invariant
                    i < t,
                    t <= max_context,
                    f <= input_bins,
                    input_bins > 0,
                    dst_off == i * input_bins,
                    dst_off + input_bins <= total,
                    window@.len() == total,
                    row@.len() >= f,
                    *row == snapshot@[slot as int],
                    slot == (version % (depth as u64)),
                    version == write_version - (t - 1 - i),
                    depth == snapshot@.len(),
                    forall|k: int|
                        0 <= k < total ==> #[trigger] window@[k] == (if k / input_bins as int > i || (k
                            / input_bins as int == i && k % input_bins as int >= j) {
                            fill
                        } else {
                            window_cell(
                                snapshot@,
                                write_version,
                                t as nat,
                                f as nat,
                                fill,
                                (k / input_bins as int) as nat,
                                (k % input_bins as int) as nat,
                            )
                        }),
            {
                let ghost before = window@;
                let p = dst_off + j;
                proof {
                    vstd::arithmetic::div_mod::lemma_fundamental_div_mod_converse(
                        p as int,
                        input_bins as int,
                        i as int,
                        j as int,
                    );
                }
                window.set(p, row[j]);
                proof {
                    assert forall|k: int|
                        0 <= k < total implies #[trigger] window@[k] == (if k / input_bins as int > i || (k
                            / input_bins as int == i && k % input_bins as int >= j + 1) {
                            fill
                        } else {
                            window_cell(
                                snapshot@,
                                write_version,
                                t as nat,
                                f as nat,
                                fill,
                                (k / input_bins as int) as nat,
                                (k % input_bins as int) as nat,
                            )
                        }) by {
                        vstd::arithmetic::div_mod::lemma_fundamental_div_mod(k, input_bins as int);
                        vstd::arithmetic::mul::lemma_mul_is_commutative(i as int, input_bins as int);
                        if k != p {
                            assert(window@[k] == before[k]);
                        } else {
                            assert(k / input_bins as int == i && k % input_bins as int == j);
                            assert(window@[k] == row@[j as int]);
                        }
                    }
                }
            }
        }
        proof {
            assert forall|k: int|
                0 <= k < total implies #[trigger] window@[k] == (if k / input_bins as int >= i + 1 {
                    fill
                } else {
                    window_cell(snapshot@, write_version, t as nat, f as nat, fill, (k / input_bins as int) as nat, (
                    k % input_bins as int) as nat)
                }) by {
                if input_bins > 0 {
                    vstd::arithmetic::div_mod::lemma_fundamental_div_mod(k, input_bins as int);
                }
            }
        }
    }
    assert forall|k: int|
        0 <= k < window@.len() implies #[trigger] window@[k] == window_cell(
            snapshot@,
            write_version,
            t as nat,
            f as nat,
            fill,
            (k / input_bins as int) as nat,
            (k % input_bins as int) as nat,
        ) by {
        if input_bins > 0 {
            vstd::arithmetic::div_mod::lemma_fundamental_div_mod(k, input_bins as int);
            assert(k / input_bins as int >= t ==> (k / input_bins as int) as nat >= t);
        }
    }
    window
}

/// Smallest of three integers.
pub open spec fn min3(a: int, b: int, c: int) -> int {
    if a <= b && a <= c {
        a
    } else if b <= c {
        b
    } else {
        c
    }
}

/// The frames of any window returned by `context_window` occupy distinct
/// slots: a V-buffer never aliases data inside a window.
pub proof fn law_window_slots_distinct(start: u64, n: nat, i: nat, j: nat)
    requires
        n <= V_DEPTH,
        i < n,
        j < n,
        i != j,
        start + n <= u64::MAX,
    ensures
        (start + i) % (V_DEPTH as int) != (start + j) % (V_DEPTH as int),
{
    let a = (start + i) as int;
    let b = (start + j) as int;
    if a % 512 == b % 512 {
        vstd::arithmetic::div_mod::lemma_fundamental_div_mod(a, 512);
        vstd::arithmetic::div_mod::lemma_fundamental_div_mod(b, 512);
        assert(false) by (nonlinear_arith)
            requires
                a == 512 * (a / 512) + a % 512,
                b == 512 * (b / 512) + b % 512,
                a % 512 == b % 512,
                a != b,
                -512 < a - b < 512,
        ;
    }
}

} // verus!
