//! Verified core logic of the Synesthesia sensor-fusion workstation:
//! streaming buffers, recording and mode state machines, radio-device
//! bookkeeping, latency statistics, GPU dispatch arithmetic, and the
//! frame and training-loop bookkeeping.

pub mod ring_buffer;
pub mod state;
pub mod memo;
pub mod text;
pub mod twister;
pub mod tuner;
pub mod radio;
pub mod metrics;
pub mod config;
pub mod radix_sort;
pub mod vbuffer;
pub mod voxel;
pub mod sync;
pub mod latency;
pub mod journal;
pub mod sdr;
pub mod pipeline;
pub mod mesh_lod;
pub mod trainer;
pub mod processing;
pub mod vector;
pub mod utc;
