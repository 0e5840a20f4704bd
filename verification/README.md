# synesthesia

Verified core of the Synesthesia sensor-fusion workstation, written in Verus.

- `src/` — the library, every function proved against its contract:
  streaming ring buffer, V-buffer slot arithmetic and window extraction,
  voxel grids and room shells, latency monitors and per-stage statistics,
  pipeline synchronisation, the forensic journal (memos, console log,
  manual recording), the SDR capture-loop decisions, the radio tuner
  controls, RTL-SDR argument and status handling, radix-sort dispatch sizes,
  the replay buffer and schedule of online training, the frame bookkeeping
  of the processing loop, and the payload codec of the embedding store.
- `tests/` — tests run against the compiled library.
- `app/` — the host side: shared state behind locks and atomics, the SDR
  capture thread and FFT, clock-drift correction, JSON records, the tuner's
  terminal UI, the training thread, the Qdrant calls, and the
  floating-point physics around the integer grids.

Time, in the library, is integer nanoseconds (or milliseconds where the
configuration says so); frequencies are whole hertz.
