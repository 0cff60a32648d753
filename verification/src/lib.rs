//! Verified core of the Pieced arena game: the deterministic random stream,
//! the pipeline warm-up gate, debug knob parsing and look resolution, halo
//! tags, frame pacing and the nearest-rank percentile, menu state and settings, the build
//! grid vocabulary, and the scenario runner's bookkeeping (command line, exit
//! countdown, the gallery's views and schedule, the perf session's script
//! cycle and piece cleanup, the steps of the time-to-kill, HUD and effects
//! sessions, the sky-band comparison).
pub mod look;
pub mod menu;
pub mod perf_knobs;
pub mod render;
pub mod rng;
pub mod scenario;
pub mod shared;
pub mod telemetry;
pub mod text;
