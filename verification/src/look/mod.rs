//! The rendering look's pure decisions: quality presets merged with debug
//! knobs, halo tags, and the pipeline warm-up gate.
pub mod halo;
pub mod settings;
pub mod warmup;
