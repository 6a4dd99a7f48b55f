//! Real-time tone synthesis and beat scheduling.

pub mod common;
pub mod control;
pub mod cyclic;
pub mod engine;
pub mod music;
pub mod scheduler;
pub mod std_specs;
pub mod waveform;
