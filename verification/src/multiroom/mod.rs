//! Multi-room audio-frame fan-out.

pub mod aggregator;
pub mod asound_dropin;
pub mod percentile;
pub mod plugin;
pub mod profile;
pub mod receiver;
pub mod source;
