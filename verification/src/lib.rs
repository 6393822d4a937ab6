//! Sleep-session recording: settings validation, the recording workflow,
//! same-day collision handling and the derived sleep metrics.

pub mod calendar;
pub mod clock;
pub mod config;
pub mod export;
pub mod metrics;
pub mod recorder;
pub mod scale;
pub mod session;
pub mod store;
pub mod text;
pub mod timestamp;
pub mod workflow;
