//! Frame production for a live system-monitoring dashboard: bounded telemetry
//! histories, shared-memory frame buffer sizing, render pacing and byte-count
//! formatting.
pub mod framebuffer;
pub mod history;
pub mod scheduler;
pub mod telemetry;
pub mod units;
