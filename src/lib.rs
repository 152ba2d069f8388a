//! Change tracking for a host-metrics collector.
//!
//! Each sampling cycle hands a fresh [`Reading`] to [`tick`], which compares
//! every metric category against the last accepted snapshot and builds a sparse
//! record that carries only the categories that changed.

pub mod engine;
pub mod laws;
pub mod sample;
pub mod stamp;
pub mod usage;

pub use engine::{busy_processes, tick, MeasurementData, Reading, Tick};
pub use sample::{
    lists_match, ActiveState, CpuSample, DiskUsage, LoadState, ProcessSample, Sample, UnitSample,
};
pub use stamp::timestamp_at;
pub use usage::{usage_equal, usage_is_positive};
