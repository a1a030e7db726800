//! Host telemetry snapshots as wire text.
//!
//! A [`SystemMonitor`] owns one [`TelemetrySource`], either live (backed by the
//! operating system) or sandboxed (fixed, empty answers). Each query refreshes
//! what it needs, takes typed records from the source and returns them encoded
//! as text. No query fails: a reading that is missing degrades to a sentinel,
//! a record that cannot be encoded degrades to the empty encoding.
//!
//! Percentages are carried as whole hundredths of a percent, so every value
//! that reaches the wire is an integer the verifier can reason about.

pub mod encode;
pub mod grammar;
pub mod laws;
pub mod monitor;
pub mod percent;
pub mod records;
pub mod source;
pub mod wire;

pub use monitor::SystemMonitor;
pub use percent::Percent;
pub use records::{CpuInfo, DiskInfo, MemoryInfo, SystemInfo};
pub use source::{LiveSource, SandboxedSource, TelemetrySource};
