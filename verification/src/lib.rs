//! Process-telemetry support library.
//!
//! The crate holds the verified core of a command wrapper that records
//! structured telemetry about a child process: splitting captured output
//! streams into lines with byte-accurate totals, formatting numbers and
//! timestamps, encoding telemetry events as single-line JSON records, and
//! deriving run statistics.  All I/O (spawning, draining pipes, appending to
//! the log file) lives in the surrounding application.

pub mod capture;
pub mod driver;
pub mod encode;
pub mod event;
pub mod fmt;
pub mod json;
pub mod stats;
