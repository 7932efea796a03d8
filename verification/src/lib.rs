//! Hardware performance counters as a measurement for a benchmarking harness.
//!
//! A [`PerfMode`] names one of a closed set of hardware events. From it a
//! [`PerfMeasurement`] resolves the event selector to program the counter with
//! and the unit labels to report its readings under.

pub mod formatter;
pub mod measurement;
pub mod mode;

pub use formatter::PerfFormatter;
pub use formatter::Scaling;
pub use formatter::ScalingView;
pub use formatter::Throughput;
pub use formatter::UnitLabels;
pub use measurement::PerfMeasurement;
pub use measurement::Resolved;
pub use mode::HardwareEvent;
pub use mode::PerfMode;
