//! Hardware telemetry sampling core.
//!
//! A background sampler polls three unrelated sources (host CPU and memory,
//! the first NVIDIA accelerator, and the operating system's disk counters),
//! normalises what they report into canonical units and publishes one
//! complete [`snapshot::HardwareMetrics`] per sampling cycle.
//!
//! What asks the operating system and may not come back is the caller's:
//! opening and refreshing the host's session, the disk counter calls, the
//! thread, the lock and the sleep. The library reads the session, talks to
//! the accelerator, decides, converts and writes the snapshot.
//!
//! The contracts say which fields a cycle writes, with which value, and
//! which fields it leaves alone. The calls into `sysinfo` and
//! `nvml_wrapper` are declared without proof, each where it is used. What
//! the machine decides is left open; of a call that only reads what a
//! session holds, the declaration says so.

pub mod disk;
pub mod gpu;
pub mod host;
pub mod sampler;
pub mod snapshot;
pub mod store;
pub mod units;
