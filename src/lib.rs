//! Hardware telemetry aggregation: turns raw readings of a machine's CPU,
//! memory, disks, network counters, GPU, sensors, battery and process table
//! into one normalized snapshot.
//!
//! Every quantity is an integer in an exact unit: bytes, hundredths of a
//! percent, milli-degrees, millivolts, microseconds and bits per second.
//! Reading the operating system and converting to display units is left to
//! the caller.
pub mod battery;
pub mod disk;
pub mod gpu;
pub mod measure;
pub mod netif;
pub mod netrate;
pub mod process;
pub mod resources;
pub mod sensors;
pub mod stats;
pub mod text;
