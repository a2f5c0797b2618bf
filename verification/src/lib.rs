//! System status monitoring: CPU load, memory usage, fullscreen detection and
//! meeting-application detection, sampled on demand from the operating system.
//!
//! - `text`: character sequences and substring search
//! - `signature`: the meeting-application signatures and how names match them
//! - `usage`: exact usage figures computed from resource readings
//! - `probe`: the operating-system facility the monitor samples
//! - `system_monitor`: the monitor itself

pub mod probe;
pub mod signature;
pub mod system_monitor;
pub mod text;
pub mod usage;
