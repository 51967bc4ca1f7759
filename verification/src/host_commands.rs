//! The host commands, also known by the name `EVEHostCmd`.

pub use crate::low_level::host_commands::HostCmd as EVEHostCmd;
