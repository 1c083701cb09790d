//! The native side of the system module.

pub mod time;
