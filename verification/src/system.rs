//! Wrappers over the native library's system utilities.

pub mod time;
