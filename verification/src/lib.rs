//! Verified core of a binding layer over a native multimedia library.
//!
//! The native library is reached through a foreign-function interface that
//! lives outside this crate. What is decided on this side of the boundary
//! lives here: which entry point a wrapper operation invokes and with which
//! arguments, which local variant a foreign code stands for and which code
//! a local variant, and who owns a native handle and when it is released.

pub mod audio;
pub mod examples;
pub mod ffi;
pub mod graphics;
pub mod network;
pub mod system;
pub mod traits;
