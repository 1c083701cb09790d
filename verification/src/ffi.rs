//! The native library as seen from this side of the foreign boundary:
//! its handles, its codes, and its entry points as plain values.

pub mod audio;
pub mod network;
pub mod sfml_types;
pub mod system;
