//! Wrappers over the native library's rendering primitives.

pub mod primitive_type;
pub mod vertex_array;
