//! Wrappers over the native library's audio primitives.

pub mod rc;
pub mod sound;
pub mod sound_buffer;
pub mod sound_buffer_recorder;
pub mod sound_status;
