//! The native side of the audio module.

pub mod sound;
pub mod sound_buffer;
pub mod sound_buffer_recorder;
pub mod sound_status;
