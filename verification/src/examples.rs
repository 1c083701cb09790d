//! What the example programs decide, apart from their prompts and calls.

pub mod sound_capture;
