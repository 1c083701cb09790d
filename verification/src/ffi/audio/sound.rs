//! The native side of a sound: its handle and its entry points.

use crate::ffi::audio::sound_buffer::sfSoundBuffer;
use vstd::prelude::*;

verus! {

/// A handle to a native sound: the address that the native library gave out
/// for it, or zero for the null handle.
#[allow(non_camel_case_types)]
#[allow(non_snake_case)]
#[derive(Clone, Copy, Debug, PartialEq, Eq, Structural)]
pub struct sfSound {
    pub This: usize,
}

impl sfSound {
    /// Whether this is the null handle, which stands for no sound.
    pub open spec fn is_null(&self) -> bool {
        self.This == 0
    }
}

/// One invocation of a native entry point for sounds, with the arguments it
/// is made with.
#[derive(Clone, Copy, Debug, PartialEq, Eq, Structural)]
pub enum SoundCall {
    /// `sfSound_create`: answers with the handle of a new sound.
    Create,
    /// `sfSound_destroy`: releases the sound.
    Destroy { sound: sfSound },
    /// `sfSound_setBuffer`: makes the sound play the samples of the buffer.
    /// The sound refers to the buffer and does not copy it.
    SetBuffer { sound: sfSound, buffer: sfSoundBuffer },
    /// `sfSound_play`: starts or resumes playing.
    Play { sound: sfSound },
    /// `sfSound_getStatus`: answers with the code of the state of the playback.
    GetStatus { sound: sfSound },
    /// `sfSound_getPlayingOffset`: answers with the time played so far.
    GetPlayingOffset { sound: sfSound },
}

} // verus!
