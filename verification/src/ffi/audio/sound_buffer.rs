//! The native side of a sound buffer: its handle and its entry points.

use vstd::prelude::*;

verus! {

/// A handle to a native sound buffer: the address that the native library
/// gave out for it, or zero for the null handle.
#[allow(non_camel_case_types)]
#[allow(non_snake_case)]
#[derive(Clone, Copy, Debug, PartialEq, Eq, Structural)]
pub struct sfSoundBuffer {
    pub This: usize,
}

impl sfSoundBuffer {
    /// Whether this is the null handle, which stands for no sound buffer.
    pub open spec fn is_null(&self) -> bool {
        self.This == 0
    }
}

/// One invocation of a native entry point for sound buffers, with the
/// arguments it is made with.
#[allow(non_snake_case)]
#[derive(Clone, Copy, Debug, PartialEq, Eq)]
pub enum SoundBufferCall<'a> {
    /// `sfSoundBuffer_copy`: answers with the handle of a new buffer that
    /// holds the same samples as the given one.
    Copy { soundBuffer: sfSoundBuffer },
    /// `sfSoundBuffer_destroy`: releases the buffer.
    Destroy { soundBuffer: sfSoundBuffer },
    /// `sfSoundBuffer_saveToFile`: writes the samples to the named file, and
    /// answers with the foreign boolean that tells whether it could.
    SaveToFile { soundBuffer: sfSoundBuffer, filename: &'a str },
    /// `sfSoundBuffer_getSampleRate`: answers with the samples per second.
    GetSampleRate { soundBuffer: sfSoundBuffer },
    /// `sfSoundBuffer_getChannelCount`: answers with the number of channels.
    GetChannelCount { soundBuffer: sfSoundBuffer },
    /// `sfSoundBuffer_getDuration`: answers with the time the samples take
    /// to play.
    GetDuration { soundBuffer: sfSoundBuffer },
}

} // verus!
