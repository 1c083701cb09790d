//! The native side of a recorder that captures into a sound buffer: its
//! handle and its entry points.

use libc::c_uint;
use vstd::prelude::*;

verus! {

/// A handle to a native recorder: the address that the native library gave
/// out for it, or zero for the null handle.
#[allow(non_camel_case_types)]
#[allow(non_snake_case)]
#[derive(Clone, Copy, Debug, PartialEq, Eq, Structural)]
pub struct sfSoundBufferRecorder {
    pub This: usize,
}

impl sfSoundBufferRecorder {
    /// Whether this is the null handle, which stands for no recorder.
    pub open spec fn is_null(&self) -> bool {
        self.This == 0
    }
}

/// One invocation of a native entry point for recorders, with the arguments
/// it is made with.
#[allow(non_snake_case)]
#[derive(Clone, Copy, Debug, PartialEq, Eq, Structural)]
pub enum SoundBufferRecorderCall {
    /// `sfSoundRecorder_isAvailable`: answers with the foreign boolean that
    /// tells whether the system can capture audio.
    IsAvailable,
    /// `sfSoundBufferRecorder_create`: answers with the handle of a new recorder.
    Create,
    /// `sfSoundBufferRecorder_destroy`: releases the recorder.
    Destroy { soundBufferRecorder: sfSoundBufferRecorder },
    /// `sfSoundBufferRecorder_start`: starts capturing at `sampleRate`
    /// samples per second. The native library captures in a thread of its own.
    Start { soundBufferRecorder: sfSoundBufferRecorder, sampleRate: c_uint },
    /// `sfSoundBufferRecorder_stop`: stops capturing.
    Stop { soundBufferRecorder: sfSoundBufferRecorder },
    /// `sfSoundBufferRecorder_getBuffer`: answers with the handle of the
    /// buffer that holds what was captured.
    GetBuffer { soundBufferRecorder: sfSoundBufferRecorder },
}

} // verus!
