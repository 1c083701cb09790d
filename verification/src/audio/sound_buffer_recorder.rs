//! A recorder that captures audio into a sound buffer.

use crate::ffi::audio::sound_buffer::{sfSoundBuffer, SoundBufferCall};
use crate::ffi::audio::sound_buffer_recorder::{sfSoundBufferRecorder, SoundBufferRecorderCall};
use crate::ffi::sfml_types::{bool_of, sf_to_bool, sfBool, ForeignError};
use crate::traits::Wrappable;
use libc::c_uint;
use vstd::prelude::*;

verus! {

/// The owner of one native recorder.
///
/// A `SoundBufferRecorder` always holds a handle that is not null. It gives
/// the handle up only in `destroy`, which consumes it. Capturing runs in a
/// thread of the native library: `start` and `stop` are all that this side
/// has to do with it.
pub struct SoundBufferRecorder {
    sound_buffer_recorder: sfSoundBufferRecorder,
}

impl View for SoundBufferRecorder {
    type V = sfSoundBufferRecorder;

    /// The handle that this wrapper owns.
    closed spec fn view(&self) -> sfSoundBufferRecorder {
        self.sound_buffer_recorder
    }
}

impl SoundBufferRecorder {
    #[verifier::type_invariant]
    spec fn holds_a_handle(&self) -> bool {
        !self.sound_buffer_recorder.is_null()
    }

    /// The call that asks whether the system can capture audio. Its answer
    /// goes to `is_available_reply`.
    pub fn is_available() -> (call: SoundBufferRecorderCall)
        ensures
            call == SoundBufferRecorderCall::IsAvailable,
    {
        SoundBufferRecorderCall::IsAvailable
    }

    /// Reads the answer to `is_available`: true if audio can be captured.
    /// An answer that is no foreign boolean is an error.
    pub fn is_available_reply(available: sfBool) -> (answer: Result<bool, ForeignError>)
        ensures
            bool_of(available) matches Some(known) ==> answer == Ok::<bool, ForeignError>(known),
            bool_of(available) is None ==> answer == Err::<bool, ForeignError>(
                ForeignError::UnknownBool(available),
            ),
    {
        sf_to_bool(available)
    }

    /// The call that creates a new recorder. Its answer goes to `wrap`.
    pub fn new() -> (call: SoundBufferRecorderCall)
        ensures
            call == SoundBufferRecorderCall::Create,
    {
        SoundBufferRecorderCall::Create
    }

    /// The call that starts capturing at `sample_rate` samples per second.
    ///
    /// The native library counts in 32 bits: a larger rate is cut down to
    /// its low 32 bits.
    pub fn start(&mut self, sample_rate: usize) -> (call: SoundBufferRecorderCall)
        ensures
            final(self)@ == old(self)@,
            call == (SoundBufferRecorderCall::Start {
                soundBufferRecorder: old(self)@,
                sampleRate: (sample_rate as int % 0x1_0000_0000) as c_uint,
            }),
    {
        let low: u64 = (sample_rate as u64) % 0x1_0000_0000u64;
        SoundBufferRecorderCall::Start {
            soundBufferRecorder: self.sound_buffer_recorder,
            sampleRate: low as c_uint,
        }
    }

    /// The call that stops capturing.
    pub fn stop(&mut self) -> (call: SoundBufferRecorderCall)
        ensures
            final(self)@ == old(self)@,
            call == (SoundBufferRecorderCall::Stop { soundBufferRecorder: old(self)@ }),
    {
        SoundBufferRecorderCall::Stop { soundBufferRecorder: self.sound_buffer_recorder }
    }

    /// The call that asks for the buffer that holds what was captured. Its
    /// answer goes to `get_buffer_reply`.
    pub fn get_buffer(&self) -> (call: SoundBufferRecorderCall)
        ensures
            call == (SoundBufferRecorderCall::GetBuffer { soundBufferRecorder: self@ }),
    {
        SoundBufferRecorderCall::GetBuffer { soundBufferRecorder: self.sound_buffer_recorder }
    }

    /// Reads the answer to `get_buffer`.
    ///
    /// The buffer that was captured into stays the recorder's own, and goes
    /// when the recorder goes. What a caller gets to own is a copy of it:
    /// the call that makes the copy is returned, and its answer goes to
    /// `SoundBuffer::wrap`. If there is no captured buffer, there is nothing
    /// to copy.
    pub fn get_buffer_reply(captured: sfSoundBuffer) -> (call: Option<SoundBufferCall<'static>>)
        ensures
            captured.is_null() ==> call is None,
            !captured.is_null() ==> call == Some(SoundBufferCall::Copy { soundBuffer: captured }),
    {
        if captured.This == 0 {
            None
        } else {
            Some(SoundBufferCall::Copy { soundBuffer: captured })
        }
    }

    /// Gives the recorder up: the call that releases it. The wrapper is
    /// consumed, so no second release can be asked for.
    pub fn destroy(self) -> (call: SoundBufferRecorderCall)
        ensures
            call == (SoundBufferRecorderCall::Destroy { soundBufferRecorder: self@ }),
    {
        SoundBufferRecorderCall::Destroy { soundBufferRecorder: self.sound_buffer_recorder }
    }
}

impl Wrappable<sfSoundBufferRecorder> for SoundBufferRecorder {
    /// Every handle but the null handle has a recorder behind it.
    open spec fn wrappable(raw: sfSoundBufferRecorder) -> bool {
        !raw.is_null()
    }

    fn wrap(sound_buffer_recorder: sfSoundBufferRecorder) -> (wrapped: Option<
        SoundBufferRecorder,
    >) {
        if sound_buffer_recorder.This == 0 {
            None
        } else {
            Some(SoundBufferRecorder { sound_buffer_recorder: sound_buffer_recorder })
        }
    }

    fn unwrap(&self) -> (raw: sfSoundBufferRecorder) {
        proof {
            use_type_invariant(self);
        }
        self.sound_buffer_recorder
    }
}

} // verus!
