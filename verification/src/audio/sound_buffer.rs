//! Storage for the samples of a sound.

use crate::ffi::audio::sound_buffer::{sfSoundBuffer, SoundBufferCall};
use crate::ffi::sfml_types::{bool_of, sf_to_bool, sfBool, ForeignError};
use crate::traits::Wrappable;
use libc::c_uint;
use vstd::prelude::*;

verus! {

/// The owner of one native sound buffer.
///
/// A `SoundBuffer` always holds a handle that is not null. It gives the
/// handle up only in `destroy`, which consumes it.
pub struct SoundBuffer {
    sound_buffer: sfSoundBuffer,
}

impl View for SoundBuffer {
    type V = sfSoundBuffer;

    /// The handle that this wrapper owns.
    closed spec fn view(&self) -> sfSoundBuffer {
        self.sound_buffer
    }
}

impl SoundBuffer {
    #[verifier::type_invariant]
    spec fn holds_a_handle(&self) -> bool {
        !self.sound_buffer.is_null()
    }

    /// The call that writes the samples to the file named `filename`. Its
    /// answer goes to `save_to_file_reply`.
    pub fn save_to_file<'a>(&self, filename: &'a str) -> (call: SoundBufferCall<'a>)
        ensures
            call == (SoundBufferCall::SaveToFile { soundBuffer: self@, filename: filename }),
    {
        SoundBufferCall::SaveToFile { soundBuffer: self.sound_buffer, filename: filename }
    }

    /// Reads the answer to `save_to_file`: true if the file was written.
    /// An answer that is no foreign boolean is an error.
    pub fn save_to_file_reply(saved: sfBool) -> (answer: Result<bool, ForeignError>)
        ensures
            bool_of(saved) matches Some(known) ==> answer == Ok::<bool, ForeignError>(known),
            bool_of(saved) is None ==> answer == Err::<bool, ForeignError>(
                ForeignError::UnknownBool(saved),
            ),
    {
        sf_to_bool(saved)
    }

    /// The call that asks for the number of samples played per second. Its
    /// answer goes to `get_sample_rate_reply`.
    pub fn get_sample_rate(&self) -> (call: SoundBufferCall<'static>)
        ensures
            call == (SoundBufferCall::GetSampleRate { soundBuffer: self@ }),
    {
        SoundBufferCall::GetSampleRate { soundBuffer: self.sound_buffer }
    }

    /// Reads the answer to `get_sample_rate`: the same number, widened.
    pub fn get_sample_rate_reply(rate: c_uint) -> (sample_rate: usize)
        ensures
            sample_rate == rate,
    {
        rate as usize
    }

    /// The call that asks for the number of channels: 1 for mono, 2 for
    /// stereo. Its answer goes to `get_channel_count_reply`.
    pub fn get_channel_count(&self) -> (call: SoundBufferCall<'static>)
        ensures
            call == (SoundBufferCall::GetChannelCount { soundBuffer: self@ }),
    {
        SoundBufferCall::GetChannelCount { soundBuffer: self.sound_buffer }
    }

    /// Reads the answer to `get_channel_count`: the same number, widened.
    pub fn get_channel_count_reply(count: c_uint) -> (channel_count: usize)
        ensures
            channel_count == count,
    {
        count as usize
    }

    /// The call that asks for the time the samples take to play. Its answer
    /// goes to `Time::wrap`.
    pub fn get_duration(&self) -> (call: SoundBufferCall<'static>)
        ensures
            call == (SoundBufferCall::GetDuration { soundBuffer: self@ }),
    {
        SoundBufferCall::GetDuration { soundBuffer: self.sound_buffer }
    }

    /// Gives the buffer up: the call that releases it. The wrapper is
    /// consumed, so no second release can be asked for.
    pub fn destroy(self) -> (call: SoundBufferCall<'static>)
        ensures
            call == (SoundBufferCall::Destroy { soundBuffer: self@ }),
    {
        SoundBufferCall::Destroy { soundBuffer: self.sound_buffer }
    }
}

impl Wrappable<sfSoundBuffer> for SoundBuffer {
    /// Every handle but the null handle has a sound buffer behind it.
    open spec fn wrappable(raw: sfSoundBuffer) -> bool {
        !raw.is_null()
    }

    fn wrap(sound_buffer: sfSoundBuffer) -> (wrapped: Option<SoundBuffer>) {
        if sound_buffer.This == 0 {
            None
        } else {
            Some(SoundBuffer { sound_buffer: sound_buffer })
        }
    }

    fn unwrap(&self) -> (raw: sfSoundBuffer) {
        proof {
            use_type_invariant(self);
        }
        self.sound_buffer
    }
}

} // verus!
