//! A sound that plays the samples of a sound buffer.

use crate::audio::sound_buffer::SoundBuffer;
use crate::audio::sound_status::{sound_status_of, Status};
use crate::ffi::audio::sound::{sfSound, SoundCall};
use crate::ffi::audio::sound_status::sfSoundStatus;
use crate::ffi::sfml_types::ForeignError;
use crate::traits::Wrappable;
use vstd::prelude::*;

verus! {

/// The owner of one native sound.
///
/// A `Sound` always holds a handle that is not null. It gives the handle up
/// only in `destroy`, which consumes it. The buffer that it plays is not its
/// own: it must stay alive for as long as the sound refers to it.
pub struct Sound {
    sound: sfSound,
}

impl View for Sound {
    type V = sfSound;

    /// The handle that this wrapper owns.
    closed spec fn view(&self) -> sfSound {
        self.sound
    }
}

impl Sound {
    #[verifier::type_invariant]
    spec fn holds_a_handle(&self) -> bool {
        !self.sound.is_null()
    }

    /// The call that creates a new sound. Its answer goes to `wrap`.
    pub fn new() -> (call: SoundCall)
        ensures
            call == SoundCall::Create,
    {
        SoundCall::Create
    }

    /// The call that makes the sound play the samples of `buffer`.
    pub fn set_buffer(&mut self, buffer: &SoundBuffer) -> (call: SoundCall)
        ensures
            final(self)@ == old(self)@,
            call == (SoundCall::SetBuffer { sound: old(self)@, buffer: buffer@ }),
    {
        SoundCall::SetBuffer { sound: self.sound, buffer: buffer.unwrap() }
    }

    /// The call that starts or resumes playing.
    pub fn play(&mut self) -> (call: SoundCall)
        ensures
            final(self)@ == old(self)@,
            call == (SoundCall::Play { sound: old(self)@ }),
    {
        SoundCall::Play { sound: self.sound }
    }

    /// The call that asks for the state of the playback. Its answer goes to
    /// `get_status_reply`.
    pub fn get_status(&self) -> (call: SoundCall)
        ensures
            call == (SoundCall::GetStatus { sound: self@ }),
    {
        SoundCall::GetStatus { sound: self.sound }
    }

    /// Reads the answer to `get_status`. A code that stands for no state is
    /// an error.
    pub fn get_status_reply(code: sfSoundStatus) -> (status: Result<Status, ForeignError>)
        ensures
            sound_status_of(code) matches Some(known) ==> status == Ok::<Status, ForeignError>(
                known,
            ),
            sound_status_of(code) is None ==> status == Err::<Status, ForeignError>(
                ForeignError::UnknownSoundStatus(code),
            ),
    {
        Status::from_code(code)
    }

    /// The call that asks for the time played so far. Its answer goes to
    /// `Time::wrap`.
    pub fn get_playing_offset(&self) -> (call: SoundCall)
        ensures
            call == (SoundCall::GetPlayingOffset { sound: self@ }),
    {
        SoundCall::GetPlayingOffset { sound: self.sound }
    }

    /// Gives the sound up: the call that releases it. The wrapper is
    /// consumed, so no second release can be asked for.
    pub fn destroy(self) -> (call: SoundCall)
        ensures
            call == (SoundCall::Destroy { sound: self@ }),
    {
        SoundCall::Destroy { sound: self.sound }
    }
}

impl Wrappable<sfSound> for Sound {
    /// Every handle but the null handle has a sound behind it.
    open spec fn wrappable(raw: sfSound) -> bool {
        !raw.is_null()
    }

    fn wrap(sound: sfSound) -> (wrapped: Option<Sound>) {
        if sound.This == 0 {
            None
        } else {
            Some(Sound { sound: sound })
        }
    }

    fn unwrap(&self) -> (raw: sfSound) {
        proof {
            use_type_invariant(self);
        }
        self.sound
    }
}

} // verus!
