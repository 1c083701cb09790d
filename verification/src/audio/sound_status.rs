//! The state of a playback.

use crate::ffi::audio::sound_status::{sfPaused, sfPlaying, sfSoundStatus, sfStopped};
use crate::ffi::sfml_types::ForeignError;
use vstd::prelude::*;

verus! {

/// The state of a playback.
#[derive(Clone, Copy, Debug, PartialEq, Eq, Structural)]
pub enum Status {
    /// Nothing is played, and playing would start from the beginning.
    Stopped,
    /// Playing is suspended, and would go on from where it was.
    Paused,
    /// The sound is being played.
    Playing,
}

/// The native code that stands for a state.
pub open spec fn sound_status_code(status: Status) -> sfSoundStatus {
    match status {
        Status::Stopped => sfStopped,
        Status::Paused => sfPaused,
        Status::Playing => sfPlaying,
    }
}

/// The state that a native code stands for, if it stands for any.
pub open spec fn sound_status_of(code: sfSoundStatus) -> Option<Status> {
    if code == sfStopped {
        Some(Status::Stopped)
    } else if code == sfPaused {
        Some(Status::Paused)
    } else if code == sfPlaying {
        Some(Status::Playing)
    } else {
        None
    }
}

impl Status {
    /// Reads a status code that the native library answered with.
    ///
    /// A code that stands for no state is an error. It is never read as
    /// some default.
    pub fn from_code(code: sfSoundStatus) -> (status: Result<Status, ForeignError>)
        ensures
            sound_status_of(code) matches Some(known) ==> status == Ok::<Status, ForeignError>(
                known,
            ),
            sound_status_of(code) is None ==> status == Err::<Status, ForeignError>(
                ForeignError::UnknownSoundStatus(code),
            ),
    {
        match code {
            sfStopped => Ok(Status::Stopped),
            sfPaused => Ok(Status::Paused),
            sfPlaying => Ok(Status::Playing),
            _ => Err(ForeignError::UnknownSoundStatus(code)),
        }
    }

    /// The native code that stands for this state.
    pub fn code(self) -> (code: sfSoundStatus)
        ensures
            code == sound_status_code(self),
    {
        match self {
            Status::Stopped => sfStopped,
            Status::Paused => sfPaused,
            Status::Playing => sfPlaying,
        }
    }
}

/// Every status code that stands for a state is the code of that state.
pub proof fn sound_status_code_round_trip(code: sfSoundStatus)
    requires
        sound_status_of(code) is Some,
    ensures
        sound_status_code(sound_status_of(code).unwrap()) == code,
{
}

/// The code of every state stands for that state, and for no other.
pub proof fn sound_status_round_trip(status: Status)
    ensures
        sound_status_of(sound_status_code(status)) == Some(status),
{
}

} // verus!
