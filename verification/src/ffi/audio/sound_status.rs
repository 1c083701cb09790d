//! The native library's codes for the state of a playback.

use libc::c_int;
use vstd::prelude::*;

verus! {

/// The native library's code for the state of a playback.
#[allow(non_camel_case_types)]
pub type sfSoundStatus = c_int;

/// Nothing is played, and playing would start from the beginning.
#[allow(non_upper_case_globals)]
pub const sfStopped: sfSoundStatus = 0;

/// Playing is suspended, and would go on from where it was.
#[allow(non_upper_case_globals)]
pub const sfPaused: sfSoundStatus = 1;

/// The sound is being played.
#[allow(non_upper_case_globals)]
pub const sfPlaying: sfSoundStatus = 2;

} // verus!
