//! Representations shared by every part of the foreign boundary.

use libc::{c_int, c_uint, size_t};
use vstd::prelude::*;

verus! {

/// The native library's boolean: an integer that is either `SFFALSE` or `SFTRUE`.
#[allow(non_camel_case_types)]
pub type sfBool = c_int;

pub const SFFALSE: sfBool = 0;

pub const SFTRUE: sfBool = 1;

/// A foreign value that has no local counterpart.
#[derive(Clone, Copy, Debug, PartialEq, Eq, Structural)]
pub enum ForeignError {
    /// A boolean other than `SFFALSE` and `SFTRUE`.
    UnknownBool(c_int),
    /// A primitive-type code that stands for no primitive type.
    UnknownPrimitiveType(c_uint),
    /// A socket status code that stands for no outcome.
    UnknownSocketStatus(c_int),
    /// A playback status code that stands for no state.
    UnknownSoundStatus(c_int),
    /// A count of received bytes that is larger than the buffer they were
    /// received in.
    ReceivedBeyondBuffer { received: size_t, capacity: size_t },
}

/// The foreign boolean that stands for `value`.
pub open spec fn bool_code(value: bool) -> sfBool {
    if value {
        SFTRUE
    } else {
        SFFALSE
    }
}

/// The local boolean that a foreign one stands for, if it is one.
pub open spec fn bool_of(code: sfBool) -> Option<bool> {
    if code == SFFALSE {
        Some(false)
    } else if code == SFTRUE {
        Some(true)
    } else {
        None
    }
}

/// Every foreign boolean is the code of the local boolean that it stands for.
pub proof fn bool_code_round_trip(code: sfBool)
    requires
        bool_of(code) is Some,
    ensures
        bool_code(bool_of(code).unwrap()) == code,
{
}

/// The code of every local boolean stands for that boolean.
pub proof fn bool_round_trip(value: bool)
    ensures
        bool_of(bool_code(value)) == Some(value),
{
}

/// The foreign boolean for a local one.
pub fn bool_to_sf(value: bool) -> (code: sfBool)
    ensures
        code == bool_code(value),
{
    if value {
        SFTRUE
    } else {
        SFFALSE
    }
}

/// Reads a foreign boolean. Any other code is an error.
pub fn sf_to_bool(code: sfBool) -> (value: Result<bool, ForeignError>)
    ensures
        bool_of(code) matches Some(known) ==> value == Ok::<bool, ForeignError>(known),
        bool_of(code) is None ==> value == Err::<bool, ForeignError>(
            ForeignError::UnknownBool(code),
        ),
{
    if code == SFFALSE {
        Ok(false)
    } else if code == SFTRUE {
        Ok(true)
    } else {
        Err(ForeignError::UnknownBool(code))
    }
}

} // verus!
