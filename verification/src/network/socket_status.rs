//! The outcome of a socket operation.

use crate::ffi::network::socket_status::{
    sfSocketDisconnected, sfSocketDone, sfSocketError, sfSocketNotReady, sfSocketStatus,
};
use crate::ffi::sfml_types::ForeignError;
use vstd::prelude::*;

verus! {

/// The outcome of a socket operation. It is handed to the caller as it is:
/// nothing is retried and nothing is escalated on the caller's behalf.
#[derive(Clone, Copy, Debug, PartialEq, Eq, Structural)]
pub enum SocketStatus {
    /// The operation was carried out.
    SocketDone,
    /// The socket is not ready to carry the operation out yet.
    SocketNotReady,
    /// The peer has closed the connection.
    SocketDisconnected,
    /// The operation failed.
    SocketError,
}

/// The native code that stands for an outcome.
pub open spec fn socket_status_code(status: SocketStatus) -> sfSocketStatus {
    match status {
        SocketStatus::SocketDone => sfSocketDone,
        SocketStatus::SocketNotReady => sfSocketNotReady,
        SocketStatus::SocketDisconnected => sfSocketDisconnected,
        SocketStatus::SocketError => sfSocketError,
    }
}

/// The outcome that a native code stands for, if it stands for any.
pub open spec fn socket_status_of(code: sfSocketStatus) -> Option<SocketStatus> {
    if code == sfSocketDone {
        Some(SocketStatus::SocketDone)
    } else if code == sfSocketNotReady {
        Some(SocketStatus::SocketNotReady)
    } else if code == sfSocketDisconnected {
        Some(SocketStatus::SocketDisconnected)
    } else if code == sfSocketError {
        Some(SocketStatus::SocketError)
    } else {
        None
    }
}

/// Every status code that stands for an outcome is the code of that outcome.
pub proof fn socket_status_code_round_trip(code: sfSocketStatus)
    requires
        socket_status_of(code) is Some,
    ensures
        socket_status_code(socket_status_of(code).unwrap()) == code,
{
}

/// The code of every outcome stands for that outcome, and for no other.
pub proof fn socket_status_round_trip(status: SocketStatus)
    ensures
        socket_status_of(socket_status_code(status)) == Some(status),
{
}

impl SocketStatus {
    /// Reads a status code that the native library answered with.
    ///
    /// A code that stands for no outcome is an error. It is never read as
    /// some default.
    pub fn from_code(code: sfSocketStatus) -> (status: Result<SocketStatus, ForeignError>)
        ensures
            socket_status_of(code) matches Some(known) ==> status == Ok::<
                SocketStatus,
                ForeignError,
            >(known),
            socket_status_of(code) is None ==> status == Err::<SocketStatus, ForeignError>(
                ForeignError::UnknownSocketStatus(code),
            ),
    {
        match code {
            sfSocketDone => Ok(SocketStatus::SocketDone),
            sfSocketNotReady => Ok(SocketStatus::SocketNotReady),
            sfSocketDisconnected => Ok(SocketStatus::SocketDisconnected),
            sfSocketError => Ok(SocketStatus::SocketError),
            _ => Err(ForeignError::UnknownSocketStatus(code)),
        }
    }

    /// The native code that stands for this outcome.
    pub fn code(self) -> (code: sfSocketStatus)
        ensures
            code == socket_status_code(self),
    {
        match self {
            SocketStatus::SocketDone => sfSocketDone,
            SocketStatus::SocketNotReady => sfSocketNotReady,
            SocketStatus::SocketDisconnected => sfSocketDisconnected,
            SocketStatus::SocketError => sfSocketError,
        }
    }
}

} // verus!
