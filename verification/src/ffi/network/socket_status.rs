//! The native library's codes for the outcome of a socket operation.

use libc::c_int;
use vstd::prelude::*;

verus! {

/// The native library's code for the outcome of a socket operation.
#[allow(non_camel_case_types)]
pub type sfSocketStatus = c_int;

/// The operation was carried out.
#[allow(non_upper_case_globals)]
pub const sfSocketDone: sfSocketStatus = 0;

/// The socket is not ready to carry the operation out yet.
#[allow(non_upper_case_globals)]
pub const sfSocketNotReady: sfSocketStatus = 1;

/// The peer has closed the connection.
#[allow(non_upper_case_globals)]
pub const sfSocketDisconnected: sfSocketStatus = 2;

/// The operation failed.
#[allow(non_upper_case_globals)]
pub const sfSocketError: sfSocketStatus = 3;

} // verus!
