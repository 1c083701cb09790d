//! The native library's network address.

use libc::c_char;
use vstd::prelude::*;

verus! {

/// A network address as the native library holds it: the characters of its
/// textual form, ended by a zero.
#[allow(non_camel_case_types)]
#[derive(Clone, Copy, Debug, PartialEq, Eq)]
pub struct sfIpAddress {
    pub address: [c_char; 16],
}

} // verus!
