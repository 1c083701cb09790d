//! The native library's time value.

use vstd::prelude::*;

verus! {

/// A span of time as the native library holds it.
#[allow(non_camel_case_types)]
#[derive(Clone, Copy, Debug, PartialEq, Eq, Structural)]
pub struct sfTime {
    pub microseconds: i64,
}

} // verus!
