//! A span of time.

use crate::ffi::system::time::sfTime;
use crate::traits::Wrappable;
use vstd::prelude::*;

verus! {

/// A span of time, held as the native library gave it.
#[derive(Clone, Copy, Debug, PartialEq, Eq, Structural)]
pub struct Time {
    time: sfTime,
}

impl View for Time {
    type V = sfTime;

    closed spec fn view(&self) -> sfTime {
        self.time
    }
}

impl Wrappable<sfTime> for Time {
    /// Every native time value is a time.
    open spec fn wrappable(raw: sfTime) -> bool {
        true
    }

    fn wrap(time: sfTime) -> (wrapped: Option<Time>) {
        Some(Time { time: time })
    }

    fn unwrap(&self) -> (raw: sfTime) {
        self.time
    }
}

} // verus!
