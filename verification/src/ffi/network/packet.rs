//! The native side of a packet: its handle and its entry points.

use vstd::prelude::*;

verus! {

/// A handle to a native packet: the address that the native library gave out
/// for it, or zero for the null handle.
#[allow(non_camel_case_types)]
#[allow(non_snake_case)]
#[derive(Clone, Copy, Debug, PartialEq, Eq, Structural)]
pub struct sfPacket {
    pub This: usize,
}

impl sfPacket {
    /// Whether this is the null handle, which stands for no packet.
    pub open spec fn is_null(&self) -> bool {
        self.This == 0
    }
}

/// One invocation of a native entry point for packets, with the arguments
/// it is made with.
#[derive(Clone, Copy, Debug, PartialEq, Eq, Structural)]
pub enum PacketCall {
    /// `sfPacket_create`: answers with the handle of a new, empty packet.
    Create,
    /// `sfPacket_destroy`: releases the packet.
    Destroy { packet: sfPacket },
}

} // verus!
