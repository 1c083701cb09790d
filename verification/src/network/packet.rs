//! A unit of data that a socket sends or receives as a whole.

use crate::ffi::network::packet::{sfPacket, PacketCall};
use crate::traits::Wrappable;
use vstd::prelude::*;

verus! {

/// The owner of one native packet.
///
/// A `Packet` always holds a handle that is not null. It gives the handle up
/// only in `destroy`, which consumes it. What the packet holds is the native
/// library's concern.
pub struct Packet {
    packet: sfPacket,
}

impl View for Packet {
    type V = sfPacket;

    /// The handle that this wrapper owns.
    closed spec fn view(&self) -> sfPacket {
        self.packet
    }
}

impl Packet {
    #[verifier::type_invariant]
    spec fn holds_a_handle(&self) -> bool {
        !self.packet.is_null()
    }

    /// The call that creates a new, empty packet. Its answer goes to `wrap`.
    pub fn new() -> (call: PacketCall)
        ensures
            call == PacketCall::Create,
    {
        PacketCall::Create
    }

    /// Gives the packet up: the call that releases it. The wrapper is
    /// consumed, so no second release can be asked for.
    pub fn destroy(self) -> (call: PacketCall)
        ensures
            call == (PacketCall::Destroy { packet: self@ }),
    {
        PacketCall::Destroy { packet: self.packet }
    }
}

impl Wrappable<sfPacket> for Packet {
    /// Every handle but the null handle has a packet behind it.
    open spec fn wrappable(raw: sfPacket) -> bool {
        !raw.is_null()
    }

    fn wrap(packet: sfPacket) -> (wrapped: Option<Packet>) {
        if packet.This == 0 {
            None
        } else {
            Some(Packet { packet: packet })
        }
    }

    fn unwrap(&self) -> (raw: sfPacket) {
        proof {
            use_type_invariant(self);
        }
        self.packet
    }
}

} // verus!
