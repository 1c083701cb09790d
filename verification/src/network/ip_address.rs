//! A network address.

use crate::ffi::network::ip_address::sfIpAddress;
use crate::traits::Wrappable;
use vstd::prelude::*;

verus! {

/// A network address, held as the native library gave it.
#[derive(Clone, Copy, Debug, PartialEq, Eq)]
pub struct IpAddress {
    ip: sfIpAddress,
}

impl View for IpAddress {
    type V = sfIpAddress;

    closed spec fn view(&self) -> sfIpAddress {
        self.ip
    }
}

impl Wrappable<sfIpAddress> for IpAddress {
    /// Every native address is an address.
    open spec fn wrappable(raw: sfIpAddress) -> bool {
        true
    }

    fn wrap(ip: sfIpAddress) -> (wrapped: Option<IpAddress>) {
        Some(IpAddress { ip: ip })
    }

    fn unwrap(&self) -> (raw: sfIpAddress) {
        self.ip
    }
}

} // verus!
