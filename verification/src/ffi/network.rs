//! The native side of the network module.

pub mod ip_address;
pub mod packet;
pub mod socket_status;
pub mod tcp_socket;
