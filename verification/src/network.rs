//! Wrappers over the native library's networking primitives.

pub mod ip_address;
pub mod packet;
pub mod socket_status;
pub mod tcp_socket;
