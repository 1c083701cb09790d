//! The native side of a TCP socket: its handle and its entry points.

use crate::ffi::network::ip_address::sfIpAddress;
use crate::ffi::network::packet::sfPacket;
use crate::ffi::sfml_types::sfBool;
use crate::ffi::system::time::sfTime;
use libc::size_t;
use vstd::prelude::*;

verus! {

/// A handle to a native TCP socket: the address that the native library gave
/// out for it, or zero for the null handle.
#[allow(non_camel_case_types)]
#[allow(non_snake_case)]
#[derive(Clone, Copy, Debug, PartialEq, Eq, Structural)]
pub struct sfTcpSocket {
    pub This: usize,
}

impl sfTcpSocket {
    /// Whether this is the null handle, which stands for no socket.
    pub open spec fn is_null(&self) -> bool {
        self.This == 0
    }
}

/// One invocation of a native entry point for TCP sockets, with the
/// arguments it is made with.
#[allow(non_snake_case)]
#[derive(Clone, Copy, Debug, PartialEq, Eq)]
pub enum TcpSocketCall<'a> {
    /// `sfTcpSocket_create`: answers with the handle of a new socket.
    Create,
    /// `sfTcpSocket_destroy`: releases the socket.
    Destroy { socket: sfTcpSocket },
    /// `sfTcpSocket_setBlocking`: switches between blocking and non-blocking mode.
    SetBlocking { socket: sfTcpSocket, blocking: sfBool },
    /// `sfTcpSocket_isBlocking`: answers with the foreign boolean that tells
    /// whether the socket is in blocking mode.
    IsBlocking { socket: sfTcpSocket },
    /// `sfTcpSocket_getLocalPort`: answers with the port that the socket is
    /// bound to, or zero.
    GetLocalPort { socket: sfTcpSocket },
    /// `sfTcpSocket_getRemoteAddress`: answers with the address of the peer.
    GetRemoteAddress { socket: sfTcpSocket },
    /// `sfTcpSocket_getRemotePort`: answers with the port of the peer, or zero.
    GetRemotePort { socket: sfTcpSocket },
    /// `sfTcpSocket_connect`: answers with a status code.
    Connect { socket: sfTcpSocket, host: sfIpAddress, port: u16, timeout: sfTime },
    /// `sfTcpSocket_disconnect`: closes the connection.
    Disconnect { socket: sfTcpSocket },
    /// `sfTcpSocket_send`: sends the bytes as they are, and answers with a
    /// status code.
    Send { socket: sfTcpSocket, data: &'a [i8] },
    /// `sfTcpSocket_receive`: fills a buffer of `maxSize` bytes, and answers
    /// with the number of bytes received and a status code.
    Receive { socket: sfTcpSocket, maxSize: size_t },
    /// `sfTcpSocket_sendPacket`: sends the packet, and answers with a status code.
    SendPacket { socket: sfTcpSocket, packet: sfPacket },
    /// `sfTcpSocket_receivePacket`: fills the packet, and answers with a
    /// status code.
    ReceivePacket { socket: sfTcpSocket, packet: sfPacket },
}

} // verus!
