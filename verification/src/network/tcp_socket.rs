//! A socket that speaks TCP.

use crate::ffi::network::socket_status::sfSocketStatus;
use crate::ffi::network::tcp_socket::{sfTcpSocket, TcpSocketCall};
use crate::ffi::sfml_types::{bool_code, bool_of, sfBool, ForeignError, SFFALSE, SFTRUE};
use crate::network::ip_address::IpAddress;
use crate::network::packet::Packet;
use crate::network::socket_status::{socket_status_of, SocketStatus};
use crate::system::time::Time;
use crate::traits::Wrappable;
use libc::size_t;
use vstd::prelude::*;

verus! {

/// What the native library's answer to `receive` amounts to: the bytes
/// received, the outcome and the number of bytes, or the error in the answer.
pub open spec fn receive_result(data: Seq<i8>, size: size_t, code: sfSocketStatus) -> Result<
    (Seq<i8>, SocketStatus, size_t),
    ForeignError,
> {
    match socket_status_of(code) {
        None => Err(ForeignError::UnknownSocketStatus(code)),
        Some(status) => if size <= data.len() {
            Ok((data.take(size as int), status, size))
        } else {
            Err(ForeignError::ReceivedBeyondBuffer { received: size, capacity: data.len() as size_t })
        },
    }
}

/// The owner of one native TCP socket.
///
/// A `TcpSocket` always holds a handle that is not null. It gives the handle
/// up only in `destroy`, which consumes it. Nothing is buffered, retried or
/// checked on this side: each operation is one call of the native library,
/// and each outcome is handed to the caller as it is.
pub struct TcpSocket {
    socket: sfTcpSocket,
}

impl View for TcpSocket {
    type V = sfTcpSocket;

    /// The handle that this wrapper owns.
    closed spec fn view(&self) -> sfTcpSocket {
        self.socket
    }
}

impl TcpSocket {
    #[verifier::type_invariant]
    spec fn holds_a_handle(&self) -> bool {
        !self.socket.is_null()
    }

    /// The call that creates a new socket. Its answer goes to `wrap`, which
    /// gives `Some(TcpSocket)` or `None`.
    pub fn new() -> (call: TcpSocketCall<'static>)
        ensures
            call == TcpSocketCall::Create,
    {
        TcpSocketCall::Create
    }

    /// The call that switches the socket to blocking mode, if `blocking` is
    /// true, or to non-blocking mode.
    ///
    /// In blocking mode, the native library does not answer a call until it
    /// has carried it out. In non-blocking mode it answers at once, and the
    /// status code tells whether it could. A new socket is in blocking mode.
    pub fn set_blocking(&mut self, blocking: bool) -> (call: TcpSocketCall<'static>)
        ensures
            final(self)@ == old(self)@,
            call == (TcpSocketCall::SetBlocking {
                socket: old(self)@,
                blocking: bool_code(blocking),
            }),
    {
        match blocking {
            true => TcpSocketCall::SetBlocking { socket: self.socket, blocking: SFTRUE },
            false => TcpSocketCall::SetBlocking { socket: self.socket, blocking: SFFALSE },
        }
    }

    /// The call that asks whether the socket is in blocking mode. Its answer
    /// goes to `is_blocking_reply`.
    pub fn is_blocking(&self) -> (call: TcpSocketCall<'static>)
        ensures
            call == (TcpSocketCall::IsBlocking { socket: self@ }),
    {
        TcpSocketCall::IsBlocking { socket: self.socket }
    }

    /// Reads the answer to `is_blocking`: true if the socket is blocking,
    /// false otherwise. An answer that is no foreign boolean is an error.
    pub fn is_blocking_reply(blocking: sfBool) -> (answer: Result<bool, ForeignError>)
        ensures
            bool_of(blocking) matches Some(known) ==> answer == Ok::<bool, ForeignError>(known),
            bool_of(blocking) is None ==> answer == Err::<bool, ForeignError>(
                ForeignError::UnknownBool(blocking),
            ),
    {
        match blocking {
            SFFALSE => Ok(false),
            SFTRUE => Ok(true),
            _ => Err(ForeignError::UnknownBool(blocking)),
        }
    }

    /// The call that asks for the local port that the socket is bound to.
    /// The native library answers with the port, or with 0 if the socket is
    /// not bound to one.
    pub fn get_local_port(&self) -> (call: TcpSocketCall<'static>)
        ensures
            call == (TcpSocketCall::GetLocalPort { socket: self@ }),
    {
        TcpSocketCall::GetLocalPort { socket: self.socket }
    }

    /// The call that asks for the address of the peer that the socket is
    /// connected to. Its answer goes to `IpAddress::wrap`.
    pub fn get_remote_address(&self) -> (call: TcpSocketCall<'static>)
        ensures
            call == (TcpSocketCall::GetRemoteAddress { socket: self@ }),
    {
        TcpSocketCall::GetRemoteAddress { socket: self.socket }
    }

    /// The call that asks for the port of the peer that the socket is
    /// connected to. The native library answers with the port, or with 0 if
    /// the socket is not connected.
    pub fn get_remote_port(&self) -> (call: TcpSocketCall<'static>)
        ensures
            call == (TcpSocketCall::GetRemotePort { socket: self@ }),
    {
        TcpSocketCall::GetRemotePort { socket: self.socket }
    }

    /// The call that connects the socket to the peer at `host` and `port`,
    /// and gives up after `timeout`. Its answer is a status code, which goes
    /// to `SocketStatus::from_code`.
    ///
    /// In blocking mode the call blocks the calling thread until the peer
    /// has answered or the time is over.
    pub fn connect(&self, host: &IpAddress, port: u16, timeout: Time) -> (call: TcpSocketCall<
        'static,
    >)
        ensures
            call == (TcpSocketCall::Connect {
                socket: self@,
                host: host@,
                port: port,
                timeout: timeout@,
            }),
    {
        TcpSocketCall::Connect {
            socket: self.socket,
            host: host.unwrap(),
            port: port,
            timeout: timeout.unwrap(),
        }
    }

    /// The call that closes the connection to the peer. It does nothing to
    /// a socket that is not connected.
    pub fn disconnect(&mut self) -> (call: TcpSocketCall<'static>)
        ensures
            final(self)@ == old(self)@,
            call == (TcpSocketCall::Disconnect { socket: old(self)@ }),
    {
        TcpSocketCall::Disconnect { socket: self.socket }
    }

    /// The call that sends the bytes of `data` to the peer, as they are. Its
    /// answer is a status code, which goes to `SocketStatus::from_code`.
    pub fn send<'a>(&self, data: &'a [i8]) -> (call: TcpSocketCall<'a>)
        ensures
            call == (TcpSocketCall::Send { socket: self@, data: data }),
    {
        TcpSocketCall::Send { socket: self.socket, data: data }
    }

    /// The call that receives at most `max_size` bytes from the peer. Its
    /// answer goes to `receive_reply`.
    ///
    /// In blocking mode the call blocks the calling thread until some bytes
    /// have come in.
    pub fn receive(&self, max_size: size_t) -> (call: TcpSocketCall<'static>)
        ensures
            call == (TcpSocketCall::Receive { socket: self@, maxSize: max_size }),
    {
        TcpSocketCall::Receive { socket: self.socket, maxSize: max_size }
    }

    /// Reads the answer to `receive`: the buffer `data` that the native
    /// library received into, the number `size` of bytes that it says it
    /// received, and the status code.
    ///
    /// Gives the bytes received, which are the first `size` bytes of the
    /// buffer, the outcome and `size`. A status code that stands for no
    /// outcome is an error, and so is a size larger than the buffer.
    pub fn receive_reply(data: Vec<i8>, size: size_t, code: sfSocketStatus) -> (answer: Result<
        (Vec<i8>, SocketStatus, size_t),
        ForeignError,
    >)
        ensures
            match receive_result(data@, size, code) {
                Ok((bytes, status, read)) => answer matches Ok((b, s, r)) && b@ == bytes && s
                    == status && r == read,
                Err(error) => answer matches Err(e) && e == error,
            },
    {
        let stat: SocketStatus = match SocketStatus::from_code(code) {
            Ok(stat) => stat,
            Err(error) => {
                return Err(error);
            },
        };
        if size > data.len() {
            return Err(ForeignError::ReceivedBeyondBuffer { received: size, capacity: data.len() });
        }
        let mut datas = data;
        datas.truncate(size);
        Ok((datas, stat, size))
    }

    /// The call that sends `packet` to the peer. Its answer is a status
    /// code, which goes to `SocketStatus::from_code`.
    pub fn send_packet(&self, packet: &Packet) -> (call: TcpSocketCall<'static>)
        ensures
            call == (TcpSocketCall::SendPacket { socket: self@, packet: packet@ }),
    {
        TcpSocketCall::SendPacket { socket: self.socket, packet: packet.unwrap() }
    }

    /// The call that receives a packet from the peer into `packet`. Its
    /// answer is a status code, which goes to `SocketStatus::from_code`.
    ///
    /// In blocking mode the call blocks the calling thread until the whole
    /// packet has come in.
    pub fn receive_packet(&self, packet: &Packet) -> (call: TcpSocketCall<'static>)
        ensures
            call == (TcpSocketCall::ReceivePacket { socket: self@, packet: packet@ }),
    {
        TcpSocketCall::ReceivePacket { socket: self.socket, packet: packet.unwrap() }
    }

    /// Gives the socket up: the call that releases it. The wrapper is
    /// consumed, so no second release can be asked for.
    pub fn destroy(self) -> (call: TcpSocketCall<'static>)
        ensures
            call == (TcpSocketCall::Destroy { socket: self@ }),
    {
        TcpSocketCall::Destroy { socket: self.socket }
    }
}

impl Wrappable<sfTcpSocket> for TcpSocket {
    /// Every handle but the null handle has a socket behind it.
    open spec fn wrappable(raw: sfTcpSocket) -> bool {
        !raw.is_null()
    }

    fn wrap(socket: sfTcpSocket) -> (wrapped: Option<TcpSocket>) {
        if socket.This == 0 {
            None
        } else {
            Some(TcpSocket { socket: socket })
        }
    }

    fn unwrap(&self) -> (raw: sfTcpSocket) {
        proof {
            use_type_invariant(self);
        }
        self.socket
    }
}

} // verus!
