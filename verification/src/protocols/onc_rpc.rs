//! ONC RPC version 2 and the programs layered on it.
use vstd::prelude::*;
use crate::protocols::onc_rpc::client::Framing;

pub mod client;
pub mod message;
pub mod port_mapper;
pub mod vxi11;
pub mod record;
pub mod xdr;

verus! {

/// IP protocol number of TCP.
pub const IPPROTO_TCP: u32 = 6;

/// IP protocol number of UDP.
pub const IPPROTO_UDP: u32 = 17;

/// The transport protocol that a service is reached by.
#[derive(Clone, Copy, Debug, PartialEq, Eq, Structural)]
pub enum IpProtocol {
    Tcp,
    Udp,
}

impl IpProtocol {
    /// The IP protocol number.
    pub open spec fn spec_number(self) -> u32 {
        match self {
            IpProtocol::Tcp => IPPROTO_TCP,
            IpProtocol::Udp => IPPROTO_UDP,
        }
    }

    /// The IP protocol number.
    pub fn number(self) -> (r: u32)
        ensures
            r == self.spec_number(),
    {
        match self {
            IpProtocol::Tcp => IPPROTO_TCP,
            IpProtocol::Udp => IPPROTO_UDP,
        }
    }
}

/// A program that is spoken to over some transport: its number, its version,
/// and access to the transport and to the buffer of what arrived on it.
pub trait RpcProgram {
    /// The program number.
    const PROGRAM: u32;

    /// The program version.
    const VERSION: u32;

    /// The transport.
    type IO;

    /// A copy of the buffer of pending stream bytes.
    fn buffer(&self) -> bytes::BytesMut;

    /// The transport.
    fn get_io(&self) -> &Self::IO;

    /// The transport, for sending and receiving.
    fn mut_io(&mut self) -> &mut Self::IO;
}

/// A connected transport: calls go to one peer and replies come from it.
pub trait RpcStream {
    /// How this kind of transport delimits messages.
    spec fn framing() -> Framing;

    /// How this transport delimits messages.
    fn framing_of(&self) -> (r: Framing)
        ensures
            r == Self::framing(),
    ;
}

/// An unconnected datagram transport, on which a call can be broadcast and
/// replies come from anywhere.
pub trait RpcSocket {

}

/// A connected byte stream, such as a TCP connection: messages travel as
/// records.
pub struct Stream<T> {
    pub io: T,
}

/// A connected datagram socket, such as a UDP socket after `connect`.
pub struct Datagram<T> {
    pub io: T,
}

/// A datagram socket that is bound and not connected.
pub struct Broadcast<T> {
    pub io: T,
}

impl<T> RpcStream for Stream<T> {
    open spec fn framing() -> Framing {
        Framing::RecordMarked
    }

    fn framing_of(&self) -> (r: Framing) {
        Framing::RecordMarked
    }
}

impl<T> RpcStream for Datagram<T> {
    open spec fn framing() -> Framing {
        Framing::Datagram
    }

    fn framing_of(&self) -> (r: Framing) {
        Framing::Datagram
    }
}

impl<T> RpcSocket for Broadcast<T> {

}

} // verus!
