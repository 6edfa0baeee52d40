//! The portmapper client: program 100000, version 2.
//!
//! The portmapper is the directory that maps a program, a version and a
//! transport protocol to the port on which that service listens. It is the
//! one service with a well-known port.
use vstd::prelude::*;
use crate::error::Error;
use crate::protocols::onc_rpc::client::{
    anonymous_call_wire,
    framed,
    refusal,
    spec_deliver,
    spec_next_reply,
    started,
    BroadcastStep,
    CallState,
    Channel,
    ChannelModel,
    Event,
    Received,
    Step,
    Yield,
};
use crate::protocols::onc_rpc::record::buffered;
use crate::protocols::onc_rpc::xdr::{be32, get_u32, lemma_be32_of_wire, put_u32, u32_wire, Xdr};
use crate::protocols::onc_rpc::{
    Broadcast,
    Datagram,
    IpProtocol,
    RpcProgram,
    RpcSocket,
    RpcStream,
    Stream,
    IPPROTO_TCP,
    IPPROTO_UDP,
};

verus! {

broadcast use crate::protocols::onc_rpc::xdr::lemma_u32_wire_len;

/// The well-known port of the portmapper.
pub const PORT: u16 = 111;

/// The program number of the portmapper.
pub const PROGRAM: u32 = 100000;

/// The version of the portmapper protocol spoken here.
pub const VERSION: u32 = 2;

/// The procedures of the portmapper that this client knows.
#[derive(Clone, Copy, Debug, PartialEq, Eq, Structural)]
pub enum Procedure {
    SetPort,
    Unset,
    GetPort,
    CallIt,
}

impl Procedure {
    /// The procedure number.
    pub open spec fn spec_number(self) -> u32 {
        match self {
            Procedure::SetPort => 1,
            Procedure::Unset => 2,
            Procedure::GetPort => 3,
            Procedure::CallIt => 5,
        }
    }
}

impl From<Procedure> for u32 {
    fn from(procedure: Procedure) -> (r: u32) {
        match procedure {
            Procedure::SetPort => 1,
            Procedure::Unset => 2,
            Procedure::GetPort => 3,
            Procedure::CallIt => 5,
        }
    }
}

impl vstd::std_specs::convert::FromSpecImpl<Procedure> for u32 {
    open spec fn obeys_from_spec() -> bool {
        true
    }

    open spec fn from_spec(procedure: Procedure) -> u32 {
        procedure.spec_number()
    }
}

/// One entry of the portmapper's directory. In a `GETPORT` call the port is
/// zero and ignored.
#[derive(Clone, Copy, Debug, PartialEq, Eq, Structural)]
pub struct Mapping {
    pub prog: u32,
    pub vers: u32,
    pub prot: u32,
    pub port: u32,
}

impl View for Mapping {
    type V = Mapping;

    open spec fn view(&self) -> Mapping {
        *self
    }
}

impl Xdr for Mapping {
    /// The protocol is TCP or UDP.
    open spec fn valid(v: Mapping) -> bool {
        v.prot == IPPROTO_TCP || v.prot == IPPROTO_UDP
    }

    open spec fn wire(v: Mapping) -> Seq<u8> {
        u32_wire(v.prog) + u32_wire(v.vers) + u32_wire(v.prot) + u32_wire(v.port)
    }

    open spec fn parse(s: Seq<u8>) -> Option<(Mapping, nat)> {
        if s.len() < 16 {
            None
        } else {
            let v = Mapping {
                prog: be32(s),
                vers: be32(s.skip(4)),
                prot: be32(s.skip(8)),
                port: be32(s.skip(12)),
            };
            if Self::valid(v) {
                Some((v, 16nat))
            } else {
                None
            }
        }
    }

    proof fn lemma_round_trip(v: Mapping, rest: Seq<u8>) {
        let s = Self::wire(v) + rest;
        let t3 = u32_wire(v.port) + rest;
        let t2 = u32_wire(v.prot) + t3;
        let t1 = u32_wire(v.vers) + t2;
        assert(s =~= u32_wire(v.prog) + t1);
        assert(s.skip(4) =~= t1);
        assert(s.skip(8) =~= t2);
        assert(s.skip(12) =~= t3);
        lemma_be32_of_wire(v.prog, t1);
        lemma_be32_of_wire(v.vers, t2);
        lemma_be32_of_wire(v.prot, t3);
        lemma_be32_of_wire(v.port, rest);
    }

    proof fn lemma_parse_bounds(s: Seq<u8>) {
    }

    fn encode(&self, out: &mut Vec<u8>) -> (r: Result<(), Error>) {
        if self.prot != IPPROTO_TCP && self.prot != IPPROTO_UDP {
            return Err(Error::Malformed);
        }
        put_u32(out, self.prog);
        put_u32(out, self.vers);
        put_u32(out, self.prot);
        put_u32(out, self.port);
        assert(out@ =~= old(out)@ + Self::wire(*self));
        Ok(())
    }

    fn decode(buf: &[u8], pos: usize) -> (r: Result<(Self, usize), Error>) {
        if pos > buf.len() || buf.len() - pos < 16 {
            return Err(Error::Malformed);
        }
        let ghost s = buf@.skip(pos as int);
        proof {
            assert(s.skip(4) =~= buf@.skip(pos + 4));
            assert(s.skip(8) =~= buf@.skip(pos + 8));
            assert(s.skip(12) =~= buf@.skip(pos + 12));
        }
        let prog = get_u32(buf, pos);
        let vers = get_u32(buf, pos + 4);
        let prot = get_u32(buf, pos + 8);
        let port = get_u32(buf, pos + 12);
        match (prog, vers, prot, port) {
            (Ok((prog, _)), Ok((vers, _)), Ok((prot, _)), Ok((port, end))) => {
                if prot != IPPROTO_TCP && prot != IPPROTO_UDP {
                    return Err(Error::Malformed);
                }
                Ok((Mapping { prog, vers, prot, port }, end))
            },
            _ => Err(Error::Malformed),
        }
    }
}

/// The arguments of a `GETPORT` call.
pub open spec fn get_port_args(prog: u32, vers: u32, ip_pro: IpProtocol) -> Mapping {
    Mapping { prog, vers, prot: ip_pro.spec_number(), port: 0 }
}

/// The port that the results of a `GETPORT` call name: one unsigned integer.
/// Zero says that the portmapper knows no such service.
pub open spec fn port_of(results: Seq<u8>) -> Result<u32, Error> {
    if results.len() >= 4 {
        Ok(be32(results))
    } else {
        Err(Error::Malformed)
    }
}

/// What a validated reply to a broadcast `GETPORT` comes to: a responder
/// that knows no such service is passed over in silence.
pub open spec fn port_item<F>(results: Seq<u8>, from: F) -> BroadcastStep<u32, F> {
    match port_of(results) {
        Ok(port) => if port == 0 {
            BroadcastStep::Skip
        } else {
            BroadcastStep::Item(Ok((port, from)))
        },
        Err(e) => BroadcastStep::Item(Err(e)),
    }
}

/// `Buf::get_u32` of bytes, on a `Bytes` that holds `results`: the number
/// that the first four bytes spell, most significant first. It panics on
/// fewer than four bytes.
#[verifier::external_body]
fn bytes_get_u32(results: &[u8]) -> (r: u32)
    requires
        results@.len() >= 4,
    ensures
        r == be32(results@),
{
    bytes::Buf::get_u32(&mut bytes::Bytes::copy_from_slice(results))
}

/// `CompatDeserializationError` of serde_xdr, the error of `from_bytes`,
/// made known so that it can be returned. Nothing is seen of its inside.
#[verifier::external_type_specification]
#[verifier::external_body]
pub struct ExCompatDeserializationError(serde_xdr::CompatDeserializationError);

/// `serde_xdr::from_bytes` at type `u32`: the number that the first four
/// bytes spell, most significant first, and an error on fewer than four.
/// Bytes behind the number are not looked at.
#[verifier::external_body]
fn xdr_u32_from_bytes(results: &[u8]) -> (r: Result<u32, serde_xdr::CompatDeserializationError>)
    ensures
        r is Ok <==> results@.len() >= 4,
        r is Ok ==> r->Ok_0 == be32(results@),
{
    serde_xdr::from_bytes::<_, u32>(results)
}

/// Reads the port out of the results of a `GETPORT` call.
pub fn decode_port(results: &[u8]) -> (r: Result<u32, Error>)
    ensures
        r == port_of(results@),
{
    if results.len() < 4 {
        return Err(Error::Malformed);
    }
    Ok(bytes_get_u32(results))
}

/// Reads the port out of one validated reply to a broadcast `GETPORT`.
pub fn decode_port_item<F>(results: &[u8], from: F) -> (r: BroadcastStep<u32, F>)
    ensures
        r == port_item(results@, from),
{
    match xdr_u32_from_bytes(results) {
        Ok(port) => {
            if port == 0 {
                BroadcastStep::Skip
            } else {
                BroadcastStep::Item(Ok((port, from)))
            }
        },
        Err(_) => BroadcastStep::Item(Err(Error::Malformed)),
    }
}

/// A portmapper client on the transport `io`.
pub struct PortMapper<S> {
    io: S,
    channel: Channel,
}

impl<S> PortMapper<S> {
    /// The transport.
    pub closed spec fn io(&self) -> S {
        self.io
    }

    /// The RPC channel: the client and what is pending on the stream.
    pub closed spec fn channel(&self) -> ChannelModel {
        self.channel@
    }

    /// A portmapper client on `io` whose first call bears the xid `xid`,
    /// which should come from a source of entropy.
    pub fn new(io: S, xid: u32) -> (r: Self)
        ensures
            r.io() == io,
            r.channel() == fresh_channel(xid),
    {
        Self { io, channel: Channel::new(PROGRAM, VERSION, xid) }
    }

    /// The transport.
    pub fn get_io(&self) -> (r: &S)
        ensures
            *r == self.io(),
    {
        &self.io
    }

    /// The transport, for sending and receiving. The RPC channel is out of
    /// reach through it.
    pub fn mut_io(&mut self) -> (r: &mut S)
        ensures
            *r == old(self).io(),
            final(self).io() == *final(r),
            final(self).channel() == old(self).channel(),
    {
        &mut self.io
    }

    /// What the client is waiting for.
    pub fn state(&self) -> (r: CallState)
        ensures
            r == self.channel().rpc.state,
    {
        self.channel.state()
    }
}

/// How long to wait for a connection, in milliseconds: what the caller
/// asks for, else one second.
pub open spec fn spec_connect_timeout(asked: Option<u64>) -> u64 {
    match asked {
        Some(ms) => ms,
        None => 1000,
    }
}

/// How long to wait for a connection, in milliseconds.
pub fn connect_timeout(asked: Option<u64>) -> (r: u64)
    ensures
        r == spec_connect_timeout(asked),
{
    match asked {
        Some(ms) => ms,
        None => 1000,
    }
}

impl<T> PortMapper<Stream<T>> {
    /// A portmapper client on an established TCP connection: calls travel as
    /// records.
    pub fn new_tcp(io: T, xid: u32) -> (r: Self)
        ensures
            r.io() == (Stream { io }),
            r.channel() == fresh_channel(xid),
    {
        Self::new(Stream { io }, xid)
    }
}

impl<T> PortMapper<Datagram<T>> {
    /// A portmapper client on a UDP socket that is connected to the
    /// portmapper: each call is one datagram.
    pub fn new_udp(io: T, xid: u32) -> (r: Self)
        ensures
            r.io() == (Datagram { io }),
            r.channel() == fresh_channel(xid),
    {
        Self::new(Datagram { io }, xid)
    }
}

impl<T> PortMapper<Broadcast<T>> {
    /// A portmapper client on a UDP socket that is bound and not connected,
    /// for broadcast discovery.
    pub fn new_broadcaster(io: T, xid: u32) -> (r: Self)
        ensures
            r.io() == (Broadcast { io }),
            r.channel() == fresh_channel(xid),
    {
        Self::new(Broadcast { io }, xid)
    }
}

/// The channel of a portmapper client that has made no call yet.
pub open spec fn fresh_channel(xid: u32) -> ChannelModel {
    ChannelModel {
        rpc: crate::protocols::onc_rpc::client::ClientModel {
            prog: PROGRAM,
            vers: VERSION,
            next: xid,
            state: CallState::Idle,
        },
        pending: Seq::empty(),
    }
}

impl<S> RpcProgram for PortMapper<S> {
    const PROGRAM: u32 = 100000;

    const VERSION: u32 = 2;

    type IO = S;

    fn buffer(&self) -> (r: bytes::BytesMut)
        ensures
            buffered(r) == self.channel().pending,
    {
        self.channel.buffer()
    }

    fn get_io(&self) -> (r: &S)
        ensures
            *r == self.io(),
    {
        &self.io
    }

    fn mut_io(&mut self) -> (r: &mut S)
        ensures
            *r == old(self).io(),
            final(self).io() == *final(r),
            final(self).channel() == old(self).channel(),
    {
        &mut self.io
    }
}

impl<S: RpcStream> PortMapper<S> {
    /// Starts a `GETPORT` call for version `vers` of program `prog` over
    /// `ip_pro`, and returns what to hand to the transport. What the
    /// transport then delivers goes to `port_reply`.
    pub fn get_port(&mut self, prog: u32, vers: u32, ip_pro: IpProtocol) -> (r: Result<
        Vec<u8>,
        Error,
    >)
        ensures
            r is Ok <==> old(self).channel().rpc.state != CallState::Closed,
            r is Ok ==> r->Ok_0@ == framed(
                S::framing(),
                anonymous_call_wire(
                    old(self).channel().rpc,
                    Procedure::GetPort.spec_number(),
                    Mapping::wire(get_port_args(prog, vers, ip_pro)),
                ),
            ),
            r is Ok ==> final(self).channel() == (ChannelModel {
                rpc: started(
                    old(self).channel().rpc,
                    CallState::Awaiting(old(self).channel().rpc.next),
                ),
                ..old(self).channel()
            }),
            r is Err ==> final(self).channel() == old(self).channel(),
            r is Err ==> r->Err_0 == Error::ChannelClosed,
            final(self).io() == old(self).io(),
    {
        let framing = self.io.framing_of();
        let args = Mapping { prog, vers, prot: ip_pro.number(), port: 0 };
        self.channel.call_anonymously(framing, u32::from(Procedure::GetPort), &args)
    }

    /// Starts a `GETPORT` call for the TCP port of a service.
    pub fn tcp_port(&mut self, prog: u32, vers: u32) -> (r: Result<Vec<u8>, Error>)
        ensures
            r is Ok <==> old(self).channel().rpc.state != CallState::Closed,
            r is Ok ==> r->Ok_0@ == framed(
                S::framing(),
                anonymous_call_wire(
                    old(self).channel().rpc,
                    Procedure::GetPort.spec_number(),
                    Mapping::wire(get_port_args(prog, vers, IpProtocol::Tcp)),
                ),
            ),
            r is Ok ==> final(self).channel() == (ChannelModel {
                rpc: started(
                    old(self).channel().rpc,
                    CallState::Awaiting(old(self).channel().rpc.next),
                ),
                ..old(self).channel()
            }),
            r is Err ==> final(self).channel() == old(self).channel(),
            r is Err ==> r->Err_0 == Error::ChannelClosed,
            final(self).io() == old(self).io(),
    {
        self.get_port(prog, vers, IpProtocol::Tcp)
    }

    /// Starts a `GETPORT` call for the UDP port of a service.
    pub fn udp_port(&mut self, prog: u32, vers: u32) -> (r: Result<Vec<u8>, Error>)
        ensures
            r is Ok <==> old(self).channel().rpc.state != CallState::Closed,
            r is Ok ==> r->Ok_0@ == framed(
                S::framing(),
                anonymous_call_wire(
                    old(self).channel().rpc,
                    Procedure::GetPort.spec_number(),
                    Mapping::wire(get_port_args(prog, vers, IpProtocol::Udp)),
                ),
            ),
            r is Ok ==> final(self).channel() == (ChannelModel {
                rpc: started(
                    old(self).channel().rpc,
                    CallState::Awaiting(old(self).channel().rpc.next),
                ),
                ..old(self).channel()
            }),
            r is Err ==> final(self).channel() == old(self).channel(),
            r is Err ==> r->Err_0 == Error::ChannelClosed,
            final(self).io() == old(self).io(),
    {
        self.get_port(prog, vers, IpProtocol::Udp)
    }

    /// Judges what the transport delivered after `get_port`: receive again,
    /// or the call is over with the port or an error. A port of zero says
    /// that the portmapper knows no such service.
    pub fn port_reply(&mut self, event: Event) -> (r: Step<u32>)
        ensures
            final(self).channel() == spec_deliver(old(self).channel(), S::framing(), event).0,
            final(self).io() == old(self).io(),
            r == match spec_deliver(old(self).channel(), S::framing(), event).1 {
                None => Step::Again,
                Some(Ok(results)) => Step::Done(port_of(results)),
                Some(Err(e)) => Step::Done(Err(e)),
            },
    {
        let framing = self.io.framing_of();
        match self.channel.deliver(framing, event) {
            Step::Again => Step::Again,
            Step::Done(Ok(results)) => Step::Done(decode_port(results.as_slice())),
            Step::Done(Err(e)) => Step::Done(Err(e)),
        }
    }
}

impl<S: RpcSocket> PortMapper<S> {
    /// Starts a broadcast `GETPORT` and returns the datagram to send to the
    /// broadcast or multicast address. Each thing that the socket then
    /// delivers goes to `next_port`.
    pub fn collect_port(&mut self, prog: u32, vers: u32, ip_pro: IpProtocol) -> (r: Result<
        Vec<u8>,
        Error,
    >)
        ensures
            r is Ok <==> old(self).channel().rpc.state != CallState::Closed,
            r is Ok ==> r->Ok_0@ == anonymous_call_wire(
                old(self).channel().rpc,
                Procedure::GetPort.spec_number(),
                Mapping::wire(get_port_args(prog, vers, ip_pro)),
            ),
            r is Ok ==> final(self).channel() == (ChannelModel {
                rpc: started(
                    old(self).channel().rpc,
                    CallState::Broadcasting(old(self).channel().rpc.next),
                ),
                ..old(self).channel()
            }),
            r is Err ==> final(self).channel() == old(self).channel(),
            r is Err ==> r->Err_0 == Error::ChannelClosed,
            final(self).io() == old(self).io(),
    {
        let args = Mapping { prog, vers, prot: ip_pro.number(), port: 0 };
        self.channel.broadcast_anonymously(u32::from(Procedure::GetPort), &args)
    }

    /// Starts a broadcast `GETPORT` for the TCP port of a service.
    pub fn collet_tcp_port(&mut self, prog: u32, vers: u32) -> (r: Result<Vec<u8>, Error>)
        ensures
            r is Ok <==> old(self).channel().rpc.state != CallState::Closed,
            r is Ok ==> r->Ok_0@ == anonymous_call_wire(
                old(self).channel().rpc,
                Procedure::GetPort.spec_number(),
                Mapping::wire(get_port_args(prog, vers, IpProtocol::Tcp)),
            ),
            r is Ok ==> final(self).channel() == (ChannelModel {
                rpc: started(
                    old(self).channel().rpc,
                    CallState::Broadcasting(old(self).channel().rpc.next),
                ),
                ..old(self).channel()
            }),
            r is Err ==> final(self).channel() == old(self).channel(),
            r is Err ==> r->Err_0 == Error::ChannelClosed,
            final(self).io() == old(self).io(),
    {
        self.collect_port(prog, vers, IpProtocol::Tcp)
    }

    /// Starts a broadcast `GETPORT` for the UDP port of a service.
    pub fn collet_udp_port(&mut self, prog: u32, vers: u32) -> (r: Result<Vec<u8>, Error>)
        ensures
            r is Ok <==> old(self).channel().rpc.state != CallState::Closed,
            r is Ok ==> r->Ok_0@ == anonymous_call_wire(
                old(self).channel().rpc,
                Procedure::GetPort.spec_number(),
                Mapping::wire(get_port_args(prog, vers, IpProtocol::Udp)),
            ),
            r is Ok ==> final(self).channel() == (ChannelModel {
                rpc: started(
                    old(self).channel().rpc,
                    CallState::Broadcasting(old(self).channel().rpc.next),
                ),
                ..old(self).channel()
            }),
            r is Err ==> final(self).channel() == old(self).channel(),
            r is Err ==> r->Err_0 == Error::ChannelClosed,
            final(self).io() == old(self).io(),
    {
        self.collect_port(prog, vers, IpProtocol::Udp)
    }

    /// Judges what the socket delivered after `collect_port`: a port and its
    /// responder, an error that one reply ran into, a datagram to pass over,
    /// or the end of the stream, which a timeout brings.
    pub fn next_port<F>(&mut self, received: Received<F>) -> (r: BroadcastStep<u32, F>)
        ensures
            final(self).channel() == (ChannelModel {
                rpc: spec_next_reply(old(self).channel().rpc, received).0,
                ..old(self).channel()
            }),
            final(self).io() == old(self).io(),
            r == match spec_next_reply(old(self).channel().rpc, received).1 {
                Yield::Item(Ok((results, from))) => port_item(results, from),
                Yield::Item(Err(e)) => BroadcastStep::Item(Err(e)),
                Yield::Skip => BroadcastStep::Skip,
                Yield::End => BroadcastStep::End,
            },
    {
        match self.channel.next_reply(received) {
            BroadcastStep::Item(Ok((results, from))) => decode_port_item(results.as_slice(), from),
            BroadcastStep::Item(Err(e)) => BroadcastStep::Item(Err(e)),
            BroadcastStep::Skip => BroadcastStep::Skip,
            BroadcastStep::End => BroadcastStep::End,
        }
    }
}

} // verus!
