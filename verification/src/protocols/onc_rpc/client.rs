//! The RPC client as a state machine.
//!
//! The client allocates transaction identifiers, builds call messages and
//! judges what the transport delivers. It never touches a socket: a call
//! hands back the message to send, and each thing received is handed in as an
//! event and answered with a step.
use vstd::prelude::*;
use vstd::slice::slice_subrange;
use crate::error::{Error, IoSource, RejectReason};
use crate::protocols::onc_rpc::message::{CallHeader, CallHeaderView, OpaqueAuth, ReplyHeader, ReplyStatus};
use crate::protocols::onc_rpc::record::{
    buffer_clone,
    buffer_new,
    buffered,
    push_stream,
    reassemble,
    record_wire,
    take_record,
    uniform_schedule,
    write_record,
    Reassembly,
    DEFAULT_FRAGMENT,
};
use crate::protocols::onc_rpc::xdr::{be32, get_u32, Xdr};

verus! {

/// How a transport delimits messages.
#[derive(Clone, Copy, Debug, PartialEq, Eq, Structural)]
pub enum Framing {
    /// A byte stream that carries record-marked messages.
    RecordMarked,
    /// Datagrams, one message each.
    Datagram,
}

/// What a client is waiting for.
#[derive(Clone, Copy, Debug, PartialEq, Eq, Structural)]
pub enum CallState {
    /// No call is in flight.
    Idle,
    /// A call with this xid was sent and its reply is awaited.
    Awaiting(u32),
    /// A broadcast with this xid was sent and replies are collected.
    Broadcasting(u32),
    /// The client was torn down; it refuses every operation.
    Closed,
}

/// What a transport delivered while a reply was awaited.
#[derive(Clone, Debug, PartialEq, Eq)]
pub enum Event {
    /// Bytes that arrived: one whole message, or, where a channel puts the
    /// records of a stream together, whatever a read returned.
    Message(Vec<u8>),
    /// The deadline elapsed first.
    Timeout,
    /// The peer closed the connection.
    Closed,
    /// The socket layer failed with this operating-system code.
    Failed(i32),
}

/// What a broadcast socket delivered while replies were collected.
#[derive(Clone, Debug, PartialEq, Eq)]
pub enum Received<F> {
    /// One datagram and where it came from.
    Datagram(Vec<u8>, F),
    /// The deadline elapsed first.
    Timeout,
    /// The socket layer failed with this operating-system code.
    Failed(i32),
}

/// What to do after an event.
#[derive(Debug, PartialEq, Eq)]
pub enum Step<T> {
    /// Nothing is settled yet: receive again.
    Again,
    /// The call is over, with this outcome.
    Done(Result<T, Error>),
}

/// What one event of a broadcast comes to.
#[derive(Debug, PartialEq, Eq)]
pub enum BroadcastStep<T, F> {
    /// An element of the stream: a validated reply and its sender, or the error
    /// that one reply ran into. The stream goes on.
    Item(Result<(T, F), Error>),
    /// A datagram that answers another call: dropped, the stream goes on.
    Skip,
    /// The stream is over.
    End,
}

/// An RPC client for one program on one transport.
pub struct RpcClient {
    prog: u32,
    vers: u32,
    next: u32,
    state: CallState,
}

/// What an `RpcClient` holds.
pub struct ClientModel {
    /// The program that calls are addressed to.
    pub prog: u32,
    /// The version of that program.
    pub vers: u32,
    /// The xid that the next call will bear.
    pub next: u32,
    /// What the client is waiting for.
    pub state: CallState,
}

impl View for RpcClient {
    type V = ClientModel;

    closed spec fn view(&self) -> ClientModel {
        ClientModel { prog: self.prog, vers: self.vers, next: self.next, state: self.state }
    }
}

/// The xid that a client seeded with `seed` gives to its call number `calls`,
/// counting from zero.
pub open spec fn xid_after(seed: u32, calls: nat) -> u32 {
    ((seed + calls) % 0x1_0000_0000) as u32
}

/// Counting on from an xid is counting on from the seed.
pub proof fn lemma_xid_after_add(seed: u32, a: nat, b: nat)
    ensures
        xid_after(xid_after(seed, a), b) == xid_after(seed, a + b),
{
}

/// No xid is used twice within 2^32 - 1 calls of one client.
pub proof fn lemma_xids_distinct(seed: u32, i: nat, j: nat)
    requires
        i < 0xffff_ffff,
        j < 0xffff_ffff,
        i != j,
    ensures
        xid_after(seed, i) != xid_after(seed, j),
{
}

/// The xid that a message bears, if it is long enough to bear one.
pub open spec fn message_xid(msg: Seq<u8>) -> Option<u32> {
    if msg.len() >= 4 {
        Some(be32(msg))
    } else {
        None
    }
}

/// What a reply with the awaited xid comes to: the procedure's results where
/// the call was accepted and succeeded, else why it was not.
pub open spec fn reply_result(msg: Seq<u8>) -> Result<Seq<u8>, Error> {
    match ReplyHeader::parse(msg) {
        None => Err(Error::Malformed),
        Some((header, n)) => match header.status {
            ReplyStatus::Success => Ok(msg.skip(n as int)),
            ReplyStatus::Failed(stat) => Err(Error::RpcError { stat }),
            ReplyStatus::Denied(reason) => Err(Error::RpcRejected { reason }),
        },
    }
}

/// Whether an outcome ends the client for good: a server that speaks another
/// RPC version will refuse every further call.
pub open spec fn is_fatal(outcome: Result<Seq<u8>, Error>) -> bool {
    outcome matches Err(Error::RpcRejected { reason: RejectReason::RpcMismatch { .. } })
}

/// The header of the call that a client in state `c` makes next.
pub open spec fn next_header(
    c: ClientModel,
    proc: u32,
    cred: OpaqueAuth,
    verf: OpaqueAuth,
) -> CallHeaderView {
    CallHeaderView { xid: c.next, prog: c.prog, vers: c.vers, proc, cred: cred@, verf: verf@ }
}

/// The client after a message has arrived, and what the message settles. A
/// message that bears the awaited xid ends the call. Any other is dropped on
/// a datagram transport, and on a stream shows that the stream is out of
/// step, which closes the client.
pub open spec fn spec_on_message(c: ClientModel, framing: Framing, msg: Seq<u8>) -> (
    ClientModel,
    Option<Result<Seq<u8>, Error>>,
) {
    if c.state == CallState::Closed {
        (c, Some(Err(Error::ChannelClosed)))
    } else if c.state is Awaiting && message_xid(msg) == Some(c.state->Awaiting_0) {
        let outcome = reply_result(msg);
        (
            ClientModel {
                state: if is_fatal(outcome) {
                    CallState::Closed
                } else {
                    CallState::Idle
                },
                ..c
            },
            Some(outcome),
        )
    } else {
        match framing {
            Framing::Datagram => (c, None),
            Framing::RecordMarked => (
                ClientModel { state: CallState::Closed, ..c },
                Some(Err(Error::Framing)),
            ),
        }
    }
}

/// The client after an event, and what the event settles: nothing (receive
/// again), or the outcome of the call.
pub open spec fn spec_receive(c: ClientModel, framing: Framing, event: Event) -> (
    ClientModel,
    Option<Result<Seq<u8>, Error>>,
) {
    if c.state == CallState::Closed {
        (c, Some(Err(Error::ChannelClosed)))
    } else {
        match event {
            Event::Message(m) => spec_on_message(c, framing, m@),
            Event::Timeout => (ClientModel { state: CallState::Idle, ..c }, Some(Err(Error::Timeout))),
            Event::Closed => (
                ClientModel { state: CallState::Closed, ..c },
                Some(Err(Error::ChannelClosed)),
            ),
            Event::Failed(code) => (
                ClientModel { state: CallState::Idle, ..c },
                Some(Err(Error::Io { source: IoSource::Os { code } })),
            ),
        }
    }
}

/// A message that does not bear the awaited xid is dropped on a datagram
/// transport, where the call goes on as if nothing had arrived; on a stream
/// it ends the call with a framing error and closes the client.
pub proof fn lemma_unknown_xid(c: ClientModel, xid: u32, msg: Seq<u8>)
    requires
        c.state == CallState::Awaiting(xid),
        message_xid(msg) != Some(xid),
    ensures
        spec_on_message(c, Framing::Datagram, msg) == (c, None::<Result<Seq<u8>, Error>>),
        spec_on_message(c, Framing::RecordMarked, msg) == (
            ClientModel { state: CallState::Closed, ..c },
            Some(Err::<Seq<u8>, Error>(Error::Framing)),
        ),
{
}

/// A deadline that elapses ends the call and leaves the xid counter where it
/// was: the next call bears the next xid.
pub proof fn lemma_timeout_keeps_counter(c: ClientModel, framing: Framing)
    requires
        c.state != CallState::Closed,
    ensures
        spec_receive(c, framing, Event::Timeout) == (
            ClientModel { state: CallState::Idle, ..c },
            Some(Err::<Seq<u8>, Error>(Error::Timeout)),
        ),
{
}

/// What one event of a broadcast comes to, in the model.
pub enum Yield<F> {
    Item(Result<(Seq<u8>, F), Error>),
    Skip,
    End,
}

/// The client after one event of a broadcast, and what the event comes to.
pub open spec fn spec_next_reply<F>(c: ClientModel, received: Received<F>) -> (
    ClientModel,
    Yield<F>,
) {
    match c.state {
        CallState::Broadcasting(xid) => match received {
            Received::Datagram(m, from) => if message_xid(m@) == Some(xid) {
                (
                    c,
                    Yield::Item(
                        match reply_result(m@) {
                            Ok(results) => Ok((results, from)),
                            Err(e) => Err(e),
                        },
                    ),
                )
            } else {
                (c, Yield::Skip)
            },
            Received::Timeout => (ClientModel { state: CallState::Idle, ..c }, Yield::End),
            Received::Failed(code) => (
                c,
                Yield::Item(Err(Error::Io { source: IoSource::Os { code } })),
            ),
        },
        _ => (c, Yield::End),
    }
}

/// The client after a run of broadcast events.
pub open spec fn after_replies<F>(c: ClientModel, events: Seq<Received<F>>) -> ClientModel
    decreases events.len(),
{
    if events.len() == 0 {
        c
    } else {
        spec_next_reply(after_replies(c, events.drop_last()), events.last()).0
    }
}

/// A broadcast ends: once the socket has signalled a timeout the client
/// collects no more, and from then on every event comes to `End` and changes
/// nothing.
pub proof fn lemma_broadcast_terminates<F>(
    c: ClientModel,
    events: Seq<Received<F>>,
    k: int,
    later: Received<F>,
)
    requires
        0 <= k < events.len(),
        events[k] is Timeout,
    ensures
        !(after_replies(c, events).state is Broadcasting),
        spec_next_reply(after_replies(c, events), later) == (after_replies(c, events), Yield::<F>::End),
    decreases events.len(),
{
    let before = after_replies(c, events.drop_last());
    if k == events.len() - 1 {
    } else {
        assert(events.drop_last()[k] == events[k]);
        lemma_broadcast_terminates(c, events.drop_last(), k, events.last());
    }
}

/// Every reply that a broadcast yields bears the xid of the broadcast and is
/// an accepted, successful reply; what is yielded are the results behind its
/// header.
pub proof fn lemma_broadcast_items_validated<F>(c: ClientModel, received: Received<F>)
    ensures
        spec_next_reply(c, received).1 matches Yield::Item(Ok((results, from))) ==> {
            &&& c.state is Broadcasting
            &&& received matches Received::Datagram(m, f)
            &&& f == from
            &&& message_xid(m@) == Some(c.state->Broadcasting_0)
            &&& ReplyHeader::parse(m@) matches Some((header, n))
            &&& header.xid == c.state->Broadcasting_0
            &&& header.status == ReplyStatus::Success
            &&& results == m@.skip(n as int)
        },
{
}

/// Judges a message against the xid of the call in flight: nothing where the
/// message bears another xid or none, else what the reply comes to.
pub fn validate_reply(xid: u32, msg: &[u8]) -> (r: Option<Result<Vec<u8>, Error>>)
    ensures
        message_xid(msg@) != Some(xid) ==> r is None,
        message_xid(msg@) == Some(xid) ==> match reply_result(msg@) {
            Ok(results) => r matches Some(Ok(v)) && v@ == results,
            Err(e) => r == Some(Err::<Vec<u8>, Error>(e)),
        },
{
    assert(msg@.skip(0) =~= msg@);
    match get_u32(msg, 0) {
        Ok((found, _)) => {
            if found != xid {
                return None;
            }
        },
        Err(_) => {
            return None;
        },
    }
    match ReplyHeader::decode(msg, 0) {
        Ok((header, n)) => match header.status {
            ReplyStatus::Success => {
                proof {
                    ReplyHeader::lemma_parse_bounds(msg@);
                }
                let mut results: Vec<u8> = Vec::new();
                results.extend_from_slice(slice_subrange(msg, n, msg.len()));
                assert(results@ =~= msg@.skip(n as int));
                Some(Ok(results))
            },
            ReplyStatus::Failed(stat) => Some(Err(Error::RpcError { stat })),
            ReplyStatus::Denied(reason) => Some(Err(Error::RpcRejected { reason })),
        },
        Err(_) => Some(Err(Error::Malformed)),
    }
}

impl RpcClient {
    /// A client for version `vers` of program `prog` whose first call bears
    /// the xid `seed`. The seed should come from a source of entropy.
    pub fn new(prog: u32, vers: u32, seed: u32) -> (r: RpcClient)
        ensures
            r@ == (ClientModel { prog, vers, next: seed, state: CallState::Idle }),
    {
        RpcClient { prog, vers, next: seed, state: CallState::Idle }
    }

    /// A client for the program that `P` describes: the program number and
    /// the version are taken from the description.
    pub fn for_program<P: crate::protocols::onc_rpc::RpcProgram>(seed: u32) -> (r: RpcClient)
        ensures
            r@ == (ClientModel {
                prog: P::PROGRAM,
                vers: P::VERSION,
                next: seed,
                state: CallState::Idle,
            }),
    {
        RpcClient::new(P::PROGRAM, P::VERSION, seed)
    }

    /// The program that calls are addressed to.
    pub fn program(&self) -> (r: u32)
        ensures
            r == self@.prog,
    {
        self.prog
    }

    /// The version of the program.
    pub fn version(&self) -> (r: u32)
        ensures
            r == self@.vers,
    {
        self.vers
    }

    /// What the client is waiting for.
    pub fn state(&self) -> (r: CallState)
        ensures
            r == self@.state,
    {
        self.state
    }

    /// Allocates the next xid. The counter moves on by one and wraps at 2^32;
    /// it never moves back.
    pub fn next_xid(&mut self) -> (xid: u32)
        ensures
            xid == old(self)@.next,
            final(self)@ == (ClientModel { next: xid_after(xid, 1), ..old(self)@ }),
    {
        let xid: u32 = self.next;
        self.next = if xid == 0xffff_ffff {
            0
        } else {
            xid + 1
        };
        xid
    }

    /// Starts a call of procedure `proc` and returns the call message, bare of
    /// any record marking. A closed client refuses. Arguments or credentials
    /// that have no encoding are refused and use up no xid.
    pub fn call<A: Xdr>(&mut self, proc: u32, cred: OpaqueAuth, verf: OpaqueAuth, args: &A) -> (r:
        Result<Vec<u8>, Error>)
        ensures
            r is Ok <==> old(self)@.state != CallState::Closed && A::valid(args@)
                && OpaqueAuth::valid(cred@) && OpaqueAuth::valid(verf@),
            r is Ok ==> r->Ok_0@ == CallHeader::wire(next_header(old(self)@, proc, cred, verf))
                + A::wire(args@),
            r is Ok ==> final(self)@ == started(old(self)@, CallState::Awaiting(old(self)@.next)),
            r is Err ==> final(self)@ == old(self)@,
            r is Err ==> r->Err_0 == refusal(old(self)@),
    {
        match self.state {
            CallState::Closed => {
                return Err(Error::ChannelClosed);
            },
            _ => {},
        }
        let mut msg: Vec<u8> = Vec::new();
        let header = CallHeader { xid: self.next, prog: self.prog, vers: self.vers, proc, cred, verf };
        match header.encode(&mut msg) {
            Ok(()) => {},
            Err(e) => {
                return Err(e);
            },
        }
        match args.encode(&mut msg) {
            Ok(()) => {},
            Err(e) => {
                return Err(e);
            },
        }
        let xid = self.next_xid();
        self.state = CallState::Awaiting(xid);
        Ok(msg)
    }

    /// Starts a call with no authentication: credentials and verifier are both
    /// `AUTH_NONE`.
    pub fn call_anonymously<A: Xdr>(&mut self, proc: u32, args: &A) -> (r: Result<Vec<u8>, Error>)
        ensures
            r is Ok <==> old(self)@.state != CallState::Closed && A::valid(args@),
            r is Ok ==> r->Ok_0@ == anonymous_call_wire(old(self)@, proc, A::wire(args@)),
            r is Ok ==> final(self)@ == started(old(self)@, CallState::Awaiting(old(self)@.next)),
            r is Err ==> final(self)@ == old(self)@,
            r is Err ==> r->Err_0 == refusal(old(self)@),
    {
        self.call(proc, OpaqueAuth::none(), OpaqueAuth::none(), args)
    }

    /// Starts a broadcast of procedure `proc` with no authentication and
    /// returns the datagram to send. Replies are then judged by `next_reply`.
    pub fn broadcast_anonymously<A: Xdr>(&mut self, proc: u32, args: &A) -> (r: Result<
        Vec<u8>,
        Error,
    >)
        ensures
            r is Ok <==> old(self)@.state != CallState::Closed && A::valid(args@),
            r is Ok ==> r->Ok_0@ == anonymous_call_wire(old(self)@, proc, A::wire(args@)),
            r is Ok ==> final(self)@ == started(
                old(self)@,
                CallState::Broadcasting(old(self)@.next),
            ),
            r is Err ==> final(self)@ == old(self)@,
            r is Err ==> r->Err_0 == refusal(old(self)@),
    {
        let xid: u32 = self.next;
        match self.call(proc, OpaqueAuth::none(), OpaqueAuth::none(), args) {
            Ok(msg) => {
                self.state = CallState::Broadcasting(xid);
                Ok(msg)
            },
            Err(e) => Err(e),
        }
    }

    /// Judges what the transport delivered for the call in flight. On a
    /// datagram transport a message with another xid is dropped and the call
    /// goes on; on a stream it means that the stream is out of step, which
    /// ends the call with a framing error and closes the client.
    pub fn receive(&mut self, framing: Framing, event: Event) -> (r: Step<Vec<u8>>)
        ensures
            final(self)@ == spec_receive(old(self)@, framing, event).0,
            match spec_receive(old(self)@, framing, event).1 {
                None => r is Again,
                Some(Ok(results)) => r matches Step::Done(Ok(v)) && v@ == results,
                Some(Err(e)) => r == Step::Done(Err::<Vec<u8>, Error>(e)),
            },
    {
        match self.state {
            CallState::Closed => {
                return Step::Done(Err(Error::ChannelClosed));
            },
            _ => {},
        }
        match event {
            Event::Message(m) => {
                let judged = match self.state {
                    CallState::Awaiting(xid) => validate_reply(xid, m.as_slice()),
                    _ => None,
                };
                match judged {
                    Some(outcome) => {
                        self.state = match outcome {
                            Err(Error::RpcRejected { reason: RejectReason::RpcMismatch { .. } }) => {
                                CallState::Closed
                            },
                            _ => CallState::Idle,
                        };
                        Step::Done(outcome)
                    },
                    None => match framing {
                        Framing::Datagram => Step::Again,
                        Framing::RecordMarked => {
                            self.state = CallState::Closed;
                            Step::Done(Err(Error::Framing))
                        },
                    },
                }
            },
            Event::Timeout => {
                self.state = CallState::Idle;
                Step::Done(Err(Error::Timeout))
            },
            Event::Closed => {
                self.state = CallState::Closed;
                Step::Done(Err(Error::ChannelClosed))
            },
            Event::Failed(code) => {
                self.state = CallState::Idle;
                Step::Done(Err(Error::Io { source: IoSource::Os { code } }))
            },
        }
    }

    /// Judges what a broadcast socket delivered. A timeout ends the stream;
    /// a reply that fails validation is an element of its own and the stream
    /// goes on.
    pub fn next_reply<F>(&mut self, received: Received<F>) -> (r: BroadcastStep<Vec<u8>, F>)
        ensures
            final(self)@ == spec_next_reply(old(self)@, received).0,
            match spec_next_reply(old(self)@, received).1 {
                Yield::Item(Ok((results, from))) => r matches BroadcastStep::Item(Ok((v, f)))
                    && v@ == results && f == from,
                Yield::Item(Err(e)) => r matches BroadcastStep::Item(Err(x)) && x == e,
                Yield::Skip => r is Skip,
                Yield::End => r is End,
            },
    {
        let xid: u32 = match self.state {
            CallState::Broadcasting(xid) => xid,
            _ => {
                return BroadcastStep::End;
            },
        };
        match received {
            Received::Datagram(m, from) => match validate_reply(xid, m.as_slice()) {
                Some(Ok(results)) => BroadcastStep::Item(Ok((results, from))),
                Some(Err(e)) => BroadcastStep::Item(Err(e)),
                None => BroadcastStep::Skip,
            },
            Received::Timeout => {
                self.state = CallState::Idle;
                BroadcastStep::End
            },
            Received::Failed(code) => BroadcastStep::Item(
                Err(Error::Io { source: IoSource::Os { code } }),
            ),
        }
    }

    /// Tears the client down. Every later operation fails with `ChannelClosed`.
    pub fn close(&mut self)
        ensures
            final(self)@ == (ClientModel { state: CallState::Closed, ..old(self)@ }),
    {
        self.state = CallState::Closed;
    }
}

/// The client after it has started a call: the xid counter has moved on by
/// one and the state says what is awaited.
pub open spec fn started(c: ClientModel, state: CallState) -> ClientModel {
    ClientModel { next: xid_after(c.next, 1), state, ..c }
}

/// Why a client refuses to start a call: it is closed, or else what it was
/// given has no encoding.
pub open spec fn refusal(c: ClientModel) -> Error {
    if c.state == CallState::Closed {
        Error::ChannelClosed
    } else {
        Error::Malformed
    }
}

/// The message of an anonymous call: the header with the client's next xid
/// and `AUTH_NONE` twice, then the encoded arguments.
pub open spec fn anonymous_call_wire(c: ClientModel, proc: u32, args: Seq<u8>) -> Seq<u8> {
    CallHeader::wire(
        CallHeaderView {
            xid: c.next,
            prog: c.prog,
            vers: c.vers,
            proc,
            cred: OpaqueAuth::spec_none(),
            verf: OpaqueAuth::spec_none(),
        },
    ) + args
}

/// A message as the transport carries it: one record on a stream, cut at
/// the default fragment length, or the bare message in a datagram.
pub open spec fn framed(framing: Framing, msg: Seq<u8>) -> Seq<u8> {
    match framing {
        Framing::RecordMarked => record_wire(
            msg,
            uniform_schedule(msg.len(), DEFAULT_FRAGMENT as nat),
        ),
        Framing::Datagram => msg,
    }
}

/// An RPC client together with the buffer in which records arriving on a
/// stream are put together.
pub struct Channel {
    rpc: RpcClient,
    buffer: bytes::BytesMut,
}

/// What a `Channel` holds.
pub struct ChannelModel {
    /// The client.
    pub rpc: ClientModel,
    /// Stream bytes that arrived and do not make up a whole record yet.
    pub pending: Seq<u8>,
}

impl View for Channel {
    type V = ChannelModel;

    closed spec fn view(&self) -> ChannelModel {
        ChannelModel { rpc: self.rpc@, pending: buffered(self.buffer) }
    }
}

/// The channel after bytes have arrived, and what they settle. A datagram is
/// one message. Stream bytes join what is pending; once a whole record is
/// there it is taken off and judged as a message, and a fragment above the
/// cap closes the client with a framing error.
pub open spec fn spec_on_bytes(c: ChannelModel, framing: Framing, bytes: Seq<u8>) -> (
    ChannelModel,
    Option<Result<Seq<u8>, Error>>,
) {
    if c.rpc.state == CallState::Closed {
        (c, Some(Err(Error::ChannelClosed)))
    } else {
        match framing {
            Framing::Datagram => {
                let (rpc, outcome) = spec_on_message(c.rpc, framing, bytes);
                (ChannelModel { rpc, ..c }, outcome)
            },
            Framing::RecordMarked => {
                let all = c.pending + bytes;
                match reassemble(all, DEFAULT_FRAGMENT as nat) {
                    Reassembly::Incomplete => (ChannelModel { pending: all, ..c }, None),
                    Reassembly::Corrupt => (
                        ChannelModel {
                            rpc: ClientModel { state: CallState::Closed, ..c.rpc },
                            pending: all,
                        },
                        Some(Err(Error::Framing)),
                    ),
                    Reassembly::Complete { message, used } => {
                        let (rpc, outcome) = spec_on_message(c.rpc, framing, message);
                        (ChannelModel { rpc, pending: all.skip(used as int) }, outcome)
                    },
                }
            },
        }
    }
}

/// The channel after an event, and what the event settles.
pub open spec fn spec_deliver(c: ChannelModel, framing: Framing, event: Event) -> (
    ChannelModel,
    Option<Result<Seq<u8>, Error>>,
) {
    match event {
        Event::Message(bytes) => spec_on_bytes(c, framing, bytes@),
        _ => {
            let (rpc, outcome) = spec_receive(c.rpc, framing, event);
            (ChannelModel { rpc, ..c }, outcome)
        },
    }
}

/// A successful reply settles the call: where a channel awaits the reply to
/// call `xid` and nothing is pending, the reply header for `xid` with the
/// results behind it, framed as the transport carries it and delivered in
/// one piece, ends the call with exactly these results, leaves nothing
/// pending and leaves the client idle.
pub proof fn lemma_reply_settles_call(c: ChannelModel, framing: Framing, xid: u32, results: Seq<u8>)
    requires
        c.rpc.state == CallState::Awaiting(xid),
        c.pending.len() == 0,
    ensures
        spec_on_bytes(
            c,
            framing,
            framed(
                framing,
                ReplyHeader::wire(ReplyHeader { xid, status: ReplyStatus::Success }) + results,
            ),
        ) == (
            ChannelModel {
                rpc: ClientModel { state: CallState::Idle, ..c.rpc },
                pending: match framing {
                    Framing::RecordMarked => Seq::<u8>::empty(),
                    Framing::Datagram => c.pending,
                },
            },
            Some(Ok::<Seq<u8>, Error>(results)),
        ),
{
    let header = ReplyHeader { xid, status: ReplyStatus::Success };
    let msg = ReplyHeader::wire(header) + results;
    ReplyHeader::lemma_round_trip(header, results);
    crate::protocols::onc_rpc::message::lemma_reply_xid(header, results);
    assert(msg.skip(ReplyHeader::wire(header).len() as int) =~= results);
    assert(spec_on_message(c.rpc, framing, msg) == (
        ClientModel { state: CallState::Idle, ..c.rpc },
        Some(Ok::<Seq<u8>, Error>(results)),
    ));
    match framing {
        Framing::Datagram => {},
        Framing::RecordMarked => {
            let record = framed(framing, msg);
            crate::protocols::onc_rpc::record::lemma_written_record_reads_back(
                msg,
                DEFAULT_FRAGMENT,
                DEFAULT_FRAGMENT as nat,
                Seq::empty(),
            );
            assert(record + Seq::<u8>::empty() =~= record);
            assert(c.pending + record =~= record);
            assert(record.skip(record.len() as int) =~= Seq::<u8>::empty());
        },
    }
}

impl Channel {
    /// A channel for version `vers` of program `prog` whose first call bears
    /// the xid `seed`, with nothing pending.
    pub fn new(prog: u32, vers: u32, seed: u32) -> (r: Channel)
        ensures
            r@ == (ChannelModel {
                rpc: ClientModel { prog, vers, next: seed, state: CallState::Idle },
                pending: Seq::empty(),
            }),
    {
        Channel { rpc: RpcClient::new(prog, vers, seed), buffer: buffer_new() }
    }

    /// What the client is waiting for.
    pub fn state(&self) -> (r: CallState)
        ensures
            r == self@.rpc.state,
    {
        self.rpc.state()
    }

    /// A copy of the buffer of pending stream bytes.
    pub fn buffer(&self) -> (r: bytes::BytesMut)
        ensures
            buffered(r) == self@.pending,
    {
        buffer_clone(&self.buffer)
    }

    /// Starts an anonymous call and returns what to hand to the transport: the
    /// call message, as one record where the transport is a stream.
    pub fn call_anonymously<A: Xdr>(&mut self, framing: Framing, proc: u32, args: &A) -> (r:
        Result<Vec<u8>, Error>)
        ensures
            r is Ok <==> old(self)@.rpc.state != CallState::Closed && A::valid(args@),
            r is Ok ==> r->Ok_0@ == framed(
                framing,
                anonymous_call_wire(old(self)@.rpc, proc, A::wire(args@)),
            ),
            r is Ok ==> final(self)@ == (ChannelModel {
                rpc: started(old(self)@.rpc, CallState::Awaiting(old(self)@.rpc.next)),
                ..old(self)@
            }),
            r is Err ==> final(self)@ == old(self)@,
            r is Err ==> r->Err_0 == refusal(old(self)@.rpc),
    {
        match self.rpc.call_anonymously(proc, args) {
            Ok(msg) => Ok(frame(framing, msg)),
            Err(e) => Err(e),
        }
    }

    /// Starts an anonymous broadcast and returns the datagram to send.
    pub fn broadcast_anonymously<A: Xdr>(&mut self, proc: u32, args: &A) -> (r: Result<
        Vec<u8>,
        Error,
    >)
        ensures
            r is Ok <==> old(self)@.rpc.state != CallState::Closed && A::valid(args@),
            r is Ok ==> r->Ok_0@ == anonymous_call_wire(old(self)@.rpc, proc, A::wire(args@)),
            r is Ok ==> final(self)@ == (ChannelModel {
                rpc: started(old(self)@.rpc, CallState::Broadcasting(old(self)@.rpc.next)),
                ..old(self)@
            }),
            r is Err ==> final(self)@ == old(self)@,
            r is Err ==> r->Err_0 == refusal(old(self)@.rpc),
    {
        self.rpc.broadcast_anonymously(proc, args)
    }

    /// Judges what the transport delivered for the call in flight. On a
    /// stream, `Event::Message` carries whatever bytes a read returned.
    pub fn deliver(&mut self, framing: Framing, event: Event) -> (r: Step<Vec<u8>>)
        ensures
            final(self)@ == spec_deliver(old(self)@, framing, event).0,
            match spec_deliver(old(self)@, framing, event).1 {
                None => r is Again,
                Some(Ok(results)) => r matches Step::Done(Ok(v)) && v@ == results,
                Some(Err(e)) => r == Step::Done(Err::<Vec<u8>, Error>(e)),
            },
    {
        match framing {
            Framing::Datagram => self.rpc.receive(framing, event),
            Framing::RecordMarked => match event {
                Event::Message(bytes) => {
                    match self.rpc.state() {
                        CallState::Closed => {
                            return Step::Done(Err(Error::ChannelClosed));
                        },
                        _ => {},
                    }
                    push_stream(&mut self.buffer, bytes.as_slice());
                    match take_record(&mut self.buffer, DEFAULT_FRAGMENT) {
                        Ok(Some(message)) => self.rpc.receive(framing, Event::Message(message)),
                        Ok(None) => Step::Again,
                        Err(e) => {
                            self.rpc.close();
                            Step::Done(Err(e))
                        },
                    }
                },
                other => self.rpc.receive(framing, other),
            },
        }
    }

    /// Judges what a broadcast socket delivered.
    pub fn next_reply<F>(&mut self, received: Received<F>) -> (r: BroadcastStep<Vec<u8>, F>)
        ensures
            final(self)@ == (ChannelModel {
                rpc: spec_next_reply(old(self)@.rpc, received).0,
                ..old(self)@
            }),
            match spec_next_reply(old(self)@.rpc, received).1 {
                Yield::Item(Ok((results, from))) => r matches BroadcastStep::Item(Ok((v, f)))
                    && v@ == results && f == from,
                Yield::Item(Err(e)) => r matches BroadcastStep::Item(Err(x)) && x == e,
                Yield::Skip => r is Skip,
                Yield::End => r is End,
            },
    {
        self.rpc.next_reply(received)
    }

    /// Tears the channel down. Every later operation fails with `ChannelClosed`.
    pub fn close(&mut self)
        ensures
            final(self)@ == (ChannelModel {
                rpc: ClientModel { state: CallState::Closed, ..old(self)@.rpc },
                ..old(self)@
            }),
    {
        self.rpc.close();
    }
}

/// Puts a message in the form in which the transport carries it.
pub fn frame(framing: Framing, msg: Vec<u8>) -> (r: Vec<u8>)
    ensures
        r@ == framed(framing, msg@),
{
    match framing {
        Framing::Datagram => msg,
        Framing::RecordMarked => {
            let mut out: Vec<u8> = Vec::new();
            write_record(&mut out, msg.as_slice(), DEFAULT_FRAGMENT);
            assert(out@ =~= framed(framing, msg@));
            out
        },
    }
}

} // verus!
