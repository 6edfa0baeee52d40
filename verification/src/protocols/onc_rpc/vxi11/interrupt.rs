//! The side channels: abort, and the interrupt channel on which the
//! instrument calls the host.
//!
//! The abort channel is a second connection to the instrument, to the port
//! that `create_link` named. The interrupt channel turns the roles round:
//! the host listens, the instrument connects and sends `device_intr_srq`
//! calls, and the host answers each with an empty success.
use vstd::prelude::*;
use crate::error::{device_result, spec_device_result, AcceptError, Error};
use crate::protocols::onc_rpc::client::{
    anonymous_call_wire,
    frame,
    framed,
    refusal,
    spec_deliver,
    started,
    CallState,
    Channel,
    ChannelModel,
    ClientModel,
    Event,
    Framing,
    Step,
};
use crate::protocols::onc_rpc::message::{CallHeader, ReplyHeader, ReplyStatus};
use crate::protocols::onc_rpc::record::{
    buffer_new,
    buffered,
    push_stream,
    reassemble,
    take_record,
    Reassembly,
    DEFAULT_FRAGMENT,
};
use crate::protocols::onc_rpc::vxi11::link::{plain_result, to_vec};
use crate::protocols::onc_rpc::vxi11::{DEVICE_ABORT, DEVICE_ASYNC, DEVICE_INTR, DEVICE_INTR_SRQ, DEVICE_VERSION};
use crate::protocols::onc_rpc::xdr::{get_opaque, parse_opaque, Xdr};

verus! {

/// The abort channel of one instrument.
pub struct AbortChannel {
    channel: Channel,
}

impl View for AbortChannel {
    type V = ChannelModel;

    closed spec fn view(&self) -> ChannelModel {
        self.channel@
    }
}

/// What the results of `device_abort` come to.
pub open spec fn abort_result(results: Seq<u8>) -> Result<(), Error> {
    match plain_result(results) {
        None => Err(Error::Malformed),
        Some(code) => spec_device_result(code),
    }
}

impl AbortChannel {
    /// The state for an abort channel that was just connected, whose first
    /// call bears the xid `xid`.
    pub fn new(xid: u32) -> (r: AbortChannel)
        ensures
            r@ == (ChannelModel {
                rpc: ClientModel {
                    prog: DEVICE_ASYNC,
                    vers: DEVICE_VERSION,
                    next: xid,
                    state: CallState::Idle,
                },
                pending: Seq::empty(),
            }),
    {
        AbortChannel { channel: Channel::new(DEVICE_ASYNC, DEVICE_VERSION, xid) }
    }

    /// Starts `device_abort` for the link `lid`, which cuts short what is in
    /// flight on its core channel, and returns the bytes for the stream.
    pub fn device_abort(&mut self, lid: i32) -> (r: Result<Vec<u8>, Error>)
        ensures
            r is Ok <==> old(self)@.rpc.state != CallState::Closed,
            r is Ok ==> r->Ok_0@ == framed(
                Framing::RecordMarked,
                anonymous_call_wire(old(self)@.rpc, DEVICE_ABORT, i32::wire(lid)),
            ),
            r is Ok ==> final(self)@ == (ChannelModel {
                rpc: started(old(self)@.rpc, CallState::Awaiting(old(self)@.rpc.next)),
                ..old(self)@
            }),
            r is Err ==> final(self)@ == old(self)@,
            r is Err ==> r->Err_0 == Error::ChannelClosed,
    {
        self.channel.call_anonymously(Framing::RecordMarked, DEVICE_ABORT, &lid)
    }

    /// Judges what the stream delivered after `device_abort`.
    pub fn reply(&mut self, event: Event) -> (r: Step<()>)
        ensures
            final(self)@ == spec_deliver(old(self)@, Framing::RecordMarked, event).0,
            r == match spec_deliver(old(self)@, Framing::RecordMarked, event).1 {
                None => Step::Again,
                Some(Ok(results)) => Step::Done(abort_result(results)),
                Some(Err(e)) => Step::Done(Err(e)),
            },
    {
        match self.channel.deliver(Framing::RecordMarked, event) {
            Step::Again => Step::Again,
            Step::Done(Err(e)) => Step::Done(Err(e)),
            Step::Done(Ok(results)) => {
                assert(results@.skip(0) =~= results@);
                match i32::decode(results.as_slice(), 0) {
                    Ok((code, _)) => Step::Done(device_result(code)),
                    Err(_) => Step::Done(Err(Error::Malformed)),
                }
            },
        }
    }
}

/// What the interrupt server makes of one call message.
pub enum Dispatch {
    /// A service request: the handle goes to the sink and the reply, an empty
    /// success, goes back.
    Srq { handle: Seq<u8>, reply: ReplyHeader },
    /// A call that is not a service request: the reply says why.
    Refused { reply: ReplyHeader },
    /// Not a call message at all: there is nothing to answer.
    Undecodable,
}

/// What the interrupt server of program version `vers` makes of `msg`.
pub open spec fn spec_dispatch(vers: u32, msg: Seq<u8>) -> Dispatch {
    match CallHeader::parse(msg) {
        None => Dispatch::Undecodable,
        Some((call, n)) => if call.prog != DEVICE_INTR {
            Dispatch::Refused {
                reply: ReplyHeader {
                    xid: call.xid,
                    status: ReplyStatus::Failed(AcceptError::ProgUnavail),
                },
            }
        } else if call.vers != vers {
            Dispatch::Refused {
                reply: ReplyHeader {
                    xid: call.xid,
                    status: ReplyStatus::Failed(AcceptError::ProgMismatch { low: vers, high: vers }),
                },
            }
        } else if call.proc != DEVICE_INTR_SRQ {
            Dispatch::Refused {
                reply: ReplyHeader {
                    xid: call.xid,
                    status: ReplyStatus::Failed(AcceptError::ProcUnavail),
                },
            }
        } else {
            match parse_opaque(msg.skip(n as int)) {
                None => Dispatch::Refused {
                    reply: ReplyHeader {
                        xid: call.xid,
                        status: ReplyStatus::Failed(AcceptError::GarbageArgs),
                    },
                },
                Some((handle, _)) => Dispatch::Srq {
                    handle,
                    reply: ReplyHeader { xid: call.xid, status: ReplyStatus::Success },
                },
            }
        },
    }
}

/// A service request reaches the sink: the call that an instrument builds
/// for `device_intr_srq` with a handle, whatever its xid, is dispatched with
/// exactly that handle and answered with a success for that xid.
pub proof fn lemma_srq_is_dispatched(vers: u32, xid: u32, handle: Seq<u8>)
    requires
        handle.len() <= u32::MAX,
    ensures
        spec_dispatch(
            vers,
            anonymous_call_wire(
                ClientModel { prog: DEVICE_INTR, vers, next: xid, state: CallState::Idle },
                DEVICE_INTR_SRQ,
                crate::protocols::onc_rpc::xdr::opaque_wire(handle),
            ),
        ) == (Dispatch::Srq {
            handle,
            reply: ReplyHeader { xid, status: ReplyStatus::Success },
        }),
{
    let none = crate::protocols::onc_rpc::message::OpaqueAuth::spec_none();
    let call = crate::protocols::onc_rpc::message::CallHeaderView {
        xid,
        prog: DEVICE_INTR,
        vers,
        proc: DEVICE_INTR_SRQ,
        cred: none,
        verf: none,
    };
    let args = crate::protocols::onc_rpc::xdr::opaque_wire(handle);
    let msg = CallHeader::wire(call) + args;
    CallHeader::lemma_round_trip(call, args);
    assert(msg.skip(CallHeader::wire(call).len() as int) =~= args);
    crate::protocols::onc_rpc::xdr::lemma_parse_opaque_of_wire(handle, Seq::empty());
    assert(args + Seq::<u8>::empty() =~= args);
}

/// What to do with what arrived on the interrupt channel.
#[derive(Clone, Debug, PartialEq, Eq)]
pub enum SrqStep {
    /// No whole call is there yet: receive again.
    Again,
    /// A service request: hand `handle` to the sink and send `reply`.
    Srq { handle: Vec<u8>, reply: Vec<u8> },
    /// A call that is not a service request: send `reply`.
    Refused { reply: Vec<u8> },
    /// The stream is out of step or carried no call: give the connection up.
    Broken(Error),
}

/// The reply to a call, as the bytes for the stream: one record that holds
/// the reply header and no results.
pub open spec fn reply_bytes(reply: ReplyHeader) -> Seq<u8> {
    framed(Framing::RecordMarked, ReplyHeader::wire(reply))
}

/// Judges one call message as the interrupt server of program version
/// `vers` would: the handle of a service request, and the reply to send.
pub fn dispatch(vers: u32, msg: &[u8]) -> (r: SrqStep)
    ensures
        match spec_dispatch(vers, msg@) {
            Dispatch::Srq { handle, reply } => r matches SrqStep::Srq { handle: h, reply: b } && h@
                == handle && b@ == reply_bytes(reply),
            Dispatch::Refused { reply } => r matches SrqStep::Refused { reply: b } && b@
                == reply_bytes(reply),
            Dispatch::Undecodable => r matches SrqStep::Broken(e) && e == Error::Malformed,
        },
{
    assert(msg@.skip(0) =~= msg@);
    let (call, n): (CallHeader, usize) = match CallHeader::decode(msg, 0) {
        Ok(x) => x,
        Err(_) => {
            return SrqStep::Broken(Error::Malformed);
        },
    };
    proof {
        CallHeader::lemma_parse_bounds(msg@);
    }
    let refusal: Option<AcceptError> = if call.prog != DEVICE_INTR {
        Some(AcceptError::ProgUnavail)
    } else if call.vers != vers {
        Some(AcceptError::ProgMismatch { low: vers, high: vers })
    } else if call.proc != DEVICE_INTR_SRQ {
        Some(AcceptError::ProcUnavail)
    } else {
        None
    };
    match refusal {
        Some(stat) => SrqStep::Refused {
            reply: encode_reply(ReplyHeader { xid: call.xid, status: ReplyStatus::Failed(stat) }),
        },
        None => match get_opaque(msg, n) {
            Ok((handle, _)) => SrqStep::Srq {
                handle: to_vec(handle),
                reply: encode_reply(ReplyHeader { xid: call.xid, status: ReplyStatus::Success }),
            },
            Err(_) => SrqStep::Refused {
                reply: encode_reply(
                    ReplyHeader {
                        xid: call.xid,
                        status: ReplyStatus::Failed(AcceptError::GarbageArgs),
                    },
                ),
            },
        },
    }
}

/// Builds the bytes of a reply without results.
pub fn encode_reply(reply: ReplyHeader) -> (r: Vec<u8>)
    ensures
        r@ == reply_bytes(reply),
{
    let mut msg: Vec<u8> = Vec::new();
    let wrote = reply.encode(&mut msg);
    assert(msg@ =~= ReplyHeader::wire(reply));
    frame(Framing::RecordMarked, msg)
}

/// The host's end of the interrupt channel: the one connection that the
/// instrument opened.
pub struct InterruptServer {
    vers: u32,
    buffer: bytes::BytesMut,
}

/// What an `InterruptServer` holds.
pub struct InterruptModel {
    /// The program version that the server answers to.
    pub vers: u32,
    /// Stream bytes that arrived and do not make up a whole record yet.
    pub pending: Seq<u8>,
}

impl View for InterruptServer {
    type V = InterruptModel;

    closed spec fn view(&self) -> InterruptModel {
        InterruptModel { vers: self.vers, pending: buffered(self.buffer) }
    }
}

/// The server after bytes have arrived, and what they come to: nothing
/// while no whole record is there, a framing error for a fragment above the
/// cap, else what the record that was taken off the stream is as a call.
pub open spec fn spec_serve(m: InterruptModel, bytes: Seq<u8>) -> (
    InterruptModel,
    Option<Result<Dispatch, Error>>,
) {
    let all = m.pending + bytes;
    match reassemble(all, DEFAULT_FRAGMENT as nat) {
        Reassembly::Incomplete => (InterruptModel { pending: all, ..m }, None),
        Reassembly::Corrupt => (InterruptModel { pending: all, ..m }, Some(Err(Error::Framing))),
        Reassembly::Complete { message, used } => (
            InterruptModel { pending: all.skip(used as int), ..m },
            Some(Ok(spec_dispatch(m.vers, message))),
        ),
    }
}

impl InterruptServer {
    /// The server for the connection that the instrument just opened,
    /// answering to version `vers` of the interrupt program.
    pub fn new(vers: u32) -> (r: InterruptServer)
        ensures
            r@ == (InterruptModel { vers, pending: Seq::empty() }),
    {
        InterruptServer { vers, buffer: buffer_new() }
    }

    /// Takes the bytes that a read of the connection returned and says what
    /// to do. Once a whole record is there it is taken off the stream and
    /// judged as a call.
    pub fn on_bytes(&mut self, bytes: &[u8]) -> (r: SrqStep)
        ensures
            final(self)@ == spec_serve(old(self)@, bytes@).0,
            match spec_serve(old(self)@, bytes@).1 {
                None => r is Again,
                Some(Err(e)) => r matches SrqStep::Broken(x) && x == e,
                Some(Ok(Dispatch::Srq { handle, reply })) => r matches SrqStep::Srq {
                    handle: h,
                    reply: b,
                } && h@ == handle && b@ == reply_bytes(reply),
                Some(Ok(Dispatch::Refused { reply })) => r matches SrqStep::Refused { reply: b }
                    && b@ == reply_bytes(reply),
                Some(Ok(Dispatch::Undecodable)) => r matches SrqStep::Broken(x) && x
                    == Error::Malformed,
            },
    {
        push_stream(&mut self.buffer, bytes);
        match take_record(&mut self.buffer, DEFAULT_FRAGMENT) {
            Ok(Some(message)) => dispatch(self.vers, message.as_slice()),
            Ok(None) => SrqStep::Again,
            Err(e) => SrqStep::Broken(e),
        }
    }
}

} // verus!
