//! The core channel: a link to an instrument and the operations on it.
//!
//! A `Link` is a state machine over the RPC channel of the core program.
//! Every operation has two halves. The first builds the call and returns the
//! bytes for the stream; the second, `reply`, is handed what the stream
//! delivered and says what the call came to. One call is in flight at a time.
use vstd::prelude::*;
use vstd::slice::slice_subrange;
use crate::error::{device_result, spec_device_result, Error, IoSource};
use crate::protocols::onc_rpc::client::{
    anonymous_call_wire,
    framed,
    spec_deliver,
    started,
    CallState,
    Channel,
    ChannelModel,
    ClientModel,
    Event,
    Framing,
    Step,
};
use crate::protocols::onc_rpc::vxi11::{
    AddrFamily,
    DeviceFlags,
    Procedure,
    Vxi11Client,
    CHANNEL_ALREADY_ESTABLISHED,
    DEVICE_CORE,
    DEVICE_INTR,
    DEVICE_VERSION,
    INVALID_LINK,
    MAX_SRQ_HANDLE,
};
use crate::protocols::onc_rpc::xdr::Xdr;

verus! {

/// How far a link has come.
#[derive(Clone, Copy, Debug, PartialEq, Eq, Structural)]
pub enum LinkState {
    /// The core channel is connected and no link was created yet.
    Connected,
    /// `create_link` succeeded: the link is valid.
    Open,
    /// The link was destroyed, poisoned or its channel closed. Every
    /// operation fails with `ChannelClosed`.
    Closed,
}

/// The operation whose reply is awaited.
#[derive(Clone, Copy, Debug, PartialEq, Eq, Structural)]
pub enum Pending {
    Nothing,
    CreateLink,
    /// A write of `len` bytes.
    Write { len: u32 },
    Read,
    ReadStb,
    /// An operation that answers with an error code alone.
    Plain,
    EnableSrq { enable: bool },
    CreateIntrChan,
    DestroyIntrChan,
    DestroyLink,
}

/// What an operation came to.
#[derive(Clone, Debug, PartialEq, Eq)]
pub enum Reply {
    /// `create_link` succeeded.
    Linked,
    /// The instrument took this many bytes: the whole chunk.
    Written(u32),
    /// The instrument sent these data, for this reason.
    Data { reason: u32, data: Vec<u8> },
    /// The status byte.
    Status(u8),
    /// The operation succeeded and has nothing to tell.
    Done,
}

/// What a `Reply` holds.
pub enum ReplyModel {
    Linked,
    Written(u32),
    Data { reason: u32, data: Seq<u8> },
    Status(u8),
    Done,
}

impl View for Reply {
    type V = ReplyModel;

    open spec fn view(&self) -> ReplyModel {
        match *self {
            Reply::Linked => ReplyModel::Linked,
            Reply::Written(n) => ReplyModel::Written(n),
            Reply::Data { reason, data } => ReplyModel::Data { reason, data: data@ },
            Reply::Status(stb) => ReplyModel::Status(stb),
            Reply::Done => ReplyModel::Done,
        }
    }
}

/// A VXI-11 link: the session with one instrument.
pub struct Link {
    channel: Channel,
    config: Vxi11Client,
    state: LinkState,
    pending: Pending,
    lid: i32,
    abort_port: u16,
    max_recv_size: u32,
    srq_handle: Vec<u8>,
    srq_enabled: bool,
    interrupt: bool,
}

/// What a `Link` holds.
pub struct LinkModel {
    /// The RPC channel of the core program.
    pub channel: ChannelModel,
    /// The settings that the link was made with.
    pub config: Vxi11Client,
    /// How far the link has come.
    pub state: LinkState,
    /// The operation whose reply is awaited.
    pub pending: Pending,
    /// The link identifier that the instrument gave.
    pub lid: i32,
    /// The port of the instrument's abort channel.
    pub abort_port: u16,
    /// The longest payload of one `device_write`.
    pub max_recv_size: u32,
    /// The handle that the instrument echoes with each service request.
    pub srq_handle: Seq<u8>,
    /// Whether service requests are armed.
    pub srq_enabled: bool,
    /// Whether this link owns the interrupt channel.
    pub interrupt: bool,
}

impl View for Link {
    type V = LinkModel;

    closed spec fn view(&self) -> LinkModel {
        LinkModel {
            channel: self.channel@,
            config: self.config,
            state: self.state,
            pending: self.pending,
            lid: self.lid,
            abort_port: self.abort_port,
            max_recv_size: self.max_recv_size,
            srq_handle: self.srq_handle@,
            srq_enabled: self.srq_enabled,
            interrupt: self.interrupt,
        }
    }
}

/// The link as `connect` makes it.
pub open spec fn fresh_link(config: Vxi11Client, xid: u32) -> LinkModel {
    LinkModel {
        channel: ChannelModel {
            rpc: ClientModel {
                prog: DEVICE_CORE,
                vers: DEVICE_VERSION,
                next: xid,
                state: CallState::Idle,
            },
            pending: Seq::empty(),
        },
        config,
        state: LinkState::Connected,
        pending: Pending::Nothing,
        lid: 0,
        abort_port: 0,
        max_recv_size: 0,
        srq_handle: Seq::empty(),
        srq_enabled: false,
        interrupt: false,
    }
}

/// The link after an operation was started, and the bytes for the stream.
/// A link that is not in the state that the operation needs, or whose channel
/// is closed, refuses with `ChannelClosed`. Arguments that have no encoding
/// are refused with `Malformed`. A refusal changes nothing and sends nothing.
pub open spec fn spec_start(
    m: LinkModel,
    needs: LinkState,
    proc: Procedure,
    valid: bool,
    args: Seq<u8>,
    pending: Pending,
) -> (LinkModel, Result<Seq<u8>, Error>) {
    if m.state != needs || m.channel.rpc.state == CallState::Closed {
        (m, Err(Error::ChannelClosed))
    } else if !valid {
        (m, Err(Error::Malformed))
    } else {
        (
            LinkModel {
                channel: ChannelModel {
                    rpc: started(m.channel.rpc, CallState::Awaiting(m.channel.rpc.next)),
                    ..m.channel
                },
                pending,
                ..m
            },
            Ok(
                framed(
                    Framing::RecordMarked,
                    anonymous_call_wire(m.channel.rpc, proc.spec_number(), args),
                ),
            ),
        )
    }
}

/// A link that an instrument answered with this error code: the code for
/// an invalid link identifier closes it.
pub open spec fn poisoned(m: LinkModel, code: i32) -> LinkModel {
    if code == INVALID_LINK {
        LinkModel { state: LinkState::Closed, ..m }
    } else {
        m
    }
}

/// What the results of an operation that answers with an error code alone
/// come to.
pub open spec fn plain_result(results: Seq<u8>) -> Option<i32> {
    match i32::parse(results) {
        Some((code, _)) => Some(code),
        None => None,
    }
}

/// The link after the results of the pending operation arrived, and what
/// the operation came to.
pub open spec fn spec_settle(m: LinkModel, results: Seq<u8>) -> (LinkModel, Result<ReplyModel, Error>) {
    let idle = LinkModel { pending: Pending::Nothing, ..m };
    match m.pending {
        Pending::Nothing => (idle, Err(Error::Malformed)),
        Pending::CreateLink => match <(i32, (i32, (u16, u32)))>::parse(results) {
            None => (idle, Err(Error::Malformed)),
            Some(((code, (lid, (abort_port, max_recv_size))), _)) => match spec_device_result(code) {
                Err(e) => (idle, Err(e)),
                Ok(()) => (
                    LinkModel {
                        state: LinkState::Open,
                        lid,
                        abort_port,
                        max_recv_size: match m.config.max_recv_size_override {
                            Some(limit) => limit,
                            None => max_recv_size,
                        },
                        ..idle
                    },
                    Ok(ReplyModel::Linked),
                ),
            },
        },
        Pending::Write { len } => match <(i32, u32)>::parse(results) {
            None => (idle, Err(Error::Malformed)),
            Some(((code, size), _)) => match spec_device_result(code) {
                Err(e) => (poisoned(idle, code), Err(e)),
                Ok(()) => if size < len {
                    (
                        idle,
                        Err(
                            Error::Io {
                                source: IoSource::PartialWrite { written: size, expected: len },
                            },
                        ),
                    )
                } else if size > len {
                    (idle, Err(Error::Malformed))
                } else {
                    (idle, Ok(ReplyModel::Written(size)))
                },
            },
        },
        Pending::Read => match <(i32, (u32, Vec<u8>))>::parse(results) {
            None => (idle, Err(Error::Malformed)),
            Some(((code, (reason, data)), _)) => match spec_device_result(code) {
                Err(e) => (poisoned(idle, code), Err(e)),
                Ok(()) => (idle, Ok(ReplyModel::Data { reason, data })),
            },
        },
        Pending::ReadStb => match <(i32, u8)>::parse(results) {
            None => (idle, Err(Error::Malformed)),
            Some(((code, stb), _)) => match spec_device_result(code) {
                Err(e) => (poisoned(idle, code), Err(e)),
                Ok(()) => (idle, Ok(ReplyModel::Status(stb))),
            },
        },
        _ => match plain_result(results) {
            None => (idle, Err(Error::Malformed)),
            Some(code) => match spec_device_result(code) {
                Err(e) => (poisoned(idle, code), Err(e)),
                Ok(()) => (
                    match m.pending {
                        Pending::EnableSrq { enable } => LinkModel {
                            srq_enabled: enable,
                            srq_handle: if enable {
                                idle.srq_handle
                            } else {
                                Seq::empty()
                            },
                            ..idle
                        },
                        Pending::CreateIntrChan => LinkModel { interrupt: true, ..idle },
                        Pending::DestroyIntrChan => LinkModel { interrupt: false, ..idle },
                        Pending::DestroyLink => LinkModel { state: LinkState::Closed, ..idle },
                        _ => idle,
                    },
                    Ok(ReplyModel::Done),
                ),
            },
        },
    }
}

/// The link after an event on the core channel, and what the event settles:
/// nothing (receive again), or what the pending operation came to. A closed
/// link takes nothing in. A channel that closes takes the link with it.
pub open spec fn spec_reply(m: LinkModel, event: Event) -> (LinkModel, Option<Result<ReplyModel, Error>>) {
    if m.state == LinkState::Closed {
        (m, Some(Err(Error::ChannelClosed)))
    } else {
        spec_reply_open(m, event)
    }
}

/// The link after an event on the core channel of a link that is not closed.
pub open spec fn spec_reply_open(m: LinkModel, event: Event) -> (
    LinkModel,
    Option<Result<ReplyModel, Error>>,
) {
    let (channel, outcome) = spec_deliver(m.channel, Framing::RecordMarked, event);
    let after = LinkModel {
        channel,
        state: if channel.rpc.state == CallState::Closed {
            LinkState::Closed
        } else {
            m.state
        },
        ..m
    };
    match outcome {
        None => (after, None),
        Some(Err(e)) => (LinkModel { pending: Pending::Nothing, ..after }, Some(Err(e))),
        Some(Ok(results)) => {
            let (settled, reply) = spec_settle(after, results);
            (settled, Some(reply))
        },
    }
}

/// The longest payload that one write carries on a link whose limit is
/// `max_recv_size`: at least one byte, so that a write gets on.
pub open spec fn chunk_limit(max_recv_size: u32) -> nat {
    if max_recv_size == 0 {
        1
    } else {
        max_recv_size as nat
    }
}

/// The payload of the next write when `data` are left to send.
pub open spec fn first_chunk(data: Seq<u8>, limit: nat) -> Seq<u8> {
    if data.len() <= limit {
        data
    } else {
        data.take(limit as int)
    }
}

/// The flags of an operation: what the caller gives, else the link's own.
pub open spec fn chosen_flags(m: LinkModel, flags: Option<DeviceFlags>) -> DeviceFlags {
    match flags {
        Some(f) => f,
        None => m.config.flags,
    }
}

/// The writes by which `data` reach the instrument, in order: each payload
/// and whether it carries the end flag.
pub open spec fn write_calls(data: Seq<u8>, limit: nat) -> Seq<(Seq<u8>, bool)>
    decreases data.len(),
{
    if limit == 0 || data.len() <= limit {
        seq![(data, true)]
    } else {
        seq![(data.take(limit as int), false)] + write_calls(data.skip(limit as int), limit)
    }
}

/// The payloads of a run of writes, joined.
pub open spec fn joined(calls: Seq<(Seq<u8>, bool)>) -> Seq<u8>
    decreases calls.len(),
{
    if calls.len() == 0 {
        Seq::empty()
    } else {
        calls[0].0 + joined(calls.drop_first())
    }
}

/// Writing `n` bytes over a link that takes `limit` at a time, with `n` at
/// least one, takes the number of writes that `n / limit` rounds up to; no
/// payload is longer than the limit; only the last write carries the end
/// flag; and the payloads joined are the data.
pub proof fn lemma_chunked_write(data: Seq<u8>, limit: nat)
    requires
        limit > 0,
        data.len() > 0,
    ensures
        write_calls(data, limit).len() == (data.len() + limit - 1) / (limit as int),
        forall|i: int|
            0 <= i < write_calls(data, limit).len() ==> (#[trigger] write_calls(data, limit)[i]).0.len()
                <= limit,
        forall|i: int|
            0 <= i < write_calls(data, limit).len() ==> ((#[trigger] write_calls(data, limit)[i]).1
                <==> i == write_calls(data, limit).len() - 1),
        joined(write_calls(data, limit)) == data,
    decreases data.len(),
{
    let calls = write_calls(data, limit);
    let n = data.len() as int;
    let l = limit as int;
    if data.len() <= limit {
        assert((n + l - 1) / l == 1) by (nonlinear_arith)
            requires
                0 < n <= l,
        ;
        assert(calls.drop_first() =~= Seq::empty());
        assert(joined(calls.drop_first()) =~= Seq::empty());
        assert(joined(calls) =~= data);
    } else {
        let rest = data.skip(l);
        let later = write_calls(rest, limit);
        lemma_chunked_write(rest, limit);
        assert((n + l - 1) / l == 1 + (n - l + l - 1) / l) by (nonlinear_arith)
            requires
                0 < l < n,
        ;
        assert(calls.drop_first() =~= later);
        assert(joined(calls) =~= data.take(l) + rest);
        assert(data.take(l) + rest =~= data);
        assert forall|i: int| 0 <= i < calls.len() implies (#[trigger] calls[i]).0.len() <= limit by {
            if i > 0 {
                assert(calls[i] == later[i - 1]);
            }
        }
        assert forall|i: int| 0 <= i < calls.len() implies ((#[trigger] calls[i]).1 <==> i
            == calls.len() - 1) by {
            if i > 0 {
                assert(calls[i] == later[i - 1]);
            }
        }
    }
}

/// The next write of what is left is the head of the writes that are left.
pub proof fn lemma_first_write(data: Seq<u8>, limit: nat)
    requires
        limit > 0,
    ensures
        write_calls(data, limit)[0] == (first_chunk(data, limit), data.len() <= limit),
        data.len() > limit ==> write_calls(data, limit).drop_first() == write_calls(
            data.skip(limit as int),
            limit,
        ),
{
    if data.len() > limit {
        assert(write_calls(data, limit).drop_first() =~= write_calls(
            data.skip(limit as int),
            limit,
        ));
    }
}

/// Arguments of `create_link`: client identifier, whether to lock, lock
/// timeout, device name.
pub type CreateLinkParms = (i32, (bool, (u32, String)));

/// Arguments of `device_write`: link, I/O timeout, lock timeout, flags, data.
pub type WriteParms = (i32, (u32, (u32, (i32, Vec<u8>))));

/// Arguments of `device_read`: link, requested size, I/O timeout, lock
/// timeout, flags, termination character.
pub type ReadParms = (i32, (u32, (u32, (u32, (i32, u8)))));

/// Arguments of the operations that take nothing of their own: link, flags,
/// lock timeout, I/O timeout.
pub type GenericParms = (i32, (i32, (u32, u32)));

/// Arguments of `device_lock`: link, flags, lock timeout.
pub type LockParms = (i32, (i32, u32));

/// Arguments of `device_enable_srq`: link, whether to enable, handle.
pub type EnableSrqParms = (i32, (bool, Vec<u8>));

/// Arguments of `create_intr_chan`: host address, host port, program
/// number, program version, address family.
pub type RemoteFunc = (u32, (u16, (u32, (u32, AddrFamily))));

/// The encoded arguments of `create_link` on link `m` for device `device`.
pub open spec fn create_link_args(m: LinkModel, device: Seq<char>) -> Seq<u8> {
    CreateLinkParms::wire((m.config.client_id, (m.config.lock, (m.config.lock_timeout, device))))
}

/// The encoded arguments of a `device_write` of `chunk` on link `m`.
pub open spec fn write_args(m: LinkModel, flags: DeviceFlags, chunk: Seq<u8>) -> Seq<u8> {
    WriteParms::wire(
        (m.lid, (m.config.io_timeout, (m.config.lock_timeout, (flags.spec_bits(), chunk)))),
    )
}

/// The encoded arguments of a `device_read` on link `m`.
pub open spec fn read_args(m: LinkModel, request_size: u32, flags: DeviceFlags, term_char: u8) -> Seq<
    u8,
> {
    ReadParms::wire(
        (
            m.lid,
            (
                request_size,
                (m.config.io_timeout, (m.config.lock_timeout, (flags.spec_bits(), term_char))),
            ),
        ),
    )
}

/// The encoded arguments of an operation that takes nothing of its own.
pub open spec fn generic_args(m: LinkModel, flags: DeviceFlags) -> Seq<u8> {
    GenericParms::wire((m.lid, (flags.spec_bits(), (m.config.lock_timeout, m.config.io_timeout))))
}

/// The encoded arguments of `device_lock` on link `m`.
pub open spec fn lock_args(m: LinkModel, flags: DeviceFlags) -> Seq<u8> {
    LockParms::wire((m.lid, (flags.spec_bits(), m.config.lock_timeout)))
}

/// The encoded arguments of `device_enable_srq` on link `m`.
pub open spec fn enable_srq_args(m: LinkModel, enable: bool, handle: Seq<u8>) -> Seq<u8> {
    EnableSrqParms::wire((m.lid, (enable, handle)))
}

/// The encoded arguments of `create_intr_chan`: the instrument is to call
/// the interrupt program back over TCP at this address.
pub open spec fn intr_chan_args(m: LinkModel, host_addr: u32, host_port: u16) -> Seq<u8> {
    RemoteFunc::wire(
        (host_addr, (host_port, (DEVICE_INTR, (m.config.srq_program_vers, AddrFamily::Tcp)))),
    )
}

/// The link after `device_enable_srq` was started, and the bytes for the
/// stream. The handle is kept from the moment service requests are asked for.
pub open spec fn spec_enable_srq(m: LinkModel, enable: bool, handle: Seq<u8>) -> (
    LinkModel,
    Result<Seq<u8>, Error>,
) {
    let (after, bytes) = spec_start(
        m,
        LinkState::Open,
        Procedure::DeviceEnableSrq,
        handle.len() <= MAX_SRQ_HANDLE,
        enable_srq_args(m, enable, handle),
        Pending::EnableSrq { enable },
    );
    if bytes is Ok && enable {
        (LinkModel { srq_handle: handle, ..after }, bytes)
    } else {
        (after, bytes)
    }
}

/// The link after `create_intr_chan` was started, and the bytes for the
/// stream. A link that owns an interrupt channel already is refused a second
/// one until the first is destroyed.
pub open spec fn spec_create_intr_chan(m: LinkModel, host_addr: u32, host_port: u16) -> (
    LinkModel,
    Result<Seq<u8>, Error>,
) {
    if m.state == LinkState::Open && m.channel.rpc.state != CallState::Closed && m.interrupt {
        (m, spec_channel_already_established())
    } else {
        spec_start(
            m,
            LinkState::Open,
            Procedure::CreateIntrChan,
            true,
            intr_chan_args(m, host_addr, host_port),
            Pending::CreateIntrChan,
        )
    }
}

/// The refusal of a second interrupt channel.
pub open spec fn spec_channel_already_established() -> Result<Seq<u8>, Error> {
    Err(
        Error::Device {
            code: CHANNEL_ALREADY_ESTABLISHED,
            description: crate::error::DeviceFault::ChannelAlreadyEstablished,
        },
    )
}

impl Vxi11Client {
    /// The session state for a core channel that was just connected. The
    /// first call bears the xid `xid`, which should come from a source of
    /// entropy. No link exists yet: `create_link` comes next.
    pub fn connect(&self, xid: u32) -> (r: Link)
        ensures
            r@ == fresh_link(*self, xid),
    {
        Link {
            channel: Channel::new(DEVICE_CORE, DEVICE_VERSION, xid),
            config: *self,
            state: LinkState::Connected,
            pending: Pending::Nothing,
            lid: 0,
            abort_port: 0,
            max_recv_size: 0,
            srq_handle: Vec::new(),
            srq_enabled: false,
            interrupt: false,
        }
    }
}

/// Copies a slice into a vector.
pub fn to_vec(bytes: &[u8]) -> (r: Vec<u8>)
    ensures
        r@ == bytes@,
{
    let mut v: Vec<u8> = Vec::new();
    v.extend_from_slice(bytes);
    assert(v@ =~= bytes@);
    v
}

impl Link {
    /// How far the link has come.
    pub fn state(&self) -> (r: LinkState)
        ensures
            r == self@.state,
    {
        self.state
    }

    /// The link identifier that the instrument gave.
    pub fn lid(&self) -> (r: i32)
        ensures
            r == self@.lid,
    {
        self.lid
    }

    /// The port of the instrument's abort channel.
    pub fn abort_port(&self) -> (r: u16)
        ensures
            r == self@.abort_port,
    {
        self.abort_port
    }

    /// The longest payload of one `device_write`.
    pub fn max_recv_size(&self) -> (r: u32)
        ensures
            r == self@.max_recv_size,
    {
        self.max_recv_size
    }

    /// Whether an incoming service request with this handle is for this
    /// link: service requests are armed and the handle is the one given.
    pub fn owns_handle(&self, handle: &[u8]) -> (r: bool)
        ensures
            r == (self@.srq_enabled && handle@ == self@.srq_handle),
    {
        if !self.srq_enabled || handle.len() != self.srq_handle.len() {
            return false;
        }
        let mut i: usize = 0;
        while i < handle.len()
            invariant
                i <= handle.len(),
                handle.len() == self.srq_handle.len(),
                forall|j: int| 0 <= j < i ==> handle@[j] == self.srq_handle@[j],
            decreases handle.len() - i,
        {
            if handle[i] != self.srq_handle[i] {
                return false;
            }
            i = i + 1;
        }
        assert(handle@ =~= self.srq_handle@);
        true
    }

    /// The flags of an operation: what the caller gives, else the link's own.
    fn flags_or_default(&self, flags: Option<DeviceFlags>) -> (r: DeviceFlags)
        ensures
            r == chosen_flags(self@, flags),
    {
        match flags {
            Some(f) => f,
            None => self.config.flags,
        }
    }

    /// Starts an operation: checks the link, builds the call, notes what is
    /// awaited.
    fn start<A: Xdr>(&mut self, needs: LinkState, proc: Procedure, args: &A, pending: Pending) -> (r:
        Result<Vec<u8>, Error>)
        ensures
            final(self)@ == spec_start(
                old(self)@,
                needs,
                proc,
                A::valid(args@),
                A::wire(args@),
                pending,
            ).0,
            match spec_start(old(self)@, needs, proc, A::valid(args@), A::wire(args@), pending).1 {
                Ok(bytes) => r matches Ok(v) && v@ == bytes,
                Err(e) => r == Err::<Vec<u8>, Error>(e),
            },
    {
        if self.state != needs {
            return Err(Error::ChannelClosed);
        }
        match self.channel.state() {
            CallState::Closed => {
                return Err(Error::ChannelClosed);
            },
            _ => {},
        }
        match self.channel.call_anonymously(Framing::RecordMarked, proc.number(), args) {
            Ok(bytes) => {
                self.pending = pending;
                Ok(bytes)
            },
            Err(e) => Err(e),
        }
    }

    /// Starts one of the operations that take nothing of their own.
    fn generic(&mut self, proc: Procedure, flags: Option<DeviceFlags>, pending: Pending) -> (r:
        Result<Vec<u8>, Error>)
        ensures
            final(self)@ == spec_start(
                old(self)@,
                LinkState::Open,
                proc,
                true,
                generic_args(old(self)@, chosen_flags(old(self)@, flags)),
                pending,
            ).0,
            match spec_start(
                old(self)@,
                LinkState::Open,
                proc,
                true,
                generic_args(old(self)@, chosen_flags(old(self)@, flags)),
                pending,
            ).1 {
                Ok(bytes) => r matches Ok(v) && v@ == bytes,
                Err(e) => r == Err::<Vec<u8>, Error>(e),
            },
    {
        let f = self.flags_or_default(flags);
        let args: GenericParms = (
            self.lid,
            (f.bits(), (self.config.lock_timeout, self.config.io_timeout)),
        );
        self.start(LinkState::Open, proc, &args, pending)
    }

    /// Starts `create_link` for the device named `device`; `"inst0"` names the
    /// one instrument of a single-instrument box.
    pub fn create_link(&mut self, device: &str) -> (r: Result<Vec<u8>, Error>)
        ensures
            final(self)@ == spec_start(
                old(self)@,
                LinkState::Connected,
                Procedure::CreateLink,
                String::valid(device@),
                create_link_args(old(self)@, device@),
                Pending::CreateLink,
            ).0,
            match spec_start(
                old(self)@,
                LinkState::Connected,
                Procedure::CreateLink,
                String::valid(device@),
                create_link_args(old(self)@, device@),
                Pending::CreateLink,
            ).1 {
                Ok(bytes) => r matches Ok(v) && v@ == bytes,
                Err(e) => r == Err::<Vec<u8>, Error>(e),
            },
    {
        let args: CreateLinkParms = (
            self.config.client_id,
            (self.config.lock, (self.config.lock_timeout, device.to_owned())),
        );
        self.start(LinkState::Connected, Procedure::CreateLink, &args, Pending::CreateLink)
    }

    /// Starts a `device_write` of the head of `data`: as much as the link
    /// takes at a time. The end flag is set exactly when the write takes all
    /// of `data`, whatever the flags say of it. The reply tells how many
    /// bytes went; what is left goes into the next write.
    pub fn device_write(&mut self, data: &[u8], flags: Option<DeviceFlags>) -> (r: Result<
        Vec<u8>,
        Error,
    >)
        ensures
            final(self)@ == spec_device_write(old(self)@, data@, flags).0,
            match spec_device_write(old(self)@, data@, flags).1 {
                Ok(bytes) => r matches Ok(v) && v@ == bytes,
                Err(e) => r == Err::<Vec<u8>, Error>(e),
            },
    {
        let limit: usize = if self.max_recv_size == 0 {
            1
        } else {
            self.max_recv_size as usize
        };
        let last: bool = data.len() <= limit;
        let chunk: Vec<u8> = if last {
            to_vec(data)
        } else {
            to_vec(slice_subrange(data, 0, limit))
        };
        let f = self.flags_or_default(flags).with_end(last);
        let len: u32 = chunk.len() as u32;
        let args: WriteParms = (
            self.lid,
            (self.config.io_timeout, (self.config.lock_timeout, (f.bits(), chunk))),
        );
        self.start(LinkState::Open, Procedure::DeviceWrite, &args, Pending::Write { len })
    }

    /// Starts a `device_read` of at most `request_size` bytes. The instrument
    /// heeds `term_char` only where the flags set `termchrset`.
    pub fn device_read(&mut self, request_size: u32, flags: Option<DeviceFlags>, term_char: u8) -> (r:
        Result<Vec<u8>, Error>)
        ensures
            final(self)@ == spec_start(
                old(self)@,
                LinkState::Open,
                Procedure::DeviceRead,
                true,
                read_args(old(self)@, request_size, chosen_flags(old(self)@, flags), term_char),
                Pending::Read,
            ).0,
            match spec_start(
                old(self)@,
                LinkState::Open,
                Procedure::DeviceRead,
                true,
                read_args(old(self)@, request_size, chosen_flags(old(self)@, flags), term_char),
                Pending::Read,
            ).1 {
                Ok(bytes) => r matches Ok(v) && v@ == bytes,
                Err(e) => r == Err::<Vec<u8>, Error>(e),
            },
    {
        let f = self.flags_or_default(flags);
        let args: ReadParms = (
            self.lid,
            (
                request_size,
                (self.config.io_timeout, (self.config.lock_timeout, (f.bits(), term_char))),
            ),
        );
        self.start(LinkState::Open, Procedure::DeviceRead, &args, Pending::Read)
    }

    /// Starts `device_readstb`, which reads the instrument's status byte.
    pub fn device_readstb(&mut self, flags: Option<DeviceFlags>) -> (r: Result<Vec<u8>, Error>)
        ensures
            final(self)@ == spec_start(
                old(self)@,
                LinkState::Open,
                Procedure::DeviceReadStb,
                true,
                generic_args(old(self)@, chosen_flags(old(self)@, flags)),
                Pending::ReadStb,
            ).0,
            match spec_start(
                old(self)@,
                LinkState::Open,
                Procedure::DeviceReadStb,
                true,
                generic_args(old(self)@, chosen_flags(old(self)@, flags)),
                Pending::ReadStb,
            ).1 {
                Ok(bytes) => r matches Ok(v) && v@ == bytes,
                Err(e) => r == Err::<Vec<u8>, Error>(e),
            },
    {
        self.generic(Procedure::DeviceReadStb, flags, Pending::ReadStb)
    }

    /// Starts `device_trigger`, which sends the instrument a trigger.
    pub fn device_trigger(&mut self, flags: Option<DeviceFlags>) -> (r: Result<Vec<u8>, Error>)
        ensures
            final(self)@ == spec_start(
                old(self)@,
                LinkState::Open,
                Procedure::DeviceTrigger,
                true,
                generic_args(old(self)@, chosen_flags(old(self)@, flags)),
                Pending::Plain,
            ).0,
            match spec_start(
                old(self)@,
                LinkState::Open,
                Procedure::DeviceTrigger,
                true,
                generic_args(old(self)@, chosen_flags(old(self)@, flags)),
                Pending::Plain,
            ).1 {
                Ok(bytes) => r matches Ok(v) && v@ == bytes,
                Err(e) => r == Err::<Vec<u8>, Error>(e),
            },
    {
        self.generic(Procedure::DeviceTrigger, flags, Pending::Plain)
    }

    /// Starts `device_clear`, which clears the instrument.
    pub fn device_clear(&mut self, flags: Option<DeviceFlags>) -> (r: Result<Vec<u8>, Error>)
        ensures
            final(self)@ == spec_start(
                old(self)@,
                LinkState::Open,
                Procedure::DeviceClear,
                true,
                generic_args(old(self)@, chosen_flags(old(self)@, flags)),
                Pending::Plain,
            ).0,
            match spec_start(
                old(self)@,
                LinkState::Open,
                Procedure::DeviceClear,
                true,
                generic_args(old(self)@, chosen_flags(old(self)@, flags)),
                Pending::Plain,
            ).1 {
                Ok(bytes) => r matches Ok(v) && v@ == bytes,
                Err(e) => r == Err::<Vec<u8>, Error>(e),
            },
    {
        self.generic(Procedure::DeviceClear, flags, Pending::Plain)
    }

    /// Starts `device_remote`, which disables the instrument's front panel.
    pub fn device_remote(&mut self, flags: Option<DeviceFlags>) -> (r: Result<Vec<u8>, Error>)
        ensures
            final(self)@ == spec_start(
                old(self)@,
                LinkState::Open,
                Procedure::DeviceRemote,
                true,
                generic_args(old(self)@, chosen_flags(old(self)@, flags)),
                Pending::Plain,
            ).0,
            match spec_start(
                old(self)@,
                LinkState::Open,
                Procedure::DeviceRemote,
                true,
                generic_args(old(self)@, chosen_flags(old(self)@, flags)),
                Pending::Plain,
            ).1 {
                Ok(bytes) => r matches Ok(v) && v@ == bytes,
                Err(e) => r == Err::<Vec<u8>, Error>(e),
            },
    {
        self.generic(Procedure::DeviceRemote, flags, Pending::Plain)
    }

    /// Starts `device_local`, which enables the instrument's front panel.
    pub fn device_local(&mut self, flags: Option<DeviceFlags>) -> (r: Result<Vec<u8>, Error>)
        ensures
            final(self)@ == spec_start(
                old(self)@,
                LinkState::Open,
                Procedure::DeviceLocal,
                true,
                generic_args(old(self)@, chosen_flags(old(self)@, flags)),
                Pending::Plain,
            ).0,
            match spec_start(
                old(self)@,
                LinkState::Open,
                Procedure::DeviceLocal,
                true,
                generic_args(old(self)@, chosen_flags(old(self)@, flags)),
                Pending::Plain,
            ).1 {
                Ok(bytes) => r matches Ok(v) && v@ == bytes,
                Err(e) => r == Err::<Vec<u8>, Error>(e),
            },
    {
        self.generic(Procedure::DeviceLocal, flags, Pending::Plain)
    }

    /// Starts `device_lock`, which asks for the instrument's lock.
    pub fn device_lock(&mut self, flags: Option<DeviceFlags>) -> (r: Result<Vec<u8>, Error>)
        ensures
            final(self)@ == spec_start(
                old(self)@,
                LinkState::Open,
                Procedure::DeviceLock,
                true,
                lock_args(old(self)@, chosen_flags(old(self)@, flags)),
                Pending::Plain,
            ).0,
            match spec_start(
                old(self)@,
                LinkState::Open,
                Procedure::DeviceLock,
                true,
                lock_args(old(self)@, chosen_flags(old(self)@, flags)),
                Pending::Plain,
            ).1 {
                Ok(bytes) => r matches Ok(v) && v@ == bytes,
                Err(e) => r == Err::<Vec<u8>, Error>(e),
            },
    {
        let f = self.flags_or_default(flags);
        let args: LockParms = (self.lid, (f.bits(), self.config.lock_timeout));
        self.start(LinkState::Open, Procedure::DeviceLock, &args, Pending::Plain)
    }

    /// Starts `device_unlock`, which gives the lock back.
    pub fn device_unlock(&mut self) -> (r: Result<Vec<u8>, Error>)
        ensures
            final(self)@ == spec_start(
                old(self)@,
                LinkState::Open,
                Procedure::DeviceUnlock,
                true,
                i32::wire(old(self)@.lid),
                Pending::Plain,
            ).0,
            match spec_start(
                old(self)@,
                LinkState::Open,
                Procedure::DeviceUnlock,
                true,
                i32::wire(old(self)@.lid),
                Pending::Plain,
            ).1 {
                Ok(bytes) => r matches Ok(v) && v@ == bytes,
                Err(e) => r == Err::<Vec<u8>, Error>(e),
            },
    {
        let lid: i32 = self.lid;
        self.start(LinkState::Open, Procedure::DeviceUnlock, &lid, Pending::Plain)
    }

    /// Starts `destroy_link`. Once it has succeeded the link is closed.
    pub fn destroy_link(&mut self) -> (r: Result<Vec<u8>, Error>)
        ensures
            final(self)@ == spec_start(
                old(self)@,
                LinkState::Open,
                Procedure::DestroyLink,
                true,
                i32::wire(old(self)@.lid),
                Pending::DestroyLink,
            ).0,
            match spec_start(
                old(self)@,
                LinkState::Open,
                Procedure::DestroyLink,
                true,
                i32::wire(old(self)@.lid),
                Pending::DestroyLink,
            ).1 {
                Ok(bytes) => r matches Ok(v) && v@ == bytes,
                Err(e) => r == Err::<Vec<u8>, Error>(e),
            },
    {
        let lid: i32 = self.lid;
        self.start(LinkState::Open, Procedure::DestroyLink, &lid, Pending::DestroyLink)
    }

    /// Starts `destroy_intr_chan`, which gives the interrupt channel up.
    pub fn destroy_intr_chan(&mut self) -> (r: Result<Vec<u8>, Error>)
        ensures
            final(self)@ == spec_start(
                old(self)@,
                LinkState::Open,
                Procedure::DestroyIntrChan,
                true,
                <()>::wire(()),
                Pending::DestroyIntrChan,
            ).0,
            match spec_start(
                old(self)@,
                LinkState::Open,
                Procedure::DestroyIntrChan,
                true,
                <()>::wire(()),
                Pending::DestroyIntrChan,
            ).1 {
                Ok(bytes) => r matches Ok(v) && v@ == bytes,
                Err(e) => r == Err::<Vec<u8>, Error>(e),
            },
    {
        let nothing: () = ();
        self.start(LinkState::Open, Procedure::DestroyIntrChan, &nothing, Pending::DestroyIntrChan)
    }

    /// Starts `device_enable_srq`. The handle, of at most 40 bytes, is what
    /// the instrument echoes with each service request; a longer one is
    /// refused as malformed.
    pub fn device_enable_srq(&mut self, enable: bool, handle: &[u8]) -> (r: Result<Vec<u8>, Error>)
        ensures
            final(self)@ == spec_enable_srq(old(self)@, enable, handle@).0,
            match spec_enable_srq(old(self)@, enable, handle@).1 {
                Ok(bytes) => r matches Ok(v) && v@ == bytes,
                Err(e) => r == Err::<Vec<u8>, Error>(e),
            },
    {
        if handle.len() > MAX_SRQ_HANDLE {
            if self.state != LinkState::Open {
                return Err(Error::ChannelClosed);
            }
            match self.channel.state() {
                CallState::Closed => {
                    return Err(Error::ChannelClosed);
                },
                _ => {},
            }
            return Err(Error::Malformed);
        }
        let args: EnableSrqParms = (self.lid, (enable, to_vec(handle)));
        match self.start(
            LinkState::Open,
            Procedure::DeviceEnableSrq,
            &args,
            Pending::EnableSrq { enable },
        ) {
            Ok(bytes) => {
                if enable {
                    self.srq_handle = to_vec(handle);
                }
                Ok(bytes)
            },
            Err(e) => Err(e),
        }
    }

    /// Starts `create_intr_chan`: the instrument is told to connect to the
    /// listener at `host_addr`, an IPv4 address as a number, and `host_port`.
    pub fn create_intr_chan(&mut self, host_addr: u32, host_port: u16) -> (r: Result<Vec<u8>, Error>)
        ensures
            final(self)@ == spec_create_intr_chan(old(self)@, host_addr, host_port).0,
            match spec_create_intr_chan(old(self)@, host_addr, host_port).1 {
                Ok(bytes) => r matches Ok(v) && v@ == bytes,
                Err(e) => r == Err::<Vec<u8>, Error>(e),
            },
    {
        if self.interrupt && self.state == LinkState::Open {
            match self.channel.state() {
                CallState::Closed => {},
                _ => {
                    return Err(
                        Error::Device {
                            code: CHANNEL_ALREADY_ESTABLISHED,
                            description: crate::error::DeviceFault::ChannelAlreadyEstablished,
                        },
                    );
                },
            }
        }
        let args: RemoteFunc = (
            host_addr,
            (host_port, (DEVICE_INTR, (self.config.srq_program_vers, AddrFamily::Tcp))),
        );
        self.start(LinkState::Open, Procedure::CreateIntrChan, &args, Pending::CreateIntrChan)
    }

    /// Starts a `device_read` that ends at the byte `terminator`: the flags
    /// are the link's own with `termchrset` set. The chunks that the replies
    /// bring are gathered by `absorb`.
    pub fn read_until(&mut self, terminator: u8, request_size: u32) -> (r: Result<Vec<u8>, Error>)
        ensures
            final(self)@ == spec_start(
                old(self)@,
                LinkState::Open,
                Procedure::DeviceRead,
                true,
                read_args(
                    old(self)@,
                    request_size,
                    DeviceFlags { termchrset: true, ..old(self)@.config.flags },
                    terminator,
                ),
                Pending::Read,
            ).0,
            match spec_start(
                old(self)@,
                LinkState::Open,
                Procedure::DeviceRead,
                true,
                read_args(
                    old(self)@,
                    request_size,
                    DeviceFlags { termchrset: true, ..old(self)@.config.flags },
                    terminator,
                ),
                Pending::Read,
            ).1 {
                Ok(bytes) => r matches Ok(v) && v@ == bytes,
                Err(e) => r == Err::<Vec<u8>, Error>(e),
            },
    {
        let own = self.config.flags;
        let flags = DeviceFlags { waitlock: own.waitlock, end: own.end, termchrset: true };
        self.device_read(request_size, Some(flags), terminator)
    }

    /// Judges what the stream delivered for the operation in flight: receive
    /// again, or what the operation came to.
    pub fn reply(&mut self, event: Event) -> (r: Step<Reply>)
        ensures
            final(self)@ == spec_reply(old(self)@, event).0,
            match spec_reply(old(self)@, event).1 {
                None => r is Again,
                Some(Ok(v)) => r matches Step::Done(Ok(x)) && x@ == v,
                Some(Err(e)) => r matches Step::Done(Err(x)) && x == e,
            },
    {
        if self.state == LinkState::Closed {
            return Step::Done(Err(Error::ChannelClosed));
        }
        let delivered = self.channel.deliver(Framing::RecordMarked, event);
        match self.channel.state() {
            CallState::Closed => {
                self.state = LinkState::Closed;
            },
            _ => {},
        }
        match delivered {
            Step::Again => Step::Again,
            Step::Done(Err(e)) => {
                self.pending = Pending::Nothing;
                Step::Done(Err(e))
            },
            Step::Done(Ok(results)) => Step::Done(self.settle(results.as_slice())),
        }
    }

    /// Closes the link if the instrument refused its identifier.
    fn poison(&mut self, code: i32)
        ensures
            final(self)@ == poisoned(old(self)@, code),
    {
        if code == INVALID_LINK {
            self.state = LinkState::Closed;
        }
    }

    /// Reads the results of the pending operation.
    fn settle(&mut self, results: &[u8]) -> (r: Result<Reply, Error>)
        ensures
            final(self)@ == spec_settle(old(self)@, results@).0,
            match spec_settle(old(self)@, results@).1 {
                Ok(v) => r matches Ok(x) && x@ == v,
                Err(e) => r matches Err(x) && x == e,
            },
    {
        assert(results@.skip(0) =~= results@);
        let pending = self.pending;
        self.pending = Pending::Nothing;
        match pending {
            Pending::Nothing => Err(Error::Malformed),
            Pending::CreateLink => match <(i32, (i32, (u16, u32)))>::decode(results, 0) {
                Err(_) => Err(Error::Malformed),
                Ok(((code, (lid, (abort_port, max_recv_size))), _)) => match device_result(code) {
                    Err(e) => Err(e),
                    Ok(()) => {
                        self.state = LinkState::Open;
                        self.lid = lid;
                        self.abort_port = abort_port;
                        self.max_recv_size = match self.config.max_recv_size_override {
                            Some(limit) => limit,
                            None => max_recv_size,
                        };
                        Ok(Reply::Linked)
                    },
                },
            },
            Pending::Write { len } => match <(i32, u32)>::decode(results, 0) {
                Err(_) => Err(Error::Malformed),
                Ok(((code, size), _)) => match device_result(code) {
                    Err(e) => {
                        self.poison(code);
                        Err(e)
                    },
                    Ok(()) => if size < len {
                        Err(
                            Error::Io {
                                source: IoSource::PartialWrite { written: size, expected: len },
                            },
                        )
                    } else if size > len {
                        Err(Error::Malformed)
                    } else {
                        Ok(Reply::Written(size))
                    },
                },
            },
            Pending::Read => match <(i32, (u32, Vec<u8>))>::decode(results, 0) {
                Err(_) => Err(Error::Malformed),
                Ok(((code, (reason, data)), _)) => match device_result(code) {
                    Err(e) => {
                        self.poison(code);
                        Err(e)
                    },
                    Ok(()) => Ok(Reply::Data { reason, data }),
                },
            },
            Pending::ReadStb => match <(i32, u8)>::decode(results, 0) {
                Err(_) => Err(Error::Malformed),
                Ok(((code, stb), _)) => match device_result(code) {
                    Err(e) => {
                        self.poison(code);
                        Err(e)
                    },
                    Ok(()) => Ok(Reply::Status(stb)),
                },
            },
            _ => match i32::decode(results, 0) {
                Err(_) => Err(Error::Malformed),
                Ok((code, _)) => match device_result(code) {
                    Err(e) => {
                        self.poison(code);
                        Err(e)
                    },
                    Ok(()) => {
                        match pending {
                            Pending::EnableSrq { enable } => {
                                self.srq_enabled = enable;
                                if !enable {
                                    self.srq_handle = Vec::new();
                                }
                            },
                            Pending::CreateIntrChan => {
                                self.interrupt = true;
                            },
                            Pending::DestroyIntrChan => {
                                self.interrupt = false;
                            },
                            Pending::DestroyLink => {
                                self.state = LinkState::Closed;
                            },
                            _ => {},
                        }
                        Ok(Reply::Done)
                    },
                },
            },
        }
    }
}

/// The link after a `device_write` of the head of `data` was started, and
/// the bytes for the stream.
pub open spec fn spec_device_write(m: LinkModel, data: Seq<u8>, flags: Option<DeviceFlags>) -> (
    LinkModel,
    Result<Seq<u8>, Error>,
) {
    let limit = chunk_limit(m.max_recv_size);
    let chunk = first_chunk(data, limit);
    spec_start(
        m,
        LinkState::Open,
        Procedure::DeviceWrite,
        true,
        write_args(m, DeviceFlags { end: data.len() <= limit, ..chosen_flags(m, flags) }, chunk),
        Pending::Write { len: chunk.len() as u32 },
    )
}

/// Once `destroy_link` has come back with success the link is closed.
pub proof fn lemma_destroyed_link_is_closed(m: LinkModel, results: Seq<u8>)
    requires
        m.pending == Pending::DestroyLink,
        plain_result(results) == Some(0i32),
    ensures
        spec_settle(m, results).0.state == LinkState::Closed,
        spec_settle(m, results).1 == Ok::<ReplyModel, Error>(ReplyModel::Done),
{
}

/// A closed link refuses every operation with `ChannelClosed`, is not
/// changed by the attempt, and hands nothing to the stream.
pub proof fn lemma_closed_link_refuses(
    m: LinkModel,
    needs: LinkState,
    proc: Procedure,
    valid: bool,
    args: Seq<u8>,
    pending: Pending,
    data: Seq<u8>,
    flags: Option<DeviceFlags>,
    enable: bool,
    host_addr: u32,
    host_port: u16,
)
    requires
        m.state == LinkState::Closed,
        needs != LinkState::Closed,
    ensures
        spec_start(m, needs, proc, valid, args, pending) == (
            m,
            Err::<Seq<u8>, Error>(Error::ChannelClosed),
        ),
        spec_device_write(m, data, flags) == (m, Err::<Seq<u8>, Error>(Error::ChannelClosed)),
        spec_enable_srq(m, enable, data) == (m, Err::<Seq<u8>, Error>(Error::ChannelClosed)),
        spec_create_intr_chan(m, host_addr, host_port) == (
            m,
            Err::<Seq<u8>, Error>(Error::ChannelClosed),
        ),
{
}

/// Nothing that arrives opens a closed link again: it is left as it is, and
/// the answer is `ChannelClosed`.
pub proof fn lemma_closed_link_stays_closed(m: LinkModel, event: Event)
    requires
        m.state == LinkState::Closed,
    ensures
        spec_reply(m, event) == (m, Some(Err::<ReplyModel, Error>(Error::ChannelClosed))),
{
}

/// What gathering one more chunk of a response comes to: the response so
/// far, and whether it is complete (`Ok`), too long without an end in sight
/// (`Malformed`), or still open (nothing). A chunk that would take the
/// response over the cap is not added.
pub open spec fn spec_absorb(response: Seq<u8>, cap: nat, reason: u32, chunk: Seq<u8>) -> (
    Seq<u8>,
    Option<Result<(), Error>>,
) {
    if crate::protocols::onc_rpc::vxi11::spec_terminated(reason) {
        (response + chunk, Some(Ok(())))
    } else if response.len() + chunk.len() > cap {
        (response, Some(Err(Error::Malformed)))
    } else {
        (response + chunk, None)
    }
}

/// Adds one chunk that a `device_read` brought to the response gathered so
/// far. The response is complete once a read's reason has the `CHR` or the
/// `END` bit; until then it may not grow beyond `cap` bytes.
pub fn absorb(response: &mut Vec<u8>, cap: usize, reason: u32, chunk: &[u8]) -> (r: Step<()>)
    ensures
        final(response)@ == spec_absorb(old(response)@, cap as nat, reason, chunk@).0,
        r == match spec_absorb(old(response)@, cap as nat, reason, chunk@).1 {
            None => Step::Again,
            Some(outcome) => Step::Done(outcome),
        },
{
    if crate::protocols::onc_rpc::vxi11::terminated(reason) {
        response.extend_from_slice(chunk);
        Step::Done(Ok(()))
    } else if response.len() > cap || chunk.len() > cap - response.len() {
        Step::Done(Err(Error::Malformed))
    } else {
        response.extend_from_slice(chunk);
        Step::Again
    }
}

} // verus!
