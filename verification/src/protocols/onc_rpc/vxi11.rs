//! VXI-11: instrument control over ONC RPC.
//!
//! Three programs make up the protocol. The core program carries the link
//! and its reads and writes, the abort program cuts short what is in flight
//! on the core channel, and the interrupt program runs the other way: the
//! instrument calls the host to request service.
use vstd::prelude::*;
use crate::error::{AcceptError, Error};
use crate::protocols::onc_rpc::xdr::Xdr;

pub mod interrupt;
pub mod link;

verus! {

/// Program number of the core channel.
pub const DEVICE_CORE: u32 = 395183;

/// Program number of the abort channel.
pub const DEVICE_ASYNC: u32 = 395184;

/// Program number of the interrupt channel.
pub const DEVICE_INTR: u32 = 395185;

/// The version of all three programs.
pub const DEVICE_VERSION: u32 = 1;

/// Procedure number of `device_abort` on the abort channel.
pub const DEVICE_ABORT: u32 = 1;

/// Procedure number of `device_intr_srq` on the interrupt channel.
pub const DEVICE_INTR_SRQ: u32 = 30;

/// The longest handle that `device_enable_srq` takes.
pub const MAX_SRQ_HANDLE: usize = 40;

/// The device name of the one instrument in a single-instrument box.
pub const DEFAULT_DEVICE: &'static str = "inst0";

/// The error code by which an instrument refuses a link identifier.
pub const INVALID_LINK: i32 = 4;

/// The error code by which a second interrupt channel is refused.
pub const CHANNEL_ALREADY_ESTABLISHED: i32 = 29;

/// The transport by which the instrument reaches the interrupt channel.
#[derive(Clone, Copy, Debug, PartialEq, Eq, Structural)]
pub enum AddrFamily {
    Tcp,
    Udp,
}

impl View for AddrFamily {
    type V = AddrFamily;

    open spec fn view(&self) -> AddrFamily {
        *self
    }
}

impl AddrFamily {
    /// The number of the family.
    pub open spec fn spec_number(self) -> i32 {
        match self {
            AddrFamily::Tcp => 0,
            AddrFamily::Udp => 1,
        }
    }
}

/// An enumeration travels as a signed integer; a number that names no member
/// is malformed.
impl Xdr for AddrFamily {
    open spec fn valid(v: AddrFamily) -> bool {
        true
    }

    open spec fn wire(v: AddrFamily) -> Seq<u8> {
        i32::wire(v.spec_number())
    }

    open spec fn parse(s: Seq<u8>) -> Option<(AddrFamily, nat)> {
        match i32::parse(s) {
            Some((n, used)) => if n == 0 {
                Some((AddrFamily::Tcp, used))
            } else if n == 1 {
                Some((AddrFamily::Udp, used))
            } else {
                None
            },
            None => None,
        }
    }

    proof fn lemma_round_trip(v: AddrFamily, rest: Seq<u8>) {
        i32::lemma_round_trip(v.spec_number(), rest);
    }

    proof fn lemma_parse_bounds(s: Seq<u8>) {
        i32::lemma_parse_bounds(s);
    }

    fn encode(&self, out: &mut Vec<u8>) -> (r: Result<(), Error>) {
        let n: i32 = match self {
            AddrFamily::Tcp => 0,
            AddrFamily::Udp => 1,
        };
        n.encode(out)
    }

    fn decode(buf: &[u8], pos: usize) -> (r: Result<(Self, usize), Error>) {
        match i32::decode(buf, pos) {
            Ok((n, next)) => if n == 0 {
                Ok((AddrFamily::Tcp, next))
            } else if n == 1 {
                Ok((AddrFamily::Udp, next))
            } else {
                Err(Error::Malformed)
            },
            Err(e) => Err(e),
        }
    }
}

/// The procedures of the core channel.
#[derive(Clone, Copy, Debug, PartialEq, Eq, Structural)]
pub enum Procedure {
    CreateLink,
    DeviceWrite,
    DeviceRead,
    DeviceReadStb,
    DeviceTrigger,
    DeviceClear,
    DeviceRemote,
    DeviceLocal,
    DeviceLock,
    DeviceUnlock,
    DeviceEnableSrq,
    DeviceDocmd,
    DestroyLink,
    CreateIntrChan,
    DestroyIntrChan,
}

impl Procedure {
    /// The procedure number.
    pub open spec fn spec_number(self) -> u32 {
        match self {
            Procedure::CreateLink => 10,
            Procedure::DeviceWrite => 11,
            Procedure::DeviceRead => 12,
            Procedure::DeviceReadStb => 13,
            Procedure::DeviceTrigger => 14,
            Procedure::DeviceClear => 15,
            Procedure::DeviceRemote => 16,
            Procedure::DeviceLocal => 17,
            Procedure::DeviceLock => 18,
            Procedure::DeviceUnlock => 19,
            Procedure::DeviceEnableSrq => 20,
            Procedure::DeviceDocmd => 22,
            Procedure::DestroyLink => 23,
            Procedure::CreateIntrChan => 25,
            Procedure::DestroyIntrChan => 26,
        }
    }

    /// The procedure number.
    pub fn number(self) -> (r: u32)
        ensures
            r == self.spec_number(),
    {
        match self {
            Procedure::CreateLink => 10,
            Procedure::DeviceWrite => 11,
            Procedure::DeviceRead => 12,
            Procedure::DeviceReadStb => 13,
            Procedure::DeviceTrigger => 14,
            Procedure::DeviceClear => 15,
            Procedure::DeviceRemote => 16,
            Procedure::DeviceLocal => 17,
            Procedure::DeviceLock => 18,
            Procedure::DeviceUnlock => 19,
            Procedure::DeviceEnableSrq => 20,
            Procedure::DeviceDocmd => 22,
            Procedure::DestroyLink => 23,
            Procedure::CreateIntrChan => 25,
            Procedure::DestroyIntrChan => 26,
        }
    }
}

/// Flag bit: wait for the lock instead of failing at once.
pub const WAITLOCK: u32 = 0x01;

/// Flag bit: the data end the message.
pub const END: u32 = 0x08;

/// Flag bit: a read ends at the termination character.
pub const TERMCHRSET: u32 = 0x80;

/// The flags of a device operation.
#[derive(Clone, Copy, Debug, PartialEq, Eq, Structural)]
pub struct DeviceFlags {
    /// Wait for the lock, up to the lock timeout.
    pub waitlock: bool,
    /// On a write: these data end the message.
    pub end: bool,
    /// On a read: stop at the termination character.
    pub termchrset: bool,
}

impl DeviceFlags {
    /// No flag set.
    pub open spec fn spec_new_zero() -> DeviceFlags {
        DeviceFlags { waitlock: false, end: false, termchrset: false }
    }

    /// No flag set.
    pub fn new_zero() -> (r: DeviceFlags)
        ensures
            r == Self::spec_new_zero(),
    {
        DeviceFlags { waitlock: false, end: false, termchrset: false }
    }

    /// The flags as the number that travels: the sum of the bits that are set.
    pub open spec fn spec_bits(self) -> i32 {
        ((if self.waitlock {
            WAITLOCK as int
        } else {
            0
        }) + (if self.end {
            END as int
        } else {
            0
        }) + (if self.termchrset {
            TERMCHRSET as int
        } else {
            0
        })) as i32
    }

    /// The flags as the number that travels.
    pub fn bits(self) -> (r: i32)
        ensures
            r == self.spec_bits(),
    {
        let w: i32 = if self.waitlock {
            0x01
        } else {
            0
        };
        let e: i32 = if self.end {
            0x08
        } else {
            0
        };
        let t: i32 = if self.termchrset {
            0x80
        } else {
            0
        };
        w + e + t
    }

    /// These flags with the end flag set or cleared.
    pub fn with_end(self, end: bool) -> (r: DeviceFlags)
        ensures
            r == (DeviceFlags { end, ..self }),
    {
        DeviceFlags { waitlock: self.waitlock, end, termchrset: self.termchrset }
    }
}

/// In the number that travels, the bit `0x08` is set exactly when the end
/// flag is, the bit `0x01` when the wait-lock flag is, and the bit `0x80`
/// when the termination-character flag is.
pub proof fn lemma_flag_bits(flags: DeviceFlags)
    ensures
        (flags.spec_bits() as u32) & END == END <==> flags.end,
        (flags.spec_bits() as u32) & WAITLOCK == WAITLOCK <==> flags.waitlock,
        (flags.spec_bits() as u32) & TERMCHRSET == TERMCHRSET <==> flags.termchrset,
{
    let b: u32 = flags.spec_bits() as u32;
    assert(b == 0x00 || b == 0x01 || b == 0x08 || b == 0x09 || b == 0x80 || b == 0x81 || b == 0x88
        || b == 0x89);
    assert((b == 0x00 || b == 0x01 || b == 0x08 || b == 0x09 || b == 0x80 || b == 0x81 || b == 0x88
        || b == 0x89) ==> ((b & 0x08 == 0x08) <==> (b == 0x08 || b == 0x09 || b == 0x88 || b
        == 0x89)) && ((b & 0x01 == 0x01) <==> (b == 0x01 || b == 0x09 || b == 0x81 || b == 0x89))
        && ((b & 0x80 == 0x80) <==> (b == 0x80 || b == 0x81 || b == 0x88 || b == 0x89)))
        by (bit_vector);
}

/// Reason bit of a read: the requested number of bytes was reached.
pub const REQCNT: u32 = 1;

/// Reason bit of a read: the termination character was seen.
pub const CHR: u32 = 2;

/// Reason bit of a read: the END indicator was seen.
pub const END_SEEN: u32 = 4;

/// Whether a read's reason says that the response is complete: the
/// termination character or the END indicator was seen.
pub open spec fn spec_terminated(reason: u32) -> bool {
    reason & (CHR | END_SEEN) != 0
}

/// Whether a read's reason says that the response is complete.
pub fn terminated(reason: u32) -> (r: bool)
    ensures
        r == spec_terminated(reason),
{
    reason & (CHR | END_SEEN) != 0
}

/// A read is complete exactly when its reason has the `CHR` bit or the `END`
/// bit; the `REQCNT` bit alone leaves it open.
pub proof fn lemma_terminated(reason: u32)
    ensures
        spec_terminated(reason) <==> (reason & CHR == CHR || reason & END_SEEN == END_SEEN),
        spec_terminated(CHR),
        spec_terminated(END_SEEN),
        !spec_terminated(REQCNT),
        !spec_terminated(0),
{
    assert((reason & (2u32 | 4u32) != 0) <==> (reason & 2u32 == 2u32 || reason & 4u32 == 4u32))
        by (bit_vector);
    assert(2u32 & (2u32 | 4u32) != 0) by (bit_vector);
    assert(4u32 & (2u32 | 4u32) != 0) by (bit_vector);
    assert(1u32 & (2u32 | 4u32) == 0) by (bit_vector);
    assert(0u32 & (2u32 | 4u32) == 0) by (bit_vector);
}

/// An IPv4 address, as the number that its four bytes spell, and a port.
#[derive(Clone, Copy, Debug, PartialEq, Eq, Structural)]
pub struct HostAddr {
    pub host: u32,
    pub port: u16,
}

/// The settings of a VXI-11 session. Times are in milliseconds.
#[derive(Clone, Copy, Debug, PartialEq, Eq, Structural)]
pub struct Vxi11Client {
    /// The number by which the client names itself in `create_link`.
    pub client_id: i32,
    /// Whether `create_link` asks for the device lock.
    pub lock: bool,
    /// The flags of an operation whose caller gives none.
    pub flags: DeviceFlags,
    /// How long to wait for the connection.
    pub connect_timeout: u32,
    /// How long the instrument may take over one operation.
    pub io_timeout: u32,
    /// How long to wait for a lock that another link holds.
    pub lock_timeout: u32,
    /// A limit on the payload of one write that overrides the instrument's.
    pub max_recv_size_override: Option<u32>,
    /// The address on which the interrupt channel listens.
    pub srq_listen_addr: Option<HostAddr>,
    /// The program version of the interrupt channel.
    pub srq_program_vers: u32,
}

impl Vxi11Client {
    /// The default settings: one second to connect and per operation, no
    /// waiting for locks, no lock held, no flags.
    pub open spec fn spec_default() -> Vxi11Client {
        Vxi11Client {
            client_id: 0,
            lock: false,
            flags: DeviceFlags::spec_new_zero(),
            connect_timeout: 1000,
            io_timeout: 1000,
            lock_timeout: 0,
            max_recv_size_override: None,
            srq_listen_addr: None,
            srq_program_vers: DEVICE_VERSION,
        }
    }
}

impl Default for Vxi11Client {
    fn default() -> (r: Vxi11Client)
        ensures
            r == Vxi11Client::spec_default(),
    {
        Vxi11Client {
            client_id: 0,
            lock: false,
            flags: DeviceFlags::new_zero(),
            connect_timeout: 1000,
            io_timeout: 1000,
            lock_timeout: 0,
            max_recv_size_override: None,
            srq_listen_addr: None,
            srq_program_vers: DEVICE_VERSION,
        }
    }
}

/// The port that the portmapper names for a service, as a port to connect
/// to. Zero says that the portmapper knows no such program; a number that is
/// no port is malformed.
pub open spec fn spec_service_port(port: u32) -> Result<u16, Error> {
    if port == 0 {
        Err(Error::RpcError { stat: AcceptError::ProgUnavail })
    } else if port > 0xffff {
        Err(Error::Malformed)
    } else {
        Ok(port as u16)
    }
}

/// Turns the port that the portmapper named for the core program into the
/// port to open the core channel on.
pub fn service_port(port: u32) -> (r: Result<u16, Error>)
    ensures
        r == spec_service_port(port),
{
    if port == 0 {
        Err(Error::RpcError { stat: AcceptError::ProgUnavail })
    } else if port > 0xffff {
        Err(Error::Malformed)
    } else {
        Ok(port as u16)
    }
}

} // verus!
