//! RPC call and reply headers.
//!
//! A call is its header followed by the procedure's arguments; an accepted
//! and successful reply is its header followed by the procedure's results.
//! Both headers are XDR structures, the reply one a union over how the call
//! fared.
use vstd::prelude::*;
use crate::error::{AcceptError, Error, RejectReason};
use crate::protocols::onc_rpc::xdr::{
    be32,
    from_pos,
    get_opaque,
    get_u32,
    lemma_be32_of_wire,
    lemma_parse_opaque_of_wire,
    opaque_wire,
    parse_opaque,
    put_opaque,
    put_u32,
    u32_wire,
    Xdr,
};

verus! {

broadcast use crate::protocols::onc_rpc::xdr::lemma_u32_wire_len;

/// The RPC protocol version spoken here.
pub const RPC_VERSION: u32 = 2;

/// Message type of a call.
pub const CALL: u32 = 0;

/// Message type of a reply.
pub const REPLY: u32 = 1;

/// Reply status: the call was accepted.
pub const MSG_ACCEPTED: u32 = 0;

/// Reply status: the call was refused.
pub const MSG_DENIED: u32 = 1;

/// Accept status: the procedure ran and its results follow.
pub const SUCCESS: u32 = 0;

/// Accept status: the program is not exported.
pub const PROG_UNAVAIL: u32 = 1;

/// Accept status: the program is exported in other versions only.
pub const PROG_MISMATCH: u32 = 2;

/// Accept status: the program has no such procedure.
pub const PROC_UNAVAIL: u32 = 3;

/// Accept status: the arguments could not be decoded.
pub const GARBAGE_ARGS: u32 = 4;

/// Accept status: the server failed for lack of some resource.
pub const SYSTEM_ERR: u32 = 5;

/// Reject status: the RPC version is not supported.
pub const RPC_MISMATCH: u32 = 0;

/// Reject status: authentication failed.
pub const AUTH_ERROR: u32 = 1;

/// The authentication flavor that carries nothing.
pub const AUTH_NONE: u32 = 0;

/// The longest body of credentials or of a verifier.
pub const MAX_AUTH_BODY: usize = 400;

/// Credentials or a verifier: a flavor and at most 400 bytes that only the
/// flavor can interpret.
#[derive(Clone, Debug, PartialEq, Eq)]
pub struct OpaqueAuth {
    pub flavor: u32,
    pub body: Vec<u8>,
}

/// What an `OpaqueAuth` holds.
pub struct OpaqueAuthView {
    pub flavor: u32,
    pub body: Seq<u8>,
}

impl View for OpaqueAuth {
    type V = OpaqueAuthView;

    open spec fn view(&self) -> OpaqueAuthView {
        OpaqueAuthView { flavor: self.flavor, body: self.body@ }
    }
}

impl OpaqueAuth {
    /// No authentication: flavor `AUTH_NONE` and an empty body.
    pub fn none() -> (r: OpaqueAuth)
        ensures
            r@ == Self::spec_none(),
    {
        OpaqueAuth { flavor: AUTH_NONE, body: Vec::new() }
    }

    /// No authentication, as a value of the model.
    pub open spec fn spec_none() -> OpaqueAuthView {
        OpaqueAuthView { flavor: AUTH_NONE, body: Seq::empty() }
    }
}

impl Xdr for OpaqueAuth {
    open spec fn valid(v: OpaqueAuthView) -> bool {
        v.body.len() <= MAX_AUTH_BODY
    }

    open spec fn wire(v: OpaqueAuthView) -> Seq<u8> {
        u32_wire(v.flavor) + opaque_wire(v.body)
    }

    open spec fn parse(s: Seq<u8>) -> Option<(OpaqueAuthView, nat)> {
        if s.len() < 4 {
            None
        } else {
            match parse_opaque(s.skip(4)) {
                Some((body, n)) => if body.len() <= MAX_AUTH_BODY {
                    Some((OpaqueAuthView { flavor: be32(s), body }, 4 + n))
                } else {
                    None
                },
                None => None,
            }
        }
    }

    proof fn lemma_round_trip(v: OpaqueAuthView, rest: Seq<u8>) {
        let s = Self::wire(v) + rest;
        assert(s =~= u32_wire(v.flavor) + (opaque_wire(v.body) + rest));
        lemma_be32_of_wire(v.flavor, opaque_wire(v.body) + rest);
        assert(s.skip(4) =~= opaque_wire(v.body) + rest);
        lemma_parse_opaque_of_wire(v.body, rest);
    }

    proof fn lemma_parse_bounds(s: Seq<u8>) {
    }

    fn encode(&self, out: &mut Vec<u8>) -> (r: Result<(), Error>) {
        if self.body.len() > MAX_AUTH_BODY {
            return Err(Error::Malformed);
        }
        put_u32(out, self.flavor);
        let wrote = put_opaque(out, self.body.as_slice());
        assert(out@ =~= old(out)@ + Self::wire(self@));
        Ok(())
    }

    fn decode(buf: &[u8], pos: usize) -> (r: Result<(Self, usize), Error>) {
        let (flavor, next): (u32, usize) = match get_u32(buf, pos) {
            Ok(x) => x,
            Err(e) => {
                return Err(e);
            },
        };
        assert(buf@.skip(pos as int).skip(4) =~= buf@.skip(next as int));
        match get_opaque(buf, next) {
            Ok((data, end)) => {
                if data.len() > MAX_AUTH_BODY {
                    return Err(Error::Malformed);
                }
                let mut body: Vec<u8> = Vec::new();
                body.extend_from_slice(data);
                assert(body@ =~= data@);
                Ok((OpaqueAuth { flavor, body }, end))
            },
            Err(e) => Err(e),
        }
    }
}

/// The head of a call message. What follows it on the wire are the
/// procedure's arguments.
#[derive(Clone, Debug, PartialEq, Eq)]
pub struct CallHeader {
    pub xid: u32,
    pub prog: u32,
    pub vers: u32,
    pub proc: u32,
    pub cred: OpaqueAuth,
    pub verf: OpaqueAuth,
}

/// What a `CallHeader` holds.
pub struct CallHeaderView {
    pub xid: u32,
    pub prog: u32,
    pub vers: u32,
    pub proc: u32,
    pub cred: OpaqueAuthView,
    pub verf: OpaqueAuthView,
}

impl View for CallHeader {
    type V = CallHeaderView;

    open spec fn view(&self) -> CallHeaderView {
        CallHeaderView {
            xid: self.xid,
            prog: self.prog,
            vers: self.vers,
            proc: self.proc,
            cred: self.cred@,
            verf: self.verf@,
        }
    }
}

/// The six numbers that open a call: xid, message type, RPC version,
/// program, version and procedure.
pub open spec fn call_prefix_wire(xid: u32, prog: u32, vers: u32, proc: u32) -> Seq<u8> {
    u32_wire(xid) + u32_wire(CALL) + u32_wire(RPC_VERSION) + u32_wire(prog) + u32_wire(vers)
        + u32_wire(proc)
}

/// Reading the six numbers back.
pub proof fn lemma_call_prefix(xid: u32, prog: u32, vers: u32, proc: u32, rest: Seq<u8>)
    ensures
        call_prefix_wire(xid, prog, vers, proc).len() == 24,
        be32(call_prefix_wire(xid, prog, vers, proc) + rest) == xid,
        be32((call_prefix_wire(xid, prog, vers, proc) + rest).skip(4)) == CALL,
        be32((call_prefix_wire(xid, prog, vers, proc) + rest).skip(8)) == RPC_VERSION,
        be32((call_prefix_wire(xid, prog, vers, proc) + rest).skip(12)) == prog,
        be32((call_prefix_wire(xid, prog, vers, proc) + rest).skip(16)) == vers,
        be32((call_prefix_wire(xid, prog, vers, proc) + rest).skip(20)) == proc,
        (call_prefix_wire(xid, prog, vers, proc) + rest).skip(24) == rest,
{
    let s = call_prefix_wire(xid, prog, vers, proc) + rest;
    let t5 = u32_wire(proc) + rest;
    let t4 = u32_wire(vers) + t5;
    let t3 = u32_wire(prog) + t4;
    let t2 = u32_wire(RPC_VERSION) + t3;
    let t1 = u32_wire(CALL) + t2;
    assert(s =~= u32_wire(xid) + t1);
    assert(s.skip(4) =~= t1);
    assert(s.skip(8) =~= t2);
    assert(s.skip(12) =~= t3);
    assert(s.skip(16) =~= t4);
    assert(s.skip(20) =~= t5);
    assert(s.skip(24) =~= rest);
    lemma_be32_of_wire(xid, t1);
    lemma_be32_of_wire(CALL, t2);
    lemma_be32_of_wire(RPC_VERSION, t3);
    lemma_be32_of_wire(prog, t4);
    lemma_be32_of_wire(vers, t5);
    lemma_be32_of_wire(proc, rest);
}

impl Xdr for CallHeader {
    open spec fn valid(v: CallHeaderView) -> bool {
        OpaqueAuth::valid(v.cred) && OpaqueAuth::valid(v.verf)
    }

    open spec fn wire(v: CallHeaderView) -> Seq<u8> {
        call_prefix_wire(v.xid, v.prog, v.vers, v.proc) + OpaqueAuth::wire(v.cred)
            + OpaqueAuth::wire(v.verf)
    }

    /// Only a call of RPC version 2 is a call header.
    open spec fn parse(s: Seq<u8>) -> Option<(CallHeaderView, nat)> {
        if s.len() < 24 || be32(s.skip(4)) != CALL || be32(s.skip(8)) != RPC_VERSION {
            None
        } else {
            match OpaqueAuth::parse(s.skip(24)) {
                Some((cred, n)) => match OpaqueAuth::parse(s.skip(24 + n as int)) {
                    Some((verf, m)) => Some(
                        (
                            CallHeaderView {
                                xid: be32(s),
                                prog: be32(s.skip(12)),
                                vers: be32(s.skip(16)),
                                proc: be32(s.skip(20)),
                                cred,
                                verf,
                            },
                            24 + n + m,
                        ),
                    ),
                    None => None,
                },
                None => None,
            }
        }
    }

    proof fn lemma_round_trip(v: CallHeaderView, rest: Seq<u8>) {
        let s = Self::wire(v) + rest;
        let after_cred = OpaqueAuth::wire(v.verf) + rest;
        let after_prefix = OpaqueAuth::wire(v.cred) + after_cred;
        assert(s =~= call_prefix_wire(v.xid, v.prog, v.vers, v.proc) + after_prefix);
        lemma_call_prefix(v.xid, v.prog, v.vers, v.proc, after_prefix);
        OpaqueAuth::lemma_round_trip(v.cred, after_cred);
        let n = OpaqueAuth::wire(v.cred).len();
        assert(s.skip(24 + n as int) =~= after_cred);
        OpaqueAuth::lemma_round_trip(v.verf, rest);
    }

    proof fn lemma_parse_bounds(s: Seq<u8>) {
        if let Some((v, k)) = Self::parse(s) {
            OpaqueAuth::lemma_parse_bounds(s.skip(24));
            let n = OpaqueAuth::parse(s.skip(24))->Some_0.1;
            OpaqueAuth::lemma_parse_bounds(s.skip(24 + n as int));
        }
    }

    fn encode(&self, out: &mut Vec<u8>) -> (r: Result<(), Error>) {
        if self.cred.body.len() > MAX_AUTH_BODY || self.verf.body.len() > MAX_AUTH_BODY {
            return Err(Error::Malformed);
        }
        put_u32(out, self.xid);
        put_u32(out, CALL);
        put_u32(out, RPC_VERSION);
        put_u32(out, self.prog);
        put_u32(out, self.vers);
        put_u32(out, self.proc);
        let cred = self.cred.encode(out);
        let verf = self.verf.encode(out);
        assert(out@ =~= old(out)@ + Self::wire(self@));
        Ok(())
    }

    fn decode(buf: &[u8], pos: usize) -> (r: Result<(Self, usize), Error>) {
        if pos > buf.len() || buf.len() - pos < 24 {
            return Err(Error::Malformed);
        }
        let ghost s = buf@.skip(pos as int);
        proof {
            assert(s.skip(4) =~= buf@.skip(pos + 4));
            assert(s.skip(8) =~= buf@.skip(pos + 8));
            assert(s.skip(12) =~= buf@.skip(pos + 12));
            assert(s.skip(16) =~= buf@.skip(pos + 16));
            assert(s.skip(20) =~= buf@.skip(pos + 20));
            assert(s.skip(24) =~= buf@.skip(pos + 24));
        }
        let xid = get_u32(buf, pos);
        let kind = get_u32(buf, pos + 4);
        let rpcvers = get_u32(buf, pos + 8);
        let prog = get_u32(buf, pos + 12);
        let vers = get_u32(buf, pos + 16);
        let proc = get_u32(buf, pos + 20);
        match (xid, kind, rpcvers, prog, vers, proc) {
            (
                Ok((xid, _)),
                Ok((kind, _)),
                Ok((rpcvers, _)),
                Ok((prog, _)),
                Ok((vers, _)),
                Ok((proc, _)),
            ) => {
                if kind != CALL || rpcvers != RPC_VERSION {
                    return Err(Error::Malformed);
                }
                let (cred, next): (OpaqueAuth, usize) = match OpaqueAuth::decode(buf, pos + 24) {
                    Ok(x) => x,
                    Err(e) => {
                        return Err(Error::Malformed);
                    },
                };
                assert(s.skip(24 + (next - pos - 24)) =~= buf@.skip(next as int));
                match OpaqueAuth::decode(buf, next) {
                    Ok((verf, end)) => Ok((CallHeader { xid, prog, vers, proc, cred, verf }, end)),
                    Err(e) => Err(Error::Malformed),
                }
            },
            _ => Err(Error::Malformed),
        }
    }
}

/// How a call fared, as the reply says.
#[derive(Clone, Copy, Debug, PartialEq, Eq, Structural)]
pub enum ReplyStatus {
    /// Accepted and run: the results follow the header.
    Success,
    /// Accepted, then failed.
    Failed(AcceptError),
    /// Refused.
    Denied(RejectReason),
}

/// The head of a reply message. The verifier of an accepted reply is written
/// as `AUTH_NONE` and skipped when read.
#[derive(Clone, Copy, Debug, PartialEq, Eq, Structural)]
pub struct ReplyHeader {
    pub xid: u32,
    pub status: ReplyStatus,
}

impl View for ReplyHeader {
    type V = ReplyHeader;

    open spec fn view(&self) -> ReplyHeader {
        *self
    }
}

/// The status union of a reply, from the reply status on.
pub open spec fn status_wire(status: ReplyStatus) -> Seq<u8> {
    match status {
        ReplyStatus::Success => u32_wire(MSG_ACCEPTED) + OpaqueAuth::wire(OpaqueAuth::spec_none())
            + u32_wire(SUCCESS),
        ReplyStatus::Failed(stat) => u32_wire(MSG_ACCEPTED) + OpaqueAuth::wire(
            OpaqueAuth::spec_none(),
        ) + accept_error_wire(stat),
        ReplyStatus::Denied(reason) => u32_wire(MSG_DENIED) + reject_wire(reason),
    }
}

/// The accept-status union of a failed call.
pub open spec fn accept_error_wire(stat: AcceptError) -> Seq<u8> {
    match stat {
        AcceptError::ProgUnavail => u32_wire(PROG_UNAVAIL),
        AcceptError::ProgMismatch { low, high } => u32_wire(PROG_MISMATCH) + u32_wire(low)
            + u32_wire(high),
        AcceptError::ProcUnavail => u32_wire(PROC_UNAVAIL),
        AcceptError::GarbageArgs => u32_wire(GARBAGE_ARGS),
        AcceptError::SystemErr => u32_wire(SYSTEM_ERR),
    }
}

/// The reject-status union of a refused call.
pub open spec fn reject_wire(reason: RejectReason) -> Seq<u8> {
    match reason {
        RejectReason::RpcMismatch { low, high } => u32_wire(RPC_MISMATCH) + u32_wire(low)
            + u32_wire(high),
        RejectReason::AuthError { stat } => u32_wire(AUTH_ERROR) + u32_wire(stat),
    }
}

/// Reads the accept-status union at the head of `s`. A discriminant that is
/// not known is malformed.
pub open spec fn parse_accept(s: Seq<u8>) -> Option<(ReplyStatus, nat)> {
    if s.len() < 4 {
        None
    } else if be32(s) == SUCCESS {
        Some((ReplyStatus::Success, 4nat))
    } else if be32(s) == PROG_UNAVAIL {
        Some((ReplyStatus::Failed(AcceptError::ProgUnavail), 4nat))
    } else if be32(s) == PROG_MISMATCH {
        if s.len() < 12 {
            None
        } else {
            Some(
                (
                    ReplyStatus::Failed(
                        AcceptError::ProgMismatch { low: be32(s.skip(4)), high: be32(s.skip(8)) },
                    ),
                    12nat,
                ),
            )
        }
    } else if be32(s) == PROC_UNAVAIL {
        Some((ReplyStatus::Failed(AcceptError::ProcUnavail), 4nat))
    } else if be32(s) == GARBAGE_ARGS {
        Some((ReplyStatus::Failed(AcceptError::GarbageArgs), 4nat))
    } else if be32(s) == SYSTEM_ERR {
        Some((ReplyStatus::Failed(AcceptError::SystemErr), 4nat))
    } else {
        None
    }
}

/// Reads the reject-status union at the head of `s`.
pub open spec fn parse_reject(s: Seq<u8>) -> Option<(ReplyStatus, nat)> {
    if s.len() < 4 {
        None
    } else if be32(s) == RPC_MISMATCH {
        if s.len() < 12 {
            None
        } else {
            Some(
                (
                    ReplyStatus::Denied(
                        RejectReason::RpcMismatch { low: be32(s.skip(4)), high: be32(s.skip(8)) },
                    ),
                    12nat,
                ),
            )
        }
    } else if be32(s) == AUTH_ERROR {
        if s.len() < 8 {
            None
        } else {
            Some((ReplyStatus::Denied(RejectReason::AuthError { stat: be32(s.skip(4)) }), 8nat))
        }
    } else {
        None
    }
}

/// Reads the status union at the head of `s`, from the reply status on.
pub open spec fn parse_status(s: Seq<u8>) -> Option<(ReplyStatus, nat)> {
    if s.len() < 4 {
        None
    } else if be32(s) == MSG_ACCEPTED {
        match OpaqueAuth::parse(s.skip(4)) {
            Some((_, n)) => match parse_accept(s.skip(4 + n as int)) {
                Some((status, m)) => Some((status, 4 + n + m)),
                None => None,
            },
            None => None,
        }
    } else if be32(s) == MSG_DENIED {
        match parse_reject(s.skip(4)) {
            Some((status, m)) => Some((status, 4 + m)),
            None => None,
        }
    } else {
        None
    }
}

/// Reading back one, two or three numbers.
pub proof fn lemma_words(a: u32, b: u32, c: u32, rest: Seq<u8>)
    ensures
        be32(u32_wire(a) + rest) == a,
        be32(u32_wire(a) + u32_wire(b) + rest) == a,
        be32((u32_wire(a) + u32_wire(b) + rest).skip(4)) == b,
        be32(u32_wire(a) + u32_wire(b) + u32_wire(c) + rest) == a,
        be32((u32_wire(a) + u32_wire(b) + u32_wire(c) + rest).skip(4)) == b,
        be32((u32_wire(a) + u32_wire(b) + u32_wire(c) + rest).skip(8)) == c,
{
    let s2 = u32_wire(a) + u32_wire(b) + rest;
    let s3 = u32_wire(a) + u32_wire(b) + u32_wire(c) + rest;
    lemma_be32_of_wire(a, rest);
    lemma_be32_of_wire(a, u32_wire(b) + rest);
    lemma_be32_of_wire(b, rest);
    assert(s2 =~= u32_wire(a) + (u32_wire(b) + rest));
    assert(s2.skip(4) =~= u32_wire(b) + rest);
    lemma_be32_of_wire(a, u32_wire(b) + u32_wire(c) + rest);
    lemma_be32_of_wire(b, u32_wire(c) + rest);
    lemma_be32_of_wire(c, rest);
    assert(s3 =~= u32_wire(a) + (u32_wire(b) + u32_wire(c) + rest));
    assert(s3.skip(4) =~= u32_wire(b) + (u32_wire(c) + rest));
    assert(s3.skip(8) =~= u32_wire(c) + rest);
}

/// Reading back the accept-status union of a failed call.
pub proof fn lemma_accept_round_trip(stat: AcceptError, rest: Seq<u8>)
    ensures
        accept_error_wire(stat).len() % 4 == 0,
        parse_accept(accept_error_wire(stat) + rest) == Some(
            (ReplyStatus::Failed(stat), accept_error_wire(stat).len()),
        ),
{
    match stat {
        AcceptError::ProgMismatch { low, high } => {
            lemma_words(PROG_MISMATCH, low, high, rest);
        },
        AcceptError::ProgUnavail => {
            lemma_be32_of_wire(PROG_UNAVAIL, rest);
        },
        AcceptError::ProcUnavail => {
            lemma_be32_of_wire(PROC_UNAVAIL, rest);
        },
        AcceptError::GarbageArgs => {
            lemma_be32_of_wire(GARBAGE_ARGS, rest);
        },
        AcceptError::SystemErr => {
            lemma_be32_of_wire(SYSTEM_ERR, rest);
        },
    }
}

/// Reading back the reject-status union.
pub proof fn lemma_reject_round_trip(reason: RejectReason, rest: Seq<u8>)
    ensures
        reject_wire(reason).len() % 4 == 0,
        parse_reject(reject_wire(reason) + rest) == Some(
            (ReplyStatus::Denied(reason), reject_wire(reason).len()),
        ),
{
    match reason {
        RejectReason::RpcMismatch { low, high } => {
            lemma_words(RPC_MISMATCH, low, high, rest);
        },
        RejectReason::AuthError { stat } => {
            lemma_words(AUTH_ERROR, stat, 0, rest);
        },
    }
}

/// Reading back the status union.
pub proof fn lemma_status_round_trip(status: ReplyStatus, rest: Seq<u8>)
    ensures
        status_wire(status).len() % 4 == 0,
        parse_status(status_wire(status) + rest) == Some((status, status_wire(status).len())),
{
    let s = status_wire(status) + rest;
    let none = OpaqueAuth::spec_none();
    match status {
        ReplyStatus::Success => {
            let tail = u32_wire(SUCCESS) + rest;
            assert(s =~= u32_wire(MSG_ACCEPTED) + (OpaqueAuth::wire(none) + tail));
            lemma_be32_of_wire(MSG_ACCEPTED, OpaqueAuth::wire(none) + tail);
            assert(s.skip(4) =~= OpaqueAuth::wire(none) + tail);
            OpaqueAuth::lemma_round_trip(none, tail);
            assert(s.skip(4 + OpaqueAuth::wire(none).len() as int) =~= tail);
            lemma_be32_of_wire(SUCCESS, rest);
        },
        ReplyStatus::Failed(stat) => {
            let tail = accept_error_wire(stat) + rest;
            assert(s =~= u32_wire(MSG_ACCEPTED) + (OpaqueAuth::wire(none) + tail));
            lemma_be32_of_wire(MSG_ACCEPTED, OpaqueAuth::wire(none) + tail);
            assert(s.skip(4) =~= OpaqueAuth::wire(none) + tail);
            OpaqueAuth::lemma_round_trip(none, tail);
            assert(s.skip(4 + OpaqueAuth::wire(none).len() as int) =~= tail);
            lemma_accept_round_trip(stat, rest);
        },
        ReplyStatus::Denied(reason) => {
            let tail = reject_wire(reason) + rest;
            assert(s =~= u32_wire(MSG_DENIED) + tail);
            lemma_be32_of_wire(MSG_DENIED, tail);
            assert(s.skip(4) =~= tail);
            lemma_reject_round_trip(reason, rest);
        },
    }
}

impl Xdr for ReplyHeader {
    open spec fn valid(v: ReplyHeader) -> bool {
        true
    }

    open spec fn wire(v: ReplyHeader) -> Seq<u8> {
        u32_wire(v.xid) + u32_wire(REPLY) + status_wire(v.status)
    }

    /// Only a message of type reply is a reply header.
    open spec fn parse(s: Seq<u8>) -> Option<(ReplyHeader, nat)> {
        if s.len() < 8 || be32(s.skip(4)) != REPLY {
            None
        } else {
            match parse_status(s.skip(8)) {
                Some((status, n)) => Some((ReplyHeader { xid: be32(s), status }, 8 + n)),
                None => None,
            }
        }
    }

    proof fn lemma_round_trip(v: ReplyHeader, rest: Seq<u8>) {
        let s = Self::wire(v) + rest;
        let tail = status_wire(v.status) + rest;
        assert(s =~= u32_wire(v.xid) + u32_wire(REPLY) + tail);
        lemma_words(v.xid, REPLY, 0, tail);
        assert(s.skip(8) =~= tail);
        lemma_status_round_trip(v.status, rest);
    }

    proof fn lemma_parse_bounds(s: Seq<u8>) {
        if s.len() >= 12 {
            OpaqueAuth::lemma_parse_bounds(s.skip(8).skip(4));
        }
    }

    fn encode(&self, out: &mut Vec<u8>) -> (r: Result<(), Error>) {
        put_u32(out, self.xid);
        put_u32(out, REPLY);
        let ghost head = out@;
        match self.status {
            ReplyStatus::Success => {
                put_u32(out, MSG_ACCEPTED);
                let verf = OpaqueAuth::none().encode(out);
                put_u32(out, SUCCESS);
            },
            ReplyStatus::Failed(stat) => {
                put_u32(out, MSG_ACCEPTED);
                let verf = OpaqueAuth::none().encode(out);
                match stat {
                    AcceptError::ProgUnavail => {
                        put_u32(out, PROG_UNAVAIL);
                    },
                    AcceptError::ProgMismatch { low, high } => {
                        put_u32(out, PROG_MISMATCH);
                        put_u32(out, low);
                        put_u32(out, high);
                    },
                    AcceptError::ProcUnavail => {
                        put_u32(out, PROC_UNAVAIL);
                    },
                    AcceptError::GarbageArgs => {
                        put_u32(out, GARBAGE_ARGS);
                    },
                    AcceptError::SystemErr => {
                        put_u32(out, SYSTEM_ERR);
                    },
                }
            },
            ReplyStatus::Denied(reason) => {
                put_u32(out, MSG_DENIED);
                match reason {
                    RejectReason::RpcMismatch { low, high } => {
                        put_u32(out, RPC_MISMATCH);
                        put_u32(out, low);
                        put_u32(out, high);
                    },
                    RejectReason::AuthError { stat } => {
                        put_u32(out, AUTH_ERROR);
                        put_u32(out, stat);
                    },
                }
            },
        }
        assert(out@ =~= head + status_wire(self.status));
        assert(out@ =~= old(out)@ + Self::wire(self@));
        Ok(())
    }

    fn decode(buf: &[u8], pos: usize) -> (r: Result<(Self, usize), Error>) {
        if pos > buf.len() || buf.len() - pos < 8 {
            return Err(Error::Malformed);
        }
        let ghost s = buf@.skip(pos as int);
        proof {
            assert(s.skip(4) =~= buf@.skip(pos + 4));
            assert(s.skip(8) =~= buf@.skip(pos + 8));
        }
        let xid = get_u32(buf, pos);
        let kind = get_u32(buf, pos + 4);
        match (xid, kind) {
            (Ok((xid, _)), Ok((kind, _))) => {
                if kind != REPLY {
                    return Err(Error::Malformed);
                }
                match decode_status(buf, pos + 8) {
                    Ok((status, end)) => Ok((ReplyHeader { xid, status }, end)),
                    Err(e) => Err(e),
                }
            },
            _ => Err(Error::Malformed),
        }
    }
}

/// A reply message starts with its xid.
pub proof fn lemma_reply_xid(header: ReplyHeader, rest: Seq<u8>)
    ensures
        (ReplyHeader::wire(header) + rest).len() >= 4,
        be32(ReplyHeader::wire(header) + rest) == header.xid,
{
    let tail = u32_wire(REPLY) + status_wire(header.status) + rest;
    assert(ReplyHeader::wire(header) + rest =~= u32_wire(header.xid) + tail);
    lemma_be32_of_wire(header.xid, tail);
}

/// What a decoder of the status union reads at position `pos` of `buf`.
pub open spec fn parse_status_at(buf: Seq<u8>, pos: usize) -> Option<(ReplyStatus, nat)> {
    match from_pos(buf, pos) {
        Some(s) => parse_status(s),
        None => None,
    }
}

/// Reads the status union at `pos`, from the reply status on.
pub fn decode_status(buf: &[u8], pos: usize) -> (r: Result<(ReplyStatus, usize), Error>)
    ensures
        match parse_status_at(buf@, pos) {
            Some((status, n)) => r == Ok::<(ReplyStatus, usize), Error>(
                (status, (pos + n) as usize),
            ) && pos + n <= buf.len(),
            None => r == Err::<(ReplyStatus, usize), Error>(Error::Malformed),
        },
{
    let ghost s = buf@.skip(pos as int);
    let (reply_stat, next): (u32, usize) = match get_u32(buf, pos) {
        Ok(x) => x,
        Err(e) => {
            return Err(e);
        },
    };
    assert(s.skip(4) =~= buf@.skip(next as int));
    if reply_stat == MSG_ACCEPTED {
        let after: usize = match OpaqueAuth::decode(buf, next) {
            Ok((_, after)) => after,
            Err(e) => {
                return Err(Error::Malformed);
            },
        };
        proof {
            OpaqueAuth::lemma_parse_bounds(s.skip(4));
            let n = OpaqueAuth::parse(s.skip(4))->Some_0.1;
            assert(s.skip(4 + n as int) =~= buf@.skip(after as int));
        }
        let (stat, end): (u32, usize) = match get_u32(buf, after) {
            Ok(x) => x,
            Err(e) => {
                return Err(e);
            },
        };
        proof {
            let t = buf@.skip(after as int);
            assert(t.skip(4) =~= buf@.skip(after + 4));
            if buf.len() - end >= 8 {
                assert(t.skip(8) =~= buf@.skip(after + 8));
            }
        }
        if stat == SUCCESS {
            Ok((ReplyStatus::Success, end))
        } else if stat == PROG_UNAVAIL {
            Ok((ReplyStatus::Failed(AcceptError::ProgUnavail), end))
        } else if stat == PROG_MISMATCH {
            if buf.len() - end < 8 {
                return Err(Error::Malformed);
            }
            let low = get_u32(buf, end);
            let high = get_u32(buf, end + 4);
            match (low, high) {
                (Ok((low, _)), Ok((high, last))) => Ok(
                    (ReplyStatus::Failed(AcceptError::ProgMismatch { low, high }), last),
                ),
                _ => Err(Error::Malformed),
            }
        } else if stat == PROC_UNAVAIL {
            Ok((ReplyStatus::Failed(AcceptError::ProcUnavail), end))
        } else if stat == GARBAGE_ARGS {
            Ok((ReplyStatus::Failed(AcceptError::GarbageArgs), end))
        } else if stat == SYSTEM_ERR {
            Ok((ReplyStatus::Failed(AcceptError::SystemErr), end))
        } else {
            Err(Error::Malformed)
        }
    } else if reply_stat == MSG_DENIED {
        let (stat, end): (u32, usize) = match get_u32(buf, next) {
            Ok(x) => x,
            Err(e) => {
                return Err(e);
            },
        };
        proof {
            let t = buf@.skip(next as int);
            assert(t.skip(4) =~= buf@.skip(next + 4));
            if buf.len() - end >= 8 {
                assert(t.skip(8) =~= buf@.skip(next + 8));
            }
        }
        if stat == RPC_MISMATCH {
            if buf.len() - end < 8 {
                return Err(Error::Malformed);
            }
            let low = get_u32(buf, end);
            let high = get_u32(buf, end + 4);
            match (low, high) {
                (Ok((low, _)), Ok((high, last))) => Ok(
                    (ReplyStatus::Denied(RejectReason::RpcMismatch { low, high }), last),
                ),
                _ => Err(Error::Malformed),
            }
        } else if stat == AUTH_ERROR {
            match get_u32(buf, end) {
                Ok((code, last)) => Ok(
                    (ReplyStatus::Denied(RejectReason::AuthError { stat: code }), last),
                ),
                Err(e) => Err(e),
            }
        } else {
            Err(Error::Malformed)
        }
    } else {
        Err(Error::Malformed)
    }
}

} // verus!
