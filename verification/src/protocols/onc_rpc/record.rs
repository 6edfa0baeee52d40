//! Record marking: how one RPC message travels on a byte stream.
//!
//! A message is cut into fragments. Each fragment starts with a 32-bit header
//! whose top bit says that it is the last one and whose other bits give its
//! length. Datagram transports carry a message bare, one per datagram.
use vstd::prelude::*;
use vstd::slice::slice_subrange;
use crate::error::Error;
use crate::protocols::onc_rpc::xdr::{be32, get_u32, lemma_be32_of_wire, put_u32, u32_wire};

verus! {

broadcast use crate::protocols::onc_rpc::xdr::lemma_u32_wire_len;

/// The header bit that marks the last fragment of a record.
pub const LAST_FRAGMENT: u32 = 0x8000_0000;

/// The longest fragment that a header can announce.
pub const MAX_FRAGMENT: u32 = 0x7fff_ffff;

/// The fragment length at which this client cuts and caps records: 1 MiB.
pub const DEFAULT_FRAGMENT: u32 = 0x10_0000;

/// The header of a fragment of `len` bytes.
pub open spec fn marker(last: bool, len: nat) -> u32
    recommends
        len <= MAX_FRAGMENT,
{
    if last {
        (len + LAST_FRAGMENT) as u32
    } else {
        len as u32
    }
}

/// The fragment length that header `m` announces.
pub open spec fn marker_len(m: u32) -> nat {
    (m % LAST_FRAGMENT) as nat
}

/// Whether header `m` marks the last fragment.
pub open spec fn marker_last(m: u32) -> bool {
    m >= LAST_FRAGMENT
}

/// One fragment on the wire.
pub open spec fn fragment_wire(last: bool, payload: Seq<u8>) -> Seq<u8> {
    u32_wire(marker(last, payload.len())) + payload
}

/// A schedule gives the sizes of the fragments that precede the last one;
/// the last fragment takes what is left. It fits a message of `len` bytes
/// under a cap when no fragment is longer than the cap or than what is left.
pub open spec fn valid_schedule(len: nat, sizes: Seq<nat>, cap: nat) -> bool
    decreases sizes.len(),
{
    if sizes.len() == 0 {
        len <= cap
    } else {
        sizes[0] <= cap && sizes[0] <= len && valid_schedule(
            (len - sizes[0]) as nat,
            sizes.drop_first(),
            cap,
        )
    }
}

/// The record that carries message `b` cut by schedule `sizes`.
pub open spec fn record_wire(b: Seq<u8>, sizes: Seq<nat>) -> Seq<u8>
    decreases sizes.len(),
{
    if sizes.len() == 0 {
        fragment_wire(true, b)
    } else {
        fragment_wire(false, b.take(sizes[0] as int)) + record_wire(
            b.skip(sizes[0] as int),
            sizes.drop_first(),
        )
    }
}

/// The schedule that cuts `len` bytes into fragments of `step` bytes, the
/// last one shorter or equal.
pub open spec fn uniform_schedule(len: nat, step: nat) -> Seq<nat>
    decreases len,
{
    if step == 0 || len <= step {
        Seq::empty()
    } else {
        seq![step] + uniform_schedule((len - step) as nat, step)
    }
}

/// What the head of a byte stream holds.
pub enum Reassembly {
    /// More bytes are needed before anything can be said.
    Incomplete,
    /// A header announces a fragment above the cap: the stream is out of step.
    Corrupt,
    /// A whole record: the message, and the stream bytes that it took.
    Complete { message: Seq<u8>, used: nat },
}

/// Reads fragments off the head of `s` until one is marked last.
pub open spec fn reassemble(s: Seq<u8>, cap: nat) -> Reassembly
    decreases s.len(),
{
    if s.len() < 4 {
        Reassembly::Incomplete
    } else {
        let n = marker_len(be32(s));
        if n > cap {
            Reassembly::Corrupt
        } else if s.len() < 4 + n {
            Reassembly::Incomplete
        } else if marker_last(be32(s)) {
            Reassembly::Complete { message: s.subrange(4, 4 + n as int), used: 4 + n }
        } else {
            match reassemble(s.skip(4 + n as int), cap) {
                Reassembly::Complete { message, used } => Reassembly::Complete {
                    message: s.subrange(4, 4 + n as int) + message,
                    used: 4 + n + used,
                },
                other => other,
            }
        }
    }
}

/// The fragment length actually used for a requested one: at least one byte,
/// at most what a header can announce.
pub open spec fn fragment_limit(max_fragment: u32) -> nat {
    if max_fragment == 0 {
        1
    } else if max_fragment > MAX_FRAGMENT {
        MAX_FRAGMENT as nat
    } else {
        max_fragment as nat
    }
}

/// A uniform schedule fits under any cap that is at least its step.
pub proof fn lemma_uniform_schedule_valid(len: nat, step: nat, cap: nat)
    requires
        0 < step <= cap,
    ensures
        valid_schedule(len, uniform_schedule(len, step), cap),
    decreases len,
{
    if len > step {
        let sizes = uniform_schedule(len, step);
        assert(sizes.drop_first() =~= uniform_schedule((len - step) as nat, step));
        lemma_uniform_schedule_valid((len - step) as nat, step, cap);
    }
}

/// What reading finds where a stream starts with one fragment: a last
/// fragment ends the record, any other is joined to what follows it.
pub proof fn lemma_reassemble_fragment(last: bool, payload: Seq<u8>, rest: Seq<u8>, cap: nat)
    requires
        payload.len() <= cap <= MAX_FRAGMENT,
    ensures
        fragment_wire(last, payload).len() == 4 + payload.len(),
        reassemble(fragment_wire(last, payload) + rest, cap) == (if last {
            Reassembly::Complete { message: payload, used: 4 + payload.len() }
        } else {
            match reassemble(rest, cap) {
                Reassembly::Complete { message, used } => Reassembly::Complete {
                    message: payload + message,
                    used: 4 + payload.len() + used,
                },
                other => other,
            }
        }),
{
    let n = payload.len();
    let m = marker(last, n);
    let s = fragment_wire(last, payload) + rest;
    assert(s =~= u32_wire(m) + (payload + rest));
    lemma_be32_of_wire(m, payload + rest);
    assert(be32(s) == m);
    assert(marker_len(m) == n);
    assert(marker_last(m) == last);
    assert(s.len() == 4 + n + rest.len());
    assert(s.subrange(4, 4 + n as int) =~= payload);
    assert(s.skip(4 + n as int) =~= rest);
}

/// Whatever the schedule by which a message was cut into fragments, reading
/// the record back gives the message, and takes exactly the record's bytes
/// off the stream.
pub proof fn lemma_record_round_trip(b: Seq<u8>, sizes: Seq<nat>, cap: nat, rest: Seq<u8>)
    requires
        valid_schedule(b.len(), sizes, cap),
        cap <= MAX_FRAGMENT,
    ensures
        reassemble(record_wire(b, sizes) + rest, cap) == (Reassembly::Complete {
            message: b,
            used: record_wire(b, sizes).len(),
        }),
    decreases sizes.len(),
{
    if sizes.len() == 0 {
        lemma_reassemble_fragment(true, b, rest, cap);
    } else {
        let n = sizes[0];
        let head = b.take(n as int);
        let tail = b.skip(n as int);
        let later = record_wire(tail, sizes.drop_first());
        lemma_record_round_trip(tail, sizes.drop_first(), cap, rest);
        lemma_reassemble_fragment(false, head, later + rest, cap);
        assert(record_wire(b, sizes) + rest =~= fragment_wire(false, head) + (later + rest));
        assert(head + tail =~= b);
    }
}

/// While a record is still arriving, reading finds nothing yet: every proper
/// prefix of a record is incomplete, neither a record nor a framing error.
pub proof fn lemma_record_prefix_incomplete(b: Seq<u8>, sizes: Seq<nat>, cap: nat, k: int)
    requires
        valid_schedule(b.len(), sizes, cap),
        cap <= MAX_FRAGMENT,
        0 <= k < record_wire(b, sizes).len(),
    ensures
        reassemble(record_wire(b, sizes).take(k), cap) == Reassembly::Incomplete,
    decreases sizes.len(),
{
    let last = sizes.len() == 0;
    let head = if last {
        b
    } else {
        b.take(sizes[0] as int)
    };
    let later = if last {
        Seq::<u8>::empty()
    } else {
        record_wire(b.skip(sizes[0] as int), sizes.drop_first())
    };
    let whole = record_wire(b, sizes);
    assert(whole =~= fragment_wire(last, head) + later);
    lemma_reassemble_fragment(last, head, later, cap);
    let n = head.len();
    let prefix = whole.take(k);
    if k < 4 {
    } else {
        let m = marker(last, n);
        assert(whole =~= u32_wire(m) + (head + later));
        assert(prefix =~= u32_wire(m) + (head + later).take(k - 4));
        lemma_be32_of_wire(m, (head + later).take(k - 4));
        assert(marker_len(m) == n);
        assert(marker_last(m) == last);
        if k < 4 + n {
        } else {
            assert(!last);
            assert(prefix.skip(4 + n as int) =~= later.take(k - 4 - n));
            lemma_record_prefix_incomplete(
                b.skip(sizes[0] as int),
                sizes.drop_first(),
                cap,
                k - 4 - n,
            );
        }
    }
}

/// What `write_record` wrote reads back as the message, under any cap that
/// admits the fragment length it cut at.
pub proof fn lemma_written_record_reads_back(message: Seq<u8>, max_fragment: u32, cap: nat, rest: Seq<u8>)
    requires
        fragment_limit(max_fragment) <= cap <= MAX_FRAGMENT,
    ensures
        reassemble(
            record_wire(message, uniform_schedule(message.len(), fragment_limit(max_fragment)))
                + rest,
            cap,
        ) == (Reassembly::Complete {
            message,
            used: record_wire(
                message,
                uniform_schedule(message.len(), fragment_limit(max_fragment)),
            ).len(),
        }),
{
    let step = fragment_limit(max_fragment);
    lemma_uniform_schedule_valid(message.len(), step, cap);
    lemma_record_round_trip(message, uniform_schedule(message.len(), step), cap, rest);
}

/// Appends one fragment to `out`. A payload too long for a header is refused
/// and `out` is left as it was.
pub fn write_fragment(out: &mut Vec<u8>, payload: &[u8], last: bool) -> (r: Result<(), Error>)
    ensures
        r is Ok <==> payload@.len() <= MAX_FRAGMENT,
        r is Ok ==> final(out)@ == old(out)@ + fragment_wire(last, payload@),
        r is Err ==> final(out)@ == old(out)@ && r == Err::<(), Error>(Error::Framing),
{
    if payload.len() > 0x7fff_ffff {
        return Err(Error::Framing);
    }
    let len: u32 = payload.len() as u32;
    let header: u32 = if last {
        len + LAST_FRAGMENT
    } else {
        len
    };
    put_u32(out, header);
    out.extend_from_slice(payload);
    assert(out@ =~= old(out)@ + fragment_wire(last, payload@));
    Ok(())
}

/// Appends `message` to `out` as one record, cut into fragments of at most
/// `max_fragment` bytes; only the final fragment is marked last.
pub fn write_record(out: &mut Vec<u8>, message: &[u8], max_fragment: u32)
    ensures
        final(out)@ == old(out)@ + record_wire(
            message@,
            uniform_schedule(message@.len(), fragment_limit(max_fragment)),
        ),
{
    let step: usize = if max_fragment == 0 {
        1
    } else if max_fragment > MAX_FRAGMENT {
        MAX_FRAGMENT as usize
    } else {
        max_fragment as usize
    };
    let ghost whole = record_wire(message@, uniform_schedule(message@.len(), step as nat));
    let mut pos: usize = 0;
    assert(message@.skip(0) =~= message@);
    while message.len() - pos > step
        invariant
            pos <= message.len(),
            0 < step <= MAX_FRAGMENT,
            old(out)@ + whole == out@ + record_wire(
                message@.skip(pos as int),
                uniform_schedule((message@.len() - pos) as nat, step as nat),
            ),
        decreases message.len() - pos,
    {
        let ghost left = message@.skip(pos as int);
        let ghost sizes = uniform_schedule(left.len(), step as nat);
        let ghost before = out@;
        let piece = slice_subrange(message, pos, pos + step);
        let wrote = write_fragment(out, piece, false);
        proof {
            assert(piece@ =~= left.take(step as int));
            assert(sizes.drop_first() =~= uniform_schedule((left.len() - step) as nat, step as nat));
            assert(left.skip(step as int) =~= message@.skip(pos + step));
            assert(before + (fragment_wire(false, piece@) + record_wire(
                left.skip(step as int),
                sizes.drop_first(),
            )) =~= out@ + record_wire(left.skip(step as int), sizes.drop_first()));
        }
        pos = pos + step;
    }
    let ghost before = out@;
    let piece = slice_subrange(message, pos, message.len());
    let wrote = write_fragment(out, piece, true);
    proof {
        assert(piece@ =~= message@.skip(pos as int));
    }
}

/// Takes one record off the head of `stream`, refusing fragments above
/// `max_fragment` bytes. Answers with the message and the number of stream
/// bytes that it took, with nothing while the record is not all there yet,
/// or with a framing error.
pub fn read_record(stream: &[u8], max_fragment: u32) -> (r: Result<Option<(Vec<u8>, usize)>, Error>)
    ensures
        match reassemble(stream@, max_fragment as nat) {
            Reassembly::Complete { message, used } => r matches Ok(Some((m, n))) && m@ == message
                && n == used,
            Reassembly::Incomplete => r == Ok::<Option<(Vec<u8>, usize)>, Error>(None),
            Reassembly::Corrupt => r == Err::<Option<(Vec<u8>, usize)>, Error>(Error::Framing),
        },
{
    let mut message: Vec<u8> = Vec::new();
    let mut pos: usize = 0;
    proof {
        assert(stream@.skip(0) =~= stream@);
        match reassemble(stream@, max_fragment as nat) {
            Reassembly::Complete { message: m, used } => {
                assert(message@ + m =~= m);
            },
            _ => {},
        }
    }
    loop
        invariant
            pos <= stream.len(),
            match reassemble(stream@.skip(pos as int), max_fragment as nat) {
                Reassembly::Complete { message: m, used } => reassemble(
                    stream@,
                    max_fragment as nat,
                ) == (Reassembly::Complete { message: message@ + m, used: (pos + used) as nat }),
                other => reassemble(stream@, max_fragment as nat) == other,
            },
        decreases stream.len() - pos,
    {
        let ghost s = stream@.skip(pos as int);
        let header: u32 = match get_u32(stream, pos) {
            Ok((h, _)) => h,
            Err(_) => {
                return Ok(None);
            },
        };
        let n: u32 = header % LAST_FRAGMENT;
        if n > max_fragment {
            return Err(Error::Framing);
        }
        if stream.len() - pos - 4 < n as usize {
            return Ok(None);
        }
        let start: usize = pos + 4;
        let end: usize = start + n as usize;
        let ghost before = message@;
        message.extend_from_slice(slice_subrange(stream, start, end));
        proof {
            assert(message@ =~= before + s.subrange(4, 4 + n as int));
            assert(s.skip(4 + n as int) =~= stream@.skip(end as int));
        }
        if header >= LAST_FRAGMENT {
            return Ok(Some((message, end)));
        }
        proof {
            match reassemble(stream@.skip(end as int), max_fragment as nat) {
                Reassembly::Complete { message: m, used } => {
                    assert(before + (s.subrange(4, 4 + n as int) + m) =~= message@ + m);
                },
                _ => {},
            }
        }
        pos = end;
    }
}

/// `BytesMut` of bytes, the growable byte buffer, made known so that it can
/// stand in fields and signatures. Nothing is seen of its inside.
#[verifier::external_type_specification]
#[verifier::external_body]
pub struct ExBytesMut(bytes::BytesMut);

/// The bytes that a `BytesMut` holds, oldest first: what `as_ref` shows of it.
pub uninterp spec fn buffered(buffer: bytes::BytesMut) -> Seq<u8>;

/// `BytesMut::new` of bytes: a buffer that holds nothing.
#[verifier::external_body]
pub(crate) fn buffer_new() -> (r: bytes::BytesMut)
    ensures
        buffered(r) == Seq::<u8>::empty(),
{
    bytes::BytesMut::new()
}

/// `Clone::clone` of a `BytesMut`: a second buffer that holds the same bytes.
#[verifier::external_body]
pub(crate) fn buffer_clone(buffer: &bytes::BytesMut) -> (r: bytes::BytesMut)
    ensures
        buffered(r) == buffered(*buffer),
{
    buffer.clone()
}

/// `BytesMut::extend_from_slice` of bytes: `bytes` are added behind what the
/// buffer holds.
#[verifier::external_body]
pub(crate) fn buffer_extend(buffer: &mut bytes::BytesMut, bytes: &[u8])
    ensures
        buffered(*final(buffer)) == buffered(*old(buffer)) + bytes@,
{
    buffer.extend_from_slice(bytes)
}

/// `AsRef::as_ref` of a `BytesMut`: what the buffer holds, as a slice.
#[verifier::external_body]
pub(crate) fn buffer_bytes(buffer: &bytes::BytesMut) -> (r: &[u8])
    ensures
        r@ == buffered(*buffer),
{
    buffer.as_ref()
}

/// `Buf::advance` of a `BytesMut`: the oldest `count` bytes leave the buffer.
/// It panics where the buffer holds fewer.
#[verifier::external_body]
pub(crate) fn buffer_advance(buffer: &mut bytes::BytesMut, count: usize)
    requires
        count <= buffered(*old(buffer)).len(),
    ensures
        buffered(*final(buffer)) == buffered(*old(buffer)).skip(count as int),
{
    bytes::Buf::advance(buffer, count)
}

/// Adds bytes that arrived on the stream to the buffer.
pub fn push_stream(buffer: &mut bytes::BytesMut, bytes: &[u8])
    ensures
        buffered(*final(buffer)) == buffered(*old(buffer)) + bytes@,
{
    buffer_extend(buffer, bytes);
}

/// Takes the oldest record off the buffer, if it is all there. A buffer that
/// starts with part of a record is left as it is, and so is one that starts
/// with a header above `max_fragment`, which is a framing error.
pub fn take_record(buffer: &mut bytes::BytesMut, max_fragment: u32) -> (r: Result<
    Option<Vec<u8>>,
    Error,
>)
    ensures
        match reassemble(buffered(*old(buffer)), max_fragment as nat) {
            Reassembly::Complete { message, used } => r matches Ok(Some(m)) && m@ == message
                && buffered(*final(buffer)) == buffered(*old(buffer)).skip(used as int),
            Reassembly::Incomplete => r == Ok::<Option<Vec<u8>>, Error>(None) && buffered(
                *final(buffer),
            ) == buffered(*old(buffer)),
            Reassembly::Corrupt => r == Err::<Option<Vec<u8>>, Error>(Error::Framing) && buffered(
                *final(buffer),
            ) == buffered(*old(buffer)),
        },
{
    let found = read_record(buffer_bytes(buffer), max_fragment);
    match found {
        Ok(Some((message, used))) => {
            proof {
                lemma_reassemble_bounds(buffered(*buffer), max_fragment as nat);
            }
            buffer_advance(buffer, used);
            Ok(Some(message))
        },
        Ok(None) => Ok(None),
        Err(e) => Err(e),
    }
}

/// A record never takes more bytes off a stream than the stream holds.
pub proof fn lemma_reassemble_bounds(s: Seq<u8>, cap: nat)
    ensures
        reassemble(s, cap) matches Reassembly::Complete { message, used } ==> used <= s.len(),
    decreases s.len(),
{
    if s.len() >= 4 {
        let n = marker_len(be32(s));
        if n <= cap && s.len() >= 4 + n && !marker_last(be32(s)) {
            lemma_reassemble_bounds(s.skip(4 + n as int), cap);
        }
    }
}

} // verus!
