//! The XDR codec: big-endian integers, booleans, opaque data and strings,
//! every item padded to a multiple of four bytes.
//!
//! Each supported type says what its encoding is (`wire`) and what a decoder
//! reads at the head of a byte sequence (`parse`); the executable `encode`
//! and `decode` are proved against the two, and `lemma_round_trip` proves
//! that decoding an encoding gives the value back.
use vstd::prelude::*;
use vstd::slice::slice_subrange;
use vstd::utf8::{decode_utf8, encode_utf8, valid_utf8};
use crate::error::Error;

pub mod arrays;

verus! {

/// The four bytes of `x`, most significant first.
#[verifier::opaque]
pub open spec fn u32_wire(x: u32) -> Seq<u8> {
    seq![
        (x / 0x100_0000) as u8,
        ((x / 0x1_0000) % 0x100) as u8,
        ((x / 0x100) % 0x100) as u8,
        (x % 0x100) as u8,
    ]
}

/// The number that the first four bytes of `s` spell, most significant first.
#[verifier::opaque]
pub open spec fn be32(s: Seq<u8>) -> u32
    recommends
        s.len() >= 4,
{
    (s[0] as int * 0x100_0000 + s[1] as int * 0x1_0000 + s[2] as int * 0x100 + s[3] as int) as u32
}

/// The eight bytes of `x`, most significant first.
pub open spec fn u64_wire(x: u64) -> Seq<u8> {
    u32_wire((x / 0x1_0000_0000) as u32) + u32_wire((x % 0x1_0000_0000) as u32)
}

/// The number that the first eight bytes of `s` spell, most significant first.
pub open spec fn be64(s: Seq<u8>) -> u64
    recommends
        s.len() >= 8,
{
    (be32(s) as int * 0x1_0000_0000 + be32(s.skip(4)) as int) as u64
}

/// The two's-complement pattern of `x` as an unsigned number.
pub open spec fn i32_bits(x: i32) -> u32 {
    if x >= 0 {
        x as u32
    } else {
        (x + 0x1_0000_0000) as u32
    }
}

/// The signed number whose two's-complement pattern is `u`.
pub open spec fn i32_of_bits(u: u32) -> i32 {
    if u < 0x8000_0000 {
        u as i32
    } else {
        (u - 0x1_0000_0000) as i32
    }
}

/// The two's-complement pattern of `x` as an unsigned number.
pub open spec fn i64_bits(x: i64) -> u64 {
    if x >= 0 {
        x as u64
    } else {
        (x + 0x1_0000_0000_0000_0000) as u64
    }
}

/// The signed number whose two's-complement pattern is `u`.
pub open spec fn i64_of_bits(u: u64) -> i64 {
    if u < 0x8000_0000_0000_0000 {
        u as i64
    } else {
        (u - 0x1_0000_0000_0000_0000) as i64
    }
}

/// How many zero bytes follow `n` bytes of data to reach a multiple of four.
pub open spec fn pad_len(n: nat) -> nat {
    ((4 - n % 4) % 4) as nat
}

/// `n` zero bytes.
pub open spec fn zeros(n: nat) -> Seq<u8> {
    Seq::new(n, |i: int| 0u8)
}

/// Variable-length opaque data: the length, the bytes, then the padding.
pub open spec fn opaque_wire(data: Seq<u8>) -> Seq<u8> {
    u32_wire(data.len() as u32) + data + zeros(pad_len(data.len()))
}

/// What a decoder of opaque data reads at the head of `s`: the bytes without
/// length and padding, and how far it got. The padding is consumed, not inspected.
pub open spec fn parse_opaque(s: Seq<u8>) -> Option<(Seq<u8>, nat)> {
    if s.len() < 4 {
        None
    } else {
        let n = be32(s) as nat;
        let total = 4 + n + pad_len(n);
        if s.len() < total {
            None
        } else {
            Some((s.subrange(4, 4 + n as int), total))
        }
    }
}

/// An encoded number takes four bytes.
pub broadcast proof fn lemma_u32_wire_len(x: u32)
    ensures
        #[trigger] u32_wire(x).len() == 4,
{
    reveal(u32_wire);
}

/// Reading back what `u32_wire` wrote gives the number again, whatever follows.
pub proof fn lemma_be32_of_wire(x: u32, rest: Seq<u8>)
    ensures
        u32_wire(x).len() == 4,
        be32(u32_wire(x) + rest) == x,
{
    reveal(u32_wire);
    reveal(be32);
    let s = u32_wire(x) + rest;
    assert(s[0] == u32_wire(x)[0]);
    assert(s[1] == u32_wire(x)[1]);
    assert(s[2] == u32_wire(x)[2]);
    assert(s[3] == u32_wire(x)[3]);
}

/// Reading back what `u64_wire` wrote gives the number again, whatever follows.
pub proof fn lemma_be64_of_wire(x: u64, rest: Seq<u8>)
    ensures
        u64_wire(x).len() == 8,
        be64(u64_wire(x) + rest) == x,
{
    let hi = (x / 0x1_0000_0000) as u32;
    let lo = (x % 0x1_0000_0000) as u32;
    let s = u64_wire(x) + rest;
    assert(s =~= u32_wire(hi) + (u32_wire(lo) + rest));
    lemma_be32_of_wire(hi, u32_wire(lo) + rest);
    assert(s.skip(4) =~= u32_wire(lo) + rest);
    lemma_be32_of_wire(lo, rest);
}

/// Reading back what `opaque_wire` wrote gives the bytes again, whatever follows.
pub proof fn lemma_parse_opaque_of_wire(data: Seq<u8>, rest: Seq<u8>)
    requires
        data.len() <= u32::MAX,
    ensures
        opaque_wire(data).len() == 4 + data.len() + pad_len(data.len()),
        opaque_wire(data).len() % 4 == 0,
        parse_opaque(opaque_wire(data) + rest) == Some((data, opaque_wire(data).len())),
{
    let n = data.len();
    let s = opaque_wire(data) + rest;
    lemma_be32_of_wire(n as u32, data + zeros(pad_len(n)) + rest);
    assert(s =~= u32_wire(n as u32) + (data + zeros(pad_len(n)) + rest));
    assert(s.subrange(4, 4 + n as int) =~= data);
}

/// Appends the encoding of `x` to `out`.
pub fn put_u32(out: &mut Vec<u8>, x: u32)
    ensures
        final(out)@ == old(out)@ + u32_wire(x),
{
    out.push((x / 0x100_0000) as u8);
    out.push(((x / 0x1_0000) % 0x100) as u8);
    out.push(((x / 0x100) % 0x100) as u8);
    out.push((x % 0x100) as u8);
    proof {
        reveal(u32_wire);
        assert(out@ =~= old(out)@ + u32_wire(x));
    }
}

/// Reads the unsigned integer at `pos`, and says where the next item starts.
/// Where fewer than four bytes follow `pos`, there is none.
pub fn get_u32(buf: &[u8], pos: usize) -> (r: Result<(u32, usize), Error>)
    ensures
        pos + 4 <= buf.len() ==> r == Ok::<(u32, usize), Error>(
            (be32(buf@.skip(pos as int)), (pos + 4) as usize),
        ),
        pos + 4 > buf.len() ==> r == Err::<(u32, usize), Error>(Error::Malformed),
{
    if pos > buf.len() || buf.len() - pos < 4 {
        return Err(Error::Malformed);
    }
    proof {
        reveal(be32);
    }
    let b0: u32 = buf[pos] as u32;
    let b1: u32 = buf[pos + 1] as u32;
    let b2: u32 = buf[pos + 2] as u32;
    let b3: u32 = buf[pos + 3] as u32;
    Ok((b0 * 0x100_0000 + b1 * 0x1_0000 + b2 * 0x100 + b3, pos + 4))
}

/// Appends opaque data to `out`: length, bytes and padding. Data too long for
/// a 32-bit length is refused and `out` is left as it was.
pub fn put_opaque(out: &mut Vec<u8>, data: &[u8]) -> (r: Result<(), Error>)
    ensures
        r is Ok <==> data@.len() <= u32::MAX,
        r is Ok ==> final(out)@ == old(out)@ + opaque_wire(data@),
        r is Err ==> final(out)@ == old(out)@ && r == Err::<(), Error>(Error::Malformed),
{
    if data.len() > 0xffff_ffff {
        return Err(Error::Malformed);
    }
    put_u32(out, data.len() as u32);
    out.extend_from_slice(data);
    let pad: usize = (4 - data.len() % 4) % 4;
    let ghost before = out@;
    let mut i: usize = 0;
    while i < pad
        invariant
            i <= pad,
            out@ == before + zeros(i as nat),
        decreases pad - i,
    {
        out.push(0u8);
        i = i + 1;
        assert(out@ =~= before + zeros(i as nat));
    }
    assert(out@ =~= old(out)@ + opaque_wire(data@));
    Ok(())
}

/// What follows position `pos` of `buf`: nothing where `pos` lies behind the
/// end.
pub open spec fn from_pos(buf: Seq<u8>, pos: usize) -> Option<Seq<u8>> {
    if pos <= buf.len() {
        Some(buf.skip(pos as int))
    } else {
        None
    }
}

/// What a decoder of opaque data reads at position `pos` of `buf`.
pub open spec fn parse_opaque_at(buf: Seq<u8>, pos: usize) -> Option<(Seq<u8>, nat)> {
    match from_pos(buf, pos) {
        Some(s) => parse_opaque(s),
        None => None,
    }
}

/// Reads the opaque data at `pos`: the bytes as a slice of `buf`, and where
/// the next item starts.
pub fn get_opaque(buf: &[u8], pos: usize) -> (r: Result<(&[u8], usize), Error>)
    ensures
        match parse_opaque_at(buf@, pos) {
            Some((data, n)) => r matches Ok((x, p)) && x@ == data && p == pos + n,
            None => r == Err::<(&[u8], usize), Error>(Error::Malformed),
        },
{
    let ghost s = buf@.skip(pos as int);
    let start = match get_u32(buf, pos) {
        Ok((n, start)) => (n, start),
        Err(e) => {
            return Err(e);
        },
    };
    let n: usize = start.0 as usize;
    let remaining: usize = buf.len() - start.1;
    if n > remaining {
        return Err(Error::Malformed);
    }
    let pad: usize = (4 - n % 4) % 4;
    if remaining - n < pad {
        return Err(Error::Malformed);
    }
    let end: usize = start.1 + n;
    let data = slice_subrange(buf, start.1, end);
    assert(data@ =~= s.subrange(4, 4 + n as int));
    Ok((data, end + pad))
}

/// `String::from_utf8` of std: the string that `bytes` spell in UTF-8, or
/// nothing where they are not well-formed UTF-8.
#[verifier::external_body]
fn string_from_utf8(bytes: Vec<u8>) -> (r: Option<String>)
    ensures
        r is Some <==> valid_utf8(bytes@),
        r is Some ==> r->Some_0@ == decode_utf8(bytes@),
{
    String::from_utf8(bytes).ok()
}

/// A type with an XDR encoding.
pub trait Xdr: View + Sized {
    /// The values that have an encoding.
    spec fn valid(v: Self::V) -> bool;

    /// The encoding of `v`.
    spec fn wire(v: Self::V) -> Seq<u8>;

    /// What a decoder reads at the head of `s`: the value and the number of
    /// bytes that it takes, or nothing where `s` does not start with one.
    spec fn parse(s: Seq<u8>) -> Option<(Self::V, nat)>;

    /// An encoding is a whole number of four-byte units, and decoding it gives
    /// the value back, whatever follows it.
    proof fn lemma_round_trip(v: Self::V, rest: Seq<u8>)
        requires
            Self::valid(v),
        ensures
            Self::wire(v).len() % 4 == 0,
            Self::parse(Self::wire(v) + rest) == Some((v, Self::wire(v).len())),
    ;

    /// A decoder stays inside its input, stops on a four-byte boundary, and
    /// reads only values that can be encoded again.
    proof fn lemma_parse_bounds(s: Seq<u8>)
        ensures
            Self::parse(s) matches Some((v, n)) ==> n <= s.len() && n % 4 == 0 && Self::valid(v),
    ;

    /// Appends the encoding of `self` to `out`, or refuses a value that has
    /// none and leaves `out` as it was.
    fn encode(&self, out: &mut Vec<u8>) -> (r: Result<(), Error>)
        ensures
            r is Ok <==> Self::valid(self@),
            r is Ok ==> final(out)@ == old(out)@ + Self::wire(self@),
            r is Err ==> final(out)@ == old(out)@ && r == Err::<(), Error>(Error::Malformed),
    ;

    /// Reads the value at `pos` and says where the next item starts.
    fn decode(buf: &[u8], pos: usize) -> (r: Result<(Self, usize), Error>)
        ensures
            match (match from_pos(buf@, pos) {
                Some(s) => Self::parse(s),
                None => None,
            }) {
                Some((v, n)) => r matches Ok((x, p)) && x@ == v && p == pos + n,
                None => r matches Err(e) && e == Error::Malformed,
            },
    ;
}

impl Xdr for u32 {
    open spec fn valid(v: u32) -> bool {
        true
    }

    open spec fn wire(v: u32) -> Seq<u8> {
        u32_wire(v)
    }

    open spec fn parse(s: Seq<u8>) -> Option<(u32, nat)> {
        if s.len() >= 4 {
            Some((be32(s), 4nat))
        } else {
            None
        }
    }

    proof fn lemma_round_trip(v: u32, rest: Seq<u8>) {
        lemma_be32_of_wire(v, rest);
    }

    proof fn lemma_parse_bounds(s: Seq<u8>) {
    }

    fn encode(&self, out: &mut Vec<u8>) -> (r: Result<(), Error>) {
        put_u32(out, *self);
        Ok(())
    }

    fn decode(buf: &[u8], pos: usize) -> (r: Result<(Self, usize), Error>) {
        get_u32(buf, pos)
    }
}

impl Xdr for i32 {
    open spec fn valid(v: i32) -> bool {
        true
    }

    open spec fn wire(v: i32) -> Seq<u8> {
        u32_wire(i32_bits(v))
    }

    open spec fn parse(s: Seq<u8>) -> Option<(i32, nat)> {
        if s.len() >= 4 {
            Some((i32_of_bits(be32(s)), 4nat))
        } else {
            None
        }
    }

    proof fn lemma_round_trip(v: i32, rest: Seq<u8>) {
        lemma_be32_of_wire(i32_bits(v), rest);
    }

    proof fn lemma_parse_bounds(s: Seq<u8>) {
    }

    fn encode(&self, out: &mut Vec<u8>) -> (r: Result<(), Error>) {
        let x: i32 = *self;
        let bits: u32 = if x >= 0 {
            x as u32
        } else {
            ((x + 1 + 0x7fff_ffff) as u32) + 0x8000_0000
        };
        put_u32(out, bits);
        Ok(())
    }

    fn decode(buf: &[u8], pos: usize) -> (r: Result<(Self, usize), Error>) {
        match get_u32(buf, pos) {
            Ok((u, next)) => {
                let x: i32 = if u < 0x8000_0000 {
                    u as i32
                } else {
                    ((u - 0x8000_0000) as i32) - 0x7fff_ffff - 1
                };
                Ok((x, next))
            },
            Err(e) => Err(e),
        }
    }
}

impl Xdr for u64 {
    open spec fn valid(v: u64) -> bool {
        true
    }

    open spec fn wire(v: u64) -> Seq<u8> {
        u64_wire(v)
    }

    open spec fn parse(s: Seq<u8>) -> Option<(u64, nat)> {
        if s.len() >= 8 {
            Some((be64(s), 8nat))
        } else {
            None
        }
    }

    proof fn lemma_round_trip(v: u64, rest: Seq<u8>) {
        lemma_be64_of_wire(v, rest);
    }

    proof fn lemma_parse_bounds(s: Seq<u8>) {
    }

    fn encode(&self, out: &mut Vec<u8>) -> (r: Result<(), Error>) {
        let x: u64 = *self;
        put_u32(out, (x / 0x1_0000_0000) as u32);
        put_u32(out, (x % 0x1_0000_0000) as u32);
        assert(out@ =~= old(out)@ + u64_wire(x));
        Ok(())
    }

    fn decode(buf: &[u8], pos: usize) -> (r: Result<(Self, usize), Error>) {
        if pos > buf.len() || buf.len() - pos < 8 {
            return Err(Error::Malformed);
        }
        let hi = get_u32(buf, pos);
        let lo = get_u32(buf, pos + 4);
        assert(buf@.skip(pos as int).skip(4) =~= buf@.skip(pos + 4));
        match (hi, lo) {
            (Ok((h, _)), Ok((l, next))) => {
                let h64: u64 = h as u64;
                let l64: u64 = l as u64;
                Ok((h64 * 0x1_0000_0000 + l64, next))
            },
            _ => Err(Error::Malformed),
        }
    }
}

impl Xdr for i64 {
    open spec fn valid(v: i64) -> bool {
        true
    }

    open spec fn wire(v: i64) -> Seq<u8> {
        u64_wire(i64_bits(v))
    }

    open spec fn parse(s: Seq<u8>) -> Option<(i64, nat)> {
        if s.len() >= 8 {
            Some((i64_of_bits(be64(s)), 8nat))
        } else {
            None
        }
    }

    proof fn lemma_round_trip(v: i64, rest: Seq<u8>) {
        lemma_be64_of_wire(i64_bits(v), rest);
    }

    proof fn lemma_parse_bounds(s: Seq<u8>) {
    }

    fn encode(&self, out: &mut Vec<u8>) -> (r: Result<(), Error>) {
        let x: i64 = *self;
        let bits: u64 = if x >= 0 {
            x as u64
        } else {
            ((x + 1 + 0x7fff_ffff_ffff_ffff) as u64) + 0x8000_0000_0000_0000
        };
        bits.encode(out)
    }

    fn decode(buf: &[u8], pos: usize) -> (r: Result<(Self, usize), Error>) {
        match u64::decode(buf, pos) {
            Ok((u, next)) => {
                let x: i64 = if u < 0x8000_0000_0000_0000 {
                    u as i64
                } else {
                    ((u - 0x8000_0000_0000_0000) as i64) - 0x7fff_ffff_ffff_ffff - 1
                };
                Ok((x, next))
            },
            Err(e) => Err(e),
        }
    }
}

impl Xdr for bool {
    open spec fn valid(v: bool) -> bool {
        true
    }

    /// `true` is written as one, `false` as zero.
    open spec fn wire(v: bool) -> Seq<u8> {
        u32_wire(if v { 1u32 } else { 0u32 })
    }

    /// Any number but zero reads as `true`.
    open spec fn parse(s: Seq<u8>) -> Option<(bool, nat)> {
        if s.len() >= 4 {
            Some((be32(s) != 0, 4nat))
        } else {
            None
        }
    }

    proof fn lemma_round_trip(v: bool, rest: Seq<u8>) {
        lemma_be32_of_wire(if v { 1u32 } else { 0u32 }, rest);
    }

    proof fn lemma_parse_bounds(s: Seq<u8>) {
    }

    fn encode(&self, out: &mut Vec<u8>) -> (r: Result<(), Error>) {
        put_u32(out, if *self { 1 } else { 0 });
        Ok(())
    }

    fn decode(buf: &[u8], pos: usize) -> (r: Result<(Self, usize), Error>) {
        match get_u32(buf, pos) {
            Ok((u, next)) => Ok((u != 0, next)),
            Err(e) => Err(e),
        }
    }
}

/// Variable-length opaque data.
impl Xdr for Vec<u8> {
    open spec fn valid(v: Seq<u8>) -> bool {
        v.len() <= u32::MAX
    }

    open spec fn wire(v: Seq<u8>) -> Seq<u8> {
        opaque_wire(v)
    }

    open spec fn parse(s: Seq<u8>) -> Option<(Seq<u8>, nat)> {
        parse_opaque(s)
    }

    proof fn lemma_round_trip(v: Seq<u8>, rest: Seq<u8>) {
        lemma_parse_opaque_of_wire(v, rest);
    }

    proof fn lemma_parse_bounds(s: Seq<u8>) {
    }

    fn encode(&self, out: &mut Vec<u8>) -> (r: Result<(), Error>) {
        put_opaque(out, self.as_slice())
    }

    fn decode(buf: &[u8], pos: usize) -> (r: Result<(Self, usize), Error>) {
        match get_opaque(buf, pos) {
            Ok((data, next)) => {
                let mut v: Vec<u8> = Vec::new();
                v.extend_from_slice(data);
                assert(v@ =~= data@);
                Ok((v, next))
            },
            Err(e) => Err(e),
        }
    }
}

/// A string: its UTF-8 bytes as opaque data.
impl Xdr for String {
    open spec fn valid(v: Seq<char>) -> bool {
        encode_utf8(v).len() <= u32::MAX
    }

    open spec fn wire(v: Seq<char>) -> Seq<u8> {
        opaque_wire(encode_utf8(v))
    }

    /// Bytes that are not well-formed UTF-8 are not a string.
    open spec fn parse(s: Seq<u8>) -> Option<(Seq<char>, nat)> {
        match parse_opaque(s) {
            Some((bytes, n)) => if valid_utf8(bytes) {
                Some((decode_utf8(bytes), n))
            } else {
                None
            },
            None => None,
        }
    }

    proof fn lemma_round_trip(v: Seq<char>, rest: Seq<u8>) {
        broadcast use vstd::utf8::encode_utf8_valid_utf8, vstd::utf8::encode_utf8_decode_utf8;
        lemma_parse_opaque_of_wire(encode_utf8(v), rest);
    }

    proof fn lemma_parse_bounds(s: Seq<u8>) {
        broadcast use vstd::utf8::decode_utf8_encode_utf8;
    }

    fn encode(&self, out: &mut Vec<u8>) -> (r: Result<(), Error>) {
        put_opaque(out, self.as_str().as_bytes())
    }

    fn decode(buf: &[u8], pos: usize) -> (r: Result<(Self, usize), Error>) {
        match get_opaque(buf, pos) {
            Ok((data, next)) => {
                let mut v: Vec<u8> = Vec::new();
                v.extend_from_slice(data);
                assert(v@ =~= data@);
                match string_from_utf8(v) {
                    Some(text) => Ok((text, next)),
                    None => Err(Error::Malformed),
                }
            },
            Err(e) => Err(e),
        }
    }
}

/// Nothing at all, as the arguments or results of a procedure that has none.
impl Xdr for () {
    open spec fn valid(v: ()) -> bool {
        true
    }

    open spec fn wire(v: ()) -> Seq<u8> {
        Seq::empty()
    }

    open spec fn parse(s: Seq<u8>) -> Option<((), nat)> {
        Some(((), 0nat))
    }

    proof fn lemma_round_trip(v: (), rest: Seq<u8>) {
        assert(Self::wire(v) + rest =~= rest);
    }

    proof fn lemma_parse_bounds(s: Seq<u8>) {
    }

    fn encode(&self, out: &mut Vec<u8>) -> (r: Result<(), Error>) {
        assert(out@ =~= old(out)@ + Self::wire(()));
        Ok(())
    }

    fn decode(buf: &[u8], pos: usize) -> (r: Result<(Self, usize), Error>) {
        if pos > buf.len() {
            return Err(Error::Malformed);
        }
        Ok(((), pos))
    }
}

/// An unsigned short travels as a 32-bit number. A number that does not fit
/// is not one.
impl Xdr for u16 {
    open spec fn valid(v: u16) -> bool {
        true
    }

    open spec fn wire(v: u16) -> Seq<u8> {
        u32_wire(v as u32)
    }

    open spec fn parse(s: Seq<u8>) -> Option<(u16, nat)> {
        if s.len() >= 4 && be32(s) <= 0xffff {
            Some((be32(s) as u16, 4nat))
        } else {
            None
        }
    }

    proof fn lemma_round_trip(v: u16, rest: Seq<u8>) {
        lemma_be32_of_wire(v as u32, rest);
    }

    proof fn lemma_parse_bounds(s: Seq<u8>) {
    }

    fn encode(&self, out: &mut Vec<u8>) -> (r: Result<(), Error>) {
        put_u32(out, *self as u32);
        Ok(())
    }

    fn decode(buf: &[u8], pos: usize) -> (r: Result<(Self, usize), Error>) {
        match get_u32(buf, pos) {
            Ok((u, next)) => if u <= 0xffff {
                Ok((u as u16, next))
            } else {
                Err(Error::Malformed)
            },
            Err(e) => Err(e),
        }
    }
}

/// An unsigned char travels as a 32-bit number. A number that does not fit
/// is not one.
impl Xdr for u8 {
    open spec fn valid(v: u8) -> bool {
        true
    }

    open spec fn wire(v: u8) -> Seq<u8> {
        u32_wire(v as u32)
    }

    open spec fn parse(s: Seq<u8>) -> Option<(u8, nat)> {
        if s.len() >= 4 && be32(s) <= 0xff {
            Some((be32(s) as u8, 4nat))
        } else {
            None
        }
    }

    proof fn lemma_round_trip(v: u8, rest: Seq<u8>) {
        lemma_be32_of_wire(v as u32, rest);
    }

    proof fn lemma_parse_bounds(s: Seq<u8>) {
    }

    fn encode(&self, out: &mut Vec<u8>) -> (r: Result<(), Error>) {
        put_u32(out, *self as u32);
        Ok(())
    }

    fn decode(buf: &[u8], pos: usize) -> (r: Result<(Self, usize), Error>) {
        match get_u32(buf, pos) {
            Ok((u, next)) => if u <= 0xff {
                Ok((u as u8, next))
            } else {
                Err(Error::Malformed)
            },
            Err(e) => Err(e),
        }
    }
}

/// A structure of two fields: the encodings of the fields, in order. Longer
/// structures nest.
impl<A: Xdr, B: Xdr> Xdr for (A, B) {
    open spec fn valid(v: (A::V, B::V)) -> bool {
        A::valid(v.0) && B::valid(v.1)
    }

    open spec fn wire(v: (A::V, B::V)) -> Seq<u8> {
        A::wire(v.0) + B::wire(v.1)
    }

    open spec fn parse(s: Seq<u8>) -> Option<((A::V, B::V), nat)> {
        match A::parse(s) {
            Some((a, n)) => match B::parse(s.skip(n as int)) {
                Some((b, m)) => Some(((a, b), n + m)),
                None => None,
            },
            None => None,
        }
    }

    proof fn lemma_round_trip(v: (A::V, B::V), rest: Seq<u8>) {
        let s = Self::wire(v) + rest;
        A::lemma_round_trip(v.0, B::wire(v.1) + rest);
        assert(s =~= A::wire(v.0) + (B::wire(v.1) + rest));
        assert(s.skip(A::wire(v.0).len() as int) =~= B::wire(v.1) + rest);
        B::lemma_round_trip(v.1, rest);
    }

    proof fn lemma_parse_bounds(s: Seq<u8>) {
        A::lemma_parse_bounds(s);
        if let Some((a, n)) = A::parse(s) {
            B::lemma_parse_bounds(s.skip(n as int));
        }
    }

    fn encode(&self, out: &mut Vec<u8>) -> (r: Result<(), Error>) {
        let start: usize = out.len();
        match self.0.encode(out) {
            Ok(()) => {},
            Err(e) => {
                return Err(e);
            },
        }
        match self.1.encode(out) {
            Ok(()) => {
                assert(out@ =~= old(out)@ + Self::wire(self@));
                Ok(())
            },
            Err(e) => {
                out.truncate(start);
                assert(out@ =~= old(out)@);
                Err(e)
            },
        }
    }

    fn decode(buf: &[u8], pos: usize) -> (r: Result<(Self, usize), Error>) {
        if pos > buf.len() {
            return Err(Error::Malformed);
        }
        let ghost s = buf@.skip(pos as int);
        proof {
            A::lemma_parse_bounds(s);
        }
        let (a, mid): (A, usize) = match A::decode(buf, pos) {
            Ok(x) => x,
            Err(e) => {
                return Err(Error::Malformed);
            },
        };
        assert(s.skip(mid - pos) =~= buf@.skip(mid as int));
        match B::decode(buf, mid) {
            Ok((b, end)) => Ok(((a, b), end)),
            Err(e) => Err(Error::Malformed),
        }
    }
}

} // verus!
