//! XDR arrays: fixed-length ones, whose length both sides know, and
//! variable-length ones, which carry their length in front.
use vstd::prelude::*;
use crate::error::Error;
use crate::protocols::onc_rpc::xdr::{
    be32,
    from_pos,
    get_u32,
    lemma_be32_of_wire,
    put_u32,
    u32_wire,
    Xdr,
};

verus! {

broadcast use crate::protocols::onc_rpc::xdr::lemma_u32_wire_len;

/// What the items of a vector hold, item by item.
pub open spec fn views<T: View>(items: Seq<T>) -> Seq<T::V> {
    Seq::new(items.len(), |i: int| items[i]@)
}

/// Whether every item has an encoding.
pub open spec fn all_valid<T: Xdr>(items: Seq<T::V>) -> bool {
    forall|i: int| 0 <= i < items.len() ==> T::valid(#[trigger] items[i])
}

/// The encodings of the items, in order: a fixed-length array.
pub open spec fn items_wire<T: Xdr>(items: Seq<T::V>) -> Seq<u8>
    decreases items.len(),
{
    if items.len() == 0 {
        Seq::empty()
    } else {
        items_wire::<T>(items.drop_last()) + T::wire(items.last())
    }
}

/// What a decoder of `count` items reads at the head of `s`.
pub open spec fn parse_items<T: Xdr>(s: Seq<u8>, count: nat) -> Option<(Seq<T::V>, nat)>
    decreases count,
{
    if count == 0 {
        Some((Seq::empty(), 0nat))
    } else {
        match parse_items::<T>(s, (count - 1) as nat) {
            None => None,
            Some((head, n)) => if n > s.len() {
                None
            } else {
                match T::parse(s.skip(n as int)) {
                    None => None,
                    Some((item, m)) => Some((head.push(item), n + m)),
                }
            },
        }
    }
}

/// A variable-length array: the number of items, then the items.
pub open spec fn array_wire<T: Xdr>(items: Seq<T::V>) -> Seq<u8> {
    u32_wire(items.len() as u32) + items_wire::<T>(items)
}

/// What a decoder of a variable-length array reads at the head of `s`.
pub open spec fn parse_array<T: Xdr>(s: Seq<u8>) -> Option<(Seq<T::V>, nat)> {
    if s.len() < 4 {
        None
    } else {
        match parse_items::<T>(s.skip(4), be32(s) as nat) {
            Some((items, n)) => Some((items, 4 + n)),
            None => None,
        }
    }
}

/// What a decoder of `count` items reads at position `pos` of `buf`.
pub open spec fn parse_items_at<T: Xdr>(buf: Seq<u8>, pos: usize, count: nat) -> Option<
    (Seq<T::V>, nat),
> {
    match from_pos(buf, pos) {
        Some(s) => parse_items::<T>(s, count),
        None => None,
    }
}

/// What a decoder of a variable-length array reads at position `pos` of
/// `buf`.
pub open spec fn parse_array_at<T: Xdr>(buf: Seq<u8>, pos: usize) -> Option<(Seq<T::V>, nat)> {
    match from_pos(buf, pos) {
        Some(s) => parse_array::<T>(s),
        None => None,
    }
}

/// Decoding `count` items stays inside the input and stops on a four-byte
/// boundary, and gives `count` items that can be encoded again.
pub proof fn lemma_parse_items_bounds<T: Xdr>(s: Seq<u8>, count: nat)
    ensures
        parse_items::<T>(s, count) matches Some((items, n)) ==> n <= s.len() && n % 4 == 0
            && items.len() == count && all_valid::<T>(items),
    decreases count,
{
    if count > 0 {
        lemma_parse_items_bounds::<T>(s, (count - 1) as nat);
        if let Some((head, n)) = parse_items::<T>(s, (count - 1) as nat) {
            if n <= s.len() {
                T::lemma_parse_bounds(s.skip(n as int));
                if let Some((item, m)) = T::parse(s.skip(n as int)) {
                    let items = head.push(item);
                    assert forall|i: int| 0 <= i < items.len() implies T::valid(
                        #[trigger] items[i],
                    ) by {
                        if i < head.len() {
                            assert(items[i] == head[i]);
                        }
                    }
                }
            }
        }
    }
}

/// An encoded fixed-length array is a whole number of four-byte units, and
/// decoding as many items as were encoded gives them back, whatever follows.
pub proof fn lemma_items_round_trip<T: Xdr>(items: Seq<T::V>, rest: Seq<u8>)
    requires
        all_valid::<T>(items),
    ensures
        items_wire::<T>(items).len() % 4 == 0,
        parse_items::<T>(items_wire::<T>(items) + rest, items.len()) == Some(
            (items, items_wire::<T>(items).len()),
        ),
    decreases items.len(),
{
    if items.len() > 0 {
        let head = items.drop_last();
        let last = items.last();
        let s = items_wire::<T>(items) + rest;
        assert(all_valid::<T>(head)) by {
            assert forall|i: int| 0 <= i < head.len() implies T::valid(#[trigger] head[i]) by {
                assert(head[i] == items[i]);
            }
        }
        lemma_items_round_trip::<T>(head, T::wire(last) + rest);
        assert(s =~= items_wire::<T>(head) + (T::wire(last) + rest));
        assert(s.skip(items_wire::<T>(head).len() as int) =~= T::wire(last) + rest);
        T::lemma_round_trip(last, rest);
        assert(head.push(last) =~= items);
    }
}

/// An encoded variable-length array is a whole number of four-byte units,
/// and decoding it gives the items back, whatever follows.
pub proof fn lemma_array_round_trip<T: Xdr>(items: Seq<T::V>, rest: Seq<u8>)
    requires
        all_valid::<T>(items),
        items.len() <= u32::MAX,
    ensures
        array_wire::<T>(items).len() % 4 == 0,
        parse_array::<T>(array_wire::<T>(items) + rest) == Some(
            (items, array_wire::<T>(items).len()),
        ),
{
    let s = array_wire::<T>(items) + rest;
    lemma_be32_of_wire(items.len() as u32, items_wire::<T>(items) + rest);
    assert(s =~= u32_wire(items.len() as u32) + (items_wire::<T>(items) + rest));
    assert(s.skip(4) =~= items_wire::<T>(items) + rest);
    lemma_items_round_trip::<T>(items, rest);
}

/// Appends the items of a fixed-length array to `out`. Where an item has no
/// encoding, `out` is left as it was.
pub fn encode_items<T: Xdr>(items: &Vec<T>, out: &mut Vec<u8>) -> (r: Result<(), Error>)
    ensures
        r is Ok <==> all_valid::<T>(views(items@)),
        r is Ok ==> final(out)@ == old(out)@ + items_wire::<T>(views(items@)),
        r is Err ==> final(out)@ == old(out)@ && r == Err::<(), Error>(Error::Malformed),
{
    let start: usize = out.len();
    let ghost all = views(items@);
    let mut i: usize = 0;
    while i < items.len()
        invariant
            i <= items.len(),
            all == views(items@),
            start == old(out)@.len(),
            all_valid::<T>(all.take(i as int)),
            out@ == old(out)@ + items_wire::<T>(all.take(i as int)),
        decreases items.len() - i,
    {
        let ghost before = all.take(i as int);
        let ghost next = all.take(i + 1);
        proof {
            assert(next.drop_last() =~= before);
            assert(next.last() == items@[i as int]@);
        }
        match items[i].encode(out) {
            Ok(()) => {
                proof {
                    assert forall|j: int| 0 <= j < next.len() implies T::valid(
                        #[trigger] next[j],
                    ) by {
                        if j < i {
                            assert(next[j] == before[j]);
                        }
                    }
                    assert(out@ =~= old(out)@ + items_wire::<T>(next));
                }
            },
            Err(e) => {
                out.truncate(start);
                proof {
                    assert(out@ =~= old(out)@);
                    assert(all[i as int] == items@[i as int]@);
                }
                return Err(Error::Malformed);
            },
        }
        i = i + 1;
    }
    proof {
        assert(all.take(i as int) =~= all);
    }
    Ok(())
}

/// Reads the `count` items of a fixed-length array at `pos`, and says where
/// the next item starts.
pub fn decode_items<T: Xdr>(buf: &[u8], pos: usize, count: usize) -> (r: Result<
    (Vec<T>, usize),
    Error,
>)
    ensures
        match parse_items_at::<T>(buf@, pos, count as nat) {
            Some((items, n)) => r matches Ok((x, p)) && views(x@) == items && p == pos + n,
            None => r matches Err(e) && e == Error::Malformed,
        },
{
    if pos > buf.len() {
        return Err(Error::Malformed);
    }
    let ghost s = buf@.skip(pos as int);
    let mut items: Vec<T> = Vec::new();
    let mut at: usize = pos;
    let mut i: usize = 0;
    proof {
        assert(views(items@) =~= Seq::<T::V>::empty());
    }
    while i < count
        invariant
            i <= count,
            pos <= at <= buf.len(),
            s == buf@.skip(pos as int),
            parse_items::<T>(s, i as nat) == Some((views(items@), (at - pos) as nat)),
        decreases count - i,
    {
        let ghost head = views(items@);
        proof {
            assert(s.skip(at - pos) =~= buf@.skip(at as int));
            T::lemma_parse_bounds(s.skip(at - pos));
        }
        match T::decode(buf, at) {
            Ok((item, next)) => {
                items.push(item);
                proof {
                    assert(views(items@) =~= head.push(item@));
                }
                at = next;
            },
            Err(e) => {
                proof {
                    lemma_parse_items_fails::<T>(s, (i + 1) as nat, count as nat);
                }
                return Err(Error::Malformed);
            },
        }
        i = i + 1;
    }
    Ok((items, at))
}

/// Where decoding some items fails, decoding more of them fails too.
pub proof fn lemma_parse_items_fails<T: Xdr>(s: Seq<u8>, few: nat, many: nat)
    requires
        few <= many,
        parse_items::<T>(s, few) is None,
    ensures
        parse_items::<T>(s, many) is None,
    decreases many,
{
    if few < many {
        lemma_parse_items_fails::<T>(s, few, (many - 1) as nat);
    }
}

/// Appends a variable-length array to `out`: the number of items, then the
/// items. Where there are too many items for a 32-bit count or an item has no
/// encoding, `out` is left as it was.
pub fn encode_array<T: Xdr>(items: &Vec<T>, out: &mut Vec<u8>) -> (r: Result<(), Error>)
    ensures
        r is Ok <==> items@.len() <= u32::MAX && all_valid::<T>(views(items@)),
        r is Ok ==> final(out)@ == old(out)@ + array_wire::<T>(views(items@)),
        r is Err ==> final(out)@ == old(out)@ && r == Err::<(), Error>(Error::Malformed),
{
    if items.len() > 0xffff_ffff {
        return Err(Error::Malformed);
    }
    let start: usize = out.len();
    put_u32(out, items.len() as u32);
    match encode_items(items, out) {
        Ok(()) => {
            assert(out@ =~= old(out)@ + array_wire::<T>(views(items@)));
            Ok(())
        },
        Err(e) => {
            out.truncate(start);
            assert(out@ =~= old(out)@);
            Err(e)
        },
    }
}

/// Reads the variable-length array at `pos`, and says where the next item
/// starts.
pub fn decode_array<T: Xdr>(buf: &[u8], pos: usize) -> (r: Result<(Vec<T>, usize), Error>)
    ensures
        match parse_array_at::<T>(buf@, pos) {
            Some((items, n)) => r matches Ok((x, p)) && views(x@) == items && p == pos + n,
            None => r matches Err(e) && e == Error::Malformed,
        },
{
    let (count, start): (u32, usize) = match get_u32(buf, pos) {
        Ok(x) => x,
        Err(e) => {
            return Err(e);
        },
    };
    assert(buf@.skip(pos as int).skip(4) =~= buf@.skip(start as int));
    decode_items(buf, start, count as usize)
}

} // verus!
