//! Instrument models: their command sets and how their messages are
//! delimited on a byte-oriented transport.
use vstd::prelude::*;

pub mod mdt693_b;

verus! {

/// Something that an instrument can be asked.
pub trait Query {
    /// The form in which the question travels.
    type R;

    /// The bytes of the question, without terminator.
    fn to_bytes(self) -> Self::R;
}

/// Something that an instrument can be told to do.
pub trait Command {
    /// The form in which the command travels.
    type R;

    /// The bytes of the command, without terminator.
    fn to_bytes(self) -> Self::R;
}

/// An instrument model.
pub trait Model {
    /// What kind of instrument it is.
    const DESCRIPTION: &'static str;

    /// What it can be told.
    type Command: Command;

    /// What it can be asked.
    type Query: Query;

    /// The byte that ends a message to the instrument.
    const TERMINATOR: u8;

    /// The byte that ends the instrument's answer.
    const END_BYTE: u8;
}

/// A message as it goes out on a byte-oriented transport: the payload, then
/// the terminator.
pub open spec fn spec_outgoing(payload: Seq<u8>, terminator: u8) -> Seq<u8> {
    payload.push(terminator)
}

/// Where the first answer in `received` ends: the index just behind the
/// first end byte, or nothing while no end byte has arrived.
pub open spec fn spec_answer_end(received: Seq<u8>, end_byte: u8) -> Option<nat>
    decreases received.len(),
{
    if received.len() == 0 {
        None
    } else if received[0] == end_byte {
        Some(1nat)
    } else {
        match spec_answer_end(received.drop_first(), end_byte) {
            Some(n) => Some(n + 1),
            None => None,
        }
    }
}

/// The first answer ends just behind the first end byte: there is an end
/// byte before the index that `spec_answer_end` gives and none earlier, and
/// where it gives nothing there is no end byte at all.
pub proof fn lemma_answer_end(received: Seq<u8>, end_byte: u8)
    ensures
        match spec_answer_end(received, end_byte) {
            Some(n) => 1 <= n <= received.len() && received[n - 1] == end_byte && forall|i: int|
                0 <= i < n - 1 ==> received[i] != end_byte,
            None => forall|i: int| 0 <= i < received.len() ==> received[i] != end_byte,
        },
    decreases received.len(),
{
    if received.len() > 0 && received[0] != end_byte {
        let rest = received.drop_first();
        lemma_answer_end(rest, end_byte);
        match spec_answer_end(rest, end_byte) {
            Some(n) => {
                assert forall|i: int| 0 <= i < n implies received[i] != end_byte by {
                    if i > 0 {
                        assert(received[i] == rest[i - 1]);
                    }
                }
                assert(received[n as int] == rest[n - 1]);
            },
            None => {
                assert forall|i: int| 0 <= i < received.len() implies received[i] != end_byte by {
                    if i > 0 {
                        assert(received[i] == rest[i - 1]);
                    }
                }
            },
        }
    }
}

/// Puts the terminator behind a payload.
pub fn outgoing(payload: &[u8], terminator: u8) -> (r: Vec<u8>)
    ensures
        r@ == spec_outgoing(payload@, terminator),
{
    let mut message: Vec<u8> = Vec::new();
    message.extend_from_slice(payload);
    message.push(terminator);
    assert(message@ =~= payload@.push(terminator));
    message
}

/// Finds where the first answer in `received` ends.
pub fn answer_end(received: &[u8], end_byte: u8) -> (r: Option<usize>)
    ensures
        match spec_answer_end(received@, end_byte) {
            Some(n) => r == Some(n as usize),
            None => r is None,
        },
{
    let mut i: usize = 0;
    assert(received@.skip(0) =~= received@);
    while i < received.len()
        invariant
            i <= received.len(),
            match spec_answer_end(received@.skip(i as int), end_byte) {
                Some(n) => spec_answer_end(received@, end_byte) == Some((i + n) as nat),
                None => spec_answer_end(received@, end_byte) is None,
            },
        decreases received.len() - i,
    {
        let ghost here = received@.skip(i as int);
        if received[i] == end_byte {
            return Some(i + 1);
        }
        assert(here.drop_first() =~= received@.skip(i + 1));
        i = i + 1;
    }
    None
}

} // verus!
