//! Client-side protocol engine for laboratory instruments: ONC RPC with XDR,
//! the portmapper, and the VXI-11 core, abort and interrupt programs, plus a
//! few instrument command sets.
//!
//! The crate performs no input or output. Every operation is either a pure
//! function from values to bytes and back, or a step of a state machine that
//! is handed what the transport delivered and answers with what to do next.
use vstd::prelude::*;

pub mod error;
pub mod instruments;
pub mod protocols;

verus! {

/// An instrument that is reached in one usual way.
pub trait DefaultConfig {
    /// The protocol by which the instrument is usually reached.
    type DefaultProtocol;

    /// The usual settings of that protocol.
    spec fn spec_default_protocol() -> Self::DefaultProtocol;

    /// The usual settings of that protocol.
    fn default_protocol() -> (r: Self::DefaultProtocol)
        ensures
            r == Self::spec_default_protocol(),
    ;
}

} // verus!
