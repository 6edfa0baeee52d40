//! The error kinds that the protocol engine reports.
use vstd::prelude::*;

verus! {

/// Why a server refused a call outright.
#[derive(Clone, Copy, Debug, PartialEq, Eq, Structural)]
pub enum RejectReason {
    /// The server speaks another RPC version; `low` and `high` bound what it accepts.
    RpcMismatch { low: u32, high: u32 },
    /// The credentials or the verifier were refused, with the server's `auth_stat`.
    AuthError { stat: u32 },
}

/// How an accepted call failed.
#[derive(Clone, Copy, Debug, PartialEq, Eq, Structural)]
pub enum AcceptError {
    /// The program is not exported by the server.
    ProgUnavail,
    /// The program is exported in other versions only, `low` to `high`.
    ProgMismatch { low: u32, high: u32 },
    /// The program has no such procedure.
    ProcUnavail,
    /// The server could not decode the arguments.
    GarbageArgs,
    /// The server ran out of some resource.
    SystemErr,
}

/// What went wrong below the protocol, as far as the engine can tell.
#[derive(Clone, Copy, Debug, PartialEq, Eq, Structural)]
pub enum IoSource {
    /// The device took fewer bytes than the chunk held.
    PartialWrite { written: u32, expected: u32 },
    /// The socket layer failed with this operating-system code.
    Os { code: i32 },
}

/// What a VXI-11 error code stands for.
#[derive(Clone, Copy, Debug, PartialEq, Eq, Structural)]
pub enum DeviceFault {
    SyntaxError,
    DeviceNotAccessible,
    InvalidLink,
    ParameterError,
    ChannelNotEstablished,
    OperationNotSupported,
    OutOfResources,
    DeviceLocked,
    NoLock,
    IoTimeout,
    IoError,
    Abort,
    ChannelAlreadyEstablished,
    /// A code that the VXI-11 standard does not assign.
    Unassigned,
}

/// What a VXI-11 error code other than zero stands for.
pub open spec fn spec_device_fault(code: i32) -> DeviceFault {
    if code == 1 {
        DeviceFault::SyntaxError
    } else if code == 3 {
        DeviceFault::DeviceNotAccessible
    } else if code == 4 {
        DeviceFault::InvalidLink
    } else if code == 5 {
        DeviceFault::ParameterError
    } else if code == 6 {
        DeviceFault::ChannelNotEstablished
    } else if code == 8 {
        DeviceFault::OperationNotSupported
    } else if code == 9 {
        DeviceFault::OutOfResources
    } else if code == 11 {
        DeviceFault::DeviceLocked
    } else if code == 12 {
        DeviceFault::NoLock
    } else if code == 15 {
        DeviceFault::IoTimeout
    } else if code == 17 {
        DeviceFault::IoError
    } else if code == 23 {
        DeviceFault::Abort
    } else if code == 29 {
        DeviceFault::ChannelAlreadyEstablished
    } else {
        DeviceFault::Unassigned
    }
}

/// What a VXI-11 error code comes to: success for zero, else a device error
/// with the code and what it stands for.
pub open spec fn spec_device_result(code: i32) -> Result<(), Error> {
    if code == 0 {
        Ok(())
    } else {
        Err(Error::Device { code, description: spec_device_fault(code) })
    }
}

/// What a VXI-11 error code other than zero stands for.
pub fn device_fault(code: i32) -> (r: DeviceFault)
    ensures
        r == spec_device_fault(code),
{
    if code == 1 {
        DeviceFault::SyntaxError
    } else if code == 3 {
        DeviceFault::DeviceNotAccessible
    } else if code == 4 {
        DeviceFault::InvalidLink
    } else if code == 5 {
        DeviceFault::ParameterError
    } else if code == 6 {
        DeviceFault::ChannelNotEstablished
    } else if code == 8 {
        DeviceFault::OperationNotSupported
    } else if code == 9 {
        DeviceFault::OutOfResources
    } else if code == 11 {
        DeviceFault::DeviceLocked
    } else if code == 12 {
        DeviceFault::NoLock
    } else if code == 15 {
        DeviceFault::IoTimeout
    } else if code == 17 {
        DeviceFault::IoError
    } else if code == 23 {
        DeviceFault::Abort
    } else if code == 29 {
        DeviceFault::ChannelAlreadyEstablished
    } else {
        DeviceFault::Unassigned
    }
}

/// Turns a VXI-11 error code into a result.
pub fn device_result(code: i32) -> (r: Result<(), Error>)
    ensures
        r == spec_device_result(code),
{
    if code == 0 {
        Ok(())
    } else {
        Err(Error::Device { code, description: device_fault(code) })
    }
}

impl DeviceFault {
    /// The name that the VXI-11 standard gives to the fault.
    pub fn describe(self) -> (r: &'static str)
        ensures
            r@ == self.spec_describe(),
    {
        match self {
            DeviceFault::SyntaxError => "syntax error",
            DeviceFault::DeviceNotAccessible => "device not accessible",
            DeviceFault::InvalidLink => "invalid link identifier",
            DeviceFault::ParameterError => "parameter error",
            DeviceFault::ChannelNotEstablished => "channel not established",
            DeviceFault::OperationNotSupported => "operation not supported",
            DeviceFault::OutOfResources => "out of resources",
            DeviceFault::DeviceLocked => "device locked by another link",
            DeviceFault::NoLock => "no lock held by this link",
            DeviceFault::IoTimeout => "I/O timeout",
            DeviceFault::IoError => "I/O error",
            DeviceFault::Abort => "abort",
            DeviceFault::ChannelAlreadyEstablished => "channel already established",
            DeviceFault::Unassigned => "unassigned error code",
        }
    }

    /// The name that the VXI-11 standard gives to the fault.
    pub open spec fn spec_describe(self) -> Seq<char> {
        match self {
            DeviceFault::SyntaxError => "syntax error"@,
            DeviceFault::DeviceNotAccessible => "device not accessible"@,
            DeviceFault::InvalidLink => "invalid link identifier"@,
            DeviceFault::ParameterError => "parameter error"@,
            DeviceFault::ChannelNotEstablished => "channel not established"@,
            DeviceFault::OperationNotSupported => "operation not supported"@,
            DeviceFault::OutOfResources => "out of resources"@,
            DeviceFault::DeviceLocked => "device locked by another link"@,
            DeviceFault::NoLock => "no lock held by this link"@,
            DeviceFault::IoTimeout => "I/O timeout"@,
            DeviceFault::IoError => "I/O error"@,
            DeviceFault::Abort => "abort"@,
            DeviceFault::ChannelAlreadyEstablished => "channel already established"@,
            DeviceFault::Unassigned => "unassigned error code"@,
        }
    }
}

/// The errors surfaced to callers.
#[derive(Clone, Copy, Debug, PartialEq, Eq, Structural)]
pub enum Error {
    /// A deadline elapsed on a socket operation.
    Timeout,
    /// A record marker is corrupt or the stream lost synchronisation.
    Framing,
    /// XDR decoding failed, or a size cap was exceeded.
    Malformed,
    /// The server refused the call.
    RpcRejected { reason: RejectReason },
    /// The server accepted the call and then failed it.
    RpcError { stat: AcceptError },
    /// The instrument answered with a VXI-11 error code other than zero.
    Device { code: i32, description: DeviceFault },
    /// The transport failed.
    Io { source: IoSource },
    /// The link or the transport was already torn down.
    ChannelClosed,
}

impl Error {
    /// Whether the error is a deadline that elapsed.
    pub fn is_timeout(&self) -> (r: bool)
        ensures
            r == (*self == Error::Timeout),
    {
        match self {
            Error::Timeout => true,
            _ => false,
        }
    }
}

} // verus!
