//! The uniform error channel: transport statuses and the call-level error
//! taxonomy that every dispatch operation surfaces its failures through.

use vstd::prelude::*;

verus! {

/// Mathematical model of a transport status: a machine-readable code and a
/// human-readable message.
pub ghost struct SpecStatus {
    pub code: u32,
    pub message: Seq<char>,
}

/// A mid-call failure reported by the transport: connection loss, deadline,
/// explicit cancellation, or a remote-reported status. Carries a
/// machine-readable code and a human-readable message; the dispatch core
/// never interprets or retries it.
#[derive(Debug)]
pub struct Status {
    pub code: u32,
    pub message: String,
}

impl View for Status {
    type V = SpecStatus;

    open spec fn view(&self) -> SpecStatus {
        SpecStatus { code: self.code, message: self.message@ }
    }
}

impl Status {
    pub fn new(code: u32, message: String) -> (r: Status)
        ensures
            r@ == (SpecStatus { code, message: message@ }),
    {
        Status { code, message }
    }

    pub fn duplicate(&self) -> (r: Status)
        ensures
            r@ == self@,
    {
        Status { code: self.code, message: self.message.clone() }
    }
}

/// Mathematical model of a call-level error.
pub ghost enum SpecError {
    /// The readiness check failed; the call never started.
    TransportUnavailable { diagnostic: Seq<char> },
    /// Encode or decode of a specific message failed; the call or stream
    /// aborts at that point.
    SerializationError,
    /// The transport reported a mid-call failure.
    TransportFailure { status: SpecStatus },
    /// The call was issued with a shape inconsistent with the method's
    /// declared calling convention; fatal for that call.
    ProtocolViolation,
}

/// A call-level error: every failure of a dispatch operation is returned to
/// the immediate caller (or delivered as a terminal stream event) as one of
/// these four kinds. None is retried or swallowed inside the core, and no
/// error is fatal to the client or transport as a whole.
#[derive(Debug)]
pub enum RpcError {
    /// The readiness check failed; the call never started. Carries the
    /// underlying transport's diagnostic.
    TransportUnavailable { diagnostic: String },
    /// Encode or decode of a specific message failed.
    SerializationError,
    /// The transport reported a mid-call failure.
    TransportFailure { status: Status },
    /// The call's shape does not match the method's calling convention.
    ProtocolViolation,
}

impl View for RpcError {
    type V = SpecError;

    open spec fn view(&self) -> SpecError {
        match self {
            RpcError::TransportUnavailable { diagnostic } => SpecError::TransportUnavailable {
                diagnostic: diagnostic@,
            },
            RpcError::SerializationError => SpecError::SerializationError,
            RpcError::TransportFailure { status } => SpecError::TransportFailure {
                status: status@,
            },
            RpcError::ProtocolViolation => SpecError::ProtocolViolation,
        }
    }
}

impl RpcError {
    /// The mid-call failure carrying a transport status.
    pub fn from_status(status: Status) -> (r: RpcError)
        ensures
            r@ == (SpecError::TransportFailure { status: status@ }),
    {
        RpcError::TransportFailure { status }
    }
}

} // verus!
