//! A verified client dispatch core for RPC stubs.
//!
//! The crate models the runtime contract that a generated RPC client must
//! honour: an immutable service description, a pure wire-path derivation,
//! a pluggable message codec, an abstract bidirectional transport behind a
//! readiness gate, and the four calling conventions (unary, client-streaming,
//! server-streaming, bidirectional). Every dispatch operation is verified
//! against the transport's and codec's contracts: no message crosses the
//! wire before the readiness check succeeds, outbound messages go out in caller
//! order, and every failure is surfaced through one uniform error type.

pub mod client;
pub mod codec;
pub mod descriptor;
pub mod dispatch;
pub mod path;
pub mod scripted;
pub mod status;
pub mod stream;
pub mod transport;
