//! Immutable service descriptions: per-method names, message types, and the
//! streaming flags that select one of the four calling conventions.

use vstd::prelude::*;
use crate::path::{build_path, path_spec};

verus! {

/// One of the four calling conventions, selected by a method's pair of
/// streaming flags. The pair never changes after descriptor creation.
#[derive(Clone, Copy, PartialEq, Eq, Structural, Debug)]
pub enum CallShape {
    /// Single request message, single response message.
    Unary,
    /// Lazy sequence of request messages, single response message.
    ClientStreaming,
    /// Single request message, lazy sequence of response messages.
    ServerStreaming,
    /// Lazy sequences in both directions.
    Bidirectional,
}

/// The shape selected by a `(client_streaming, server_streaming)` flag pair.
pub open spec fn shape_spec(client_streaming: bool, server_streaming: bool) -> CallShape {
    match (client_streaming, server_streaming) {
        (false, false) => CallShape::Unary,
        (true, false) => CallShape::ClientStreaming,
        (false, true) => CallShape::ServerStreaming,
        (true, true) => CallShape::Bidirectional,
    }
}

/// Description of one method: its name, its message type names, and the two
/// streaming flags. Created once and read-only thereafter.
#[derive(Clone)]
pub struct MethodDescriptor {
    pub name: String,
    pub input_type: String,
    pub output_type: String,
    pub client_streaming: bool,
    pub server_streaming: bool,
}

impl MethodDescriptor {
    /// The calling convention this method uses: exactly one of the four,
    /// determined by the two streaming flags.
    pub fn shape(&self) -> (r: CallShape)
        ensures
            r == shape_spec(self.client_streaming, self.server_streaming),
    {
        match (self.client_streaming, self.server_streaming) {
            (false, false) => CallShape::Unary,
            (true, false) => CallShape::ClientStreaming,
            (false, true) => CallShape::ServerStreaming,
            (true, true) => CallShape::Bidirectional,
        }
    }
}

/// Immutable description of a service: package, service name, and an ordered
/// sequence of method descriptors. A zero-length method list is legal (a
/// degenerate client).
#[derive(Clone)]
pub struct ServiceDescriptor {
    pub package: String,
    pub service_name: String,
    pub methods: Vec<MethodDescriptor>,
}

impl ServiceDescriptor {
    /// The wire path of the method at `index`, derived from the descriptor:
    /// `/<package>.<service_name>/<method_name>`. Recomputation is
    /// deterministic, so deriving it per call and deriving it once at
    /// construction are equivalent.
    pub fn method_path(&self, index: usize) -> (r: String)
        requires
            index < self.methods@.len(),
        ensures
            r@ == path_spec(self.package@, self.service_name@, self.methods@[index as int].name@),
    {
        build_path(self.package.as_str(), self.service_name.as_str(), self.methods[index].name.as_str())
    }
}

} // verus!
