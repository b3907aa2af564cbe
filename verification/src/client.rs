//! The user-facing client: one transport, one codec, one immutable service
//! description. Each call names a method of the descriptor by index; the
//! handle checks the method's declared calling convention, derives the wire
//! path, and dispatches. A call issued under the wrong convention is
//! rejected as a protocol violation before any wire activity.

use vstd::prelude::*;
use crate::codec::Codec;
use crate::descriptor::{shape_spec, CallShape, ServiceDescriptor};
use crate::dispatch::{
    dispatch_bidirectional, dispatch_client_streaming, dispatch_server_streaming, dispatch_unary,
    outbound_is_sent_prefix, outbound_wire_shape, result_model, sent_all_then_reply,
    server_streaming_result, unary_result, undecodable_reply,
};
use crate::path::path_spec;
use crate::status::{RpcError, SpecError};
use crate::stream::StreamHandle;
use crate::transport::{byte_views, sent_events, Event, Transport};

verus! {

/// The declared shape of the method at `index` of `d`.
pub open spec fn method_shape(d: ServiceDescriptor, index: int) -> CallShape {
    shape_spec(d.methods@[index].client_streaming, d.methods@[index].server_streaming)
}

/// The wire path of the method at `index` of `d`.
pub open spec fn method_path_spec(d: ServiceDescriptor, index: int) -> Seq<char> {
    path_spec(d.package@, d.service_name@, d.methods@[index].name@)
}

/// A client bound to one service: a transport instance, a codec, and the
/// service descriptor whose methods it dispatches. The descriptor is fixed
/// at construction; sharing one transport among clients is the transport
/// implementation's concern, not this core's. Cloning a handle clones the
/// transport value; a transport type that is itself a shared reference to
/// one connection makes every clone dispatch over that same connection.
#[derive(Clone)]
pub struct ClientHandle<T: Transport, C: Codec> {
    pub transport: T,
    pub codec: C,
    pub descriptor: ServiceDescriptor,
}

impl<T: Transport, C: Codec> ClientHandle<T, C> {
    pub fn new(transport: T, codec: C, descriptor: ServiceDescriptor) -> (r: ClientHandle<T, C>)
        ensures
            r.transport == transport,
            r.codec == codec,
            r.descriptor == descriptor,
    {
        ClientHandle { transport, codec, descriptor }
    }

    /// Advisory readiness check: the same gate every dispatch runs first.
    /// Calling it explicitly neither consumes nor duplicates the gating of a
    /// later call, and performs no wire activity.
    pub fn ready(&mut self) -> (r: Result<(), RpcError>)
        ensures
            *final(self) == *old(self),
            r is Ok <==> old(self).transport.is_ready(),
            r matches Err(e) ==> e@ == (SpecError::TransportUnavailable {
                diagnostic: old(self).transport.ready_diagnostic(),
            }),
    {
        match self.transport.ready() {
            Ok(u) => Ok(()),
            Err(diagnostic) => Err(RpcError::TransportUnavailable { diagnostic }),
        }
    }

    /// Unary entry point for the method at `index`: rejected as a protocol
    /// violation when the method is not unary; otherwise gated, dispatched
    /// and decoded as [`unary_result`] states.
    pub fn call_unary(&mut self, index: usize, req: &Vec<u8>) -> (r: Result<Vec<u8>, RpcError>)
        requires
            index < old(self).descriptor.methods@.len(),
        ensures
            final(self).descriptor == old(self).descriptor,
            final(self).codec == old(self).codec,
            method_shape(old(self).descriptor, index as int) != CallShape::Unary ==> (r matches Err(
                e,
            ) && e@ is ProtocolViolation && *final(self) == *old(self)),
            method_shape(old(self).descriptor, index as int) == CallShape::Unary ==> result_model(r)
                == unary_result(
                old(self).transport,
                old(self).codec,
                method_path_spec(old(self).descriptor, index as int),
                req@,
            ),
            !old(self).transport.is_ready() ==> final(self).transport.events() == old(
                self,
            ).transport.events(),
            method_shape(old(self).descriptor, index as int) == CallShape::Unary && old(
                self,
            ).transport.is_ready() ==> match old(self).transport.unary_outcome(
                method_path_spec(old(self).descriptor, index as int),
                old(self).codec.encode_spec(req@),
            ) {
                Ok(b) => final(self).transport.events() == old(self).transport.events() + seq![
                    Event::Sent(old(self).codec.encode_spec(req@)),
                    Event::Received(b),
                ],
                Err(s) => final(self).transport.events() == old(self).transport.events().push(
                    Event::Sent(old(self).codec.encode_spec(req@)),
                ),
            },
    {
        match self.descriptor.methods[index].shape() {
            CallShape::Unary => {},
            CallShape::ClientStreaming | CallShape::ServerStreaming | CallShape::Bidirectional => {
                return Err(RpcError::ProtocolViolation);
            },
        }
        let path = self.descriptor.method_path(index);
        dispatch_unary(&mut self.transport, &self.codec, path.as_str(), req)
    }

}

impl<T: Transport, C: Codec + Copy> ClientHandle<T, C> {
    /// Server-streaming entry point for the method at `index`: rejected as a
    /// protocol violation when the method is not server-streaming; otherwise
    /// returns a fresh stream handle over the inbound direction.
    pub fn call_server_streaming(&mut self, index: usize, req: &Vec<u8>) -> (r: Result<
        StreamHandle<C>,
        RpcError,
    >)
        requires
            index < old(self).descriptor.methods@.len(),
        ensures
            final(self).descriptor == old(self).descriptor,
            final(self).codec == old(self).codec,
            method_shape(old(self).descriptor, index as int) != CallShape::ServerStreaming ==> (
            r matches Err(e) && e@ is ProtocolViolation && *final(self) == *old(self)),
            method_shape(old(self).descriptor, index as int) == CallShape::ServerStreaming
                ==> match server_streaming_result(
                old(self).transport,
                old(self).codec,
                method_path_spec(old(self).descriptor, index as int),
                req@,
            ) {
                Ok(script) => r matches Ok(h) && h.wf() && h.fresh() && h.codec_model() == old(
                    self,
                ).codec && h.model() == script,
                Err(e) => r matches Err(err) && err@ == e,
            },
            !old(self).transport.is_ready() ==> final(self).transport.events() == old(
                self,
            ).transport.events(),
            method_shape(old(self).descriptor, index as int) == CallShape::ServerStreaming && old(
                self,
            ).transport.is_ready() ==> match old(self).transport.server_outcome(
                method_path_spec(old(self).descriptor, index as int),
                old(self).codec.encode_spec(req@),
            ) {
                Ok(script) => final(self).transport.events() == old(
                    self,
                ).transport.events().push(Event::Sent(old(self).codec.encode_spec(req@))),
                Err(s) => final(self).transport.events() == old(self).transport.events(),
            },
    {
        match self.descriptor.methods[index].shape() {
            CallShape::ServerStreaming => {},
            CallShape::Unary | CallShape::ClientStreaming | CallShape::Bidirectional => {
                return Err(RpcError::ProtocolViolation);
            },
        }
        let path = self.descriptor.method_path(index);
        dispatch_server_streaming(&mut self.transport, self.codec, path.as_str(), req)
    }

}

impl<T: Transport, C: Codec> ClientHandle<T, C> {
    /// Client-streaming entry point for the method at `index`: rejected as a
    /// protocol violation when the method is not client-streaming; otherwise
    /// gated once, the request sequence drained in caller order, and the
    /// single response decoded.
    pub fn call_client_streaming(&mut self, index: usize, reqs: &Vec<Vec<u8>>) -> (r: Result<
        Vec<u8>,
        RpcError,
    >)
        requires
            index < old(self).descriptor.methods@.len(),
        ensures
            final(self).descriptor == old(self).descriptor,
            final(self).codec == old(self).codec,
            method_shape(old(self).descriptor, index as int) != CallShape::ClientStreaming ==> (
            r matches Err(e) && e@ is ProtocolViolation && *final(self) == *old(self)),
            method_shape(old(self).descriptor, index as int) == CallShape::ClientStreaming
                && !old(self).transport.is_ready() ==> (r matches Err(e) && e@
                == (SpecError::TransportUnavailable {
                diagnostic: old(self).transport.ready_diagnostic(),
            })),
            method_shape(old(self).descriptor, index as int) == CallShape::ClientStreaming ==> (
            r matches Ok(m) ==> exists|b: Seq<u8>|
                #![auto]
                old(self).codec.decode_spec(b) == Some(m@) && sent_all_then_reply(
                    old(self).codec,
                    old(self).transport.events(),
                    final(self).transport.events(),
                    byte_views(reqs@),
                    b,
                )),
            !old(self).transport.is_ready() ==> final(self).transport.events() == old(
                self,
            ).transport.events(),
            method_shape(old(self).descriptor, index as int) == CallShape::ClientStreaming && old(
                self,
            ).transport.is_ready() ==> (r matches Err(e) ==> e@ is SerializationError || e@
                is TransportFailure),
            method_shape(old(self).descriptor, index as int) == CallShape::ClientStreaming && old(
                self,
            ).transport.is_ready() ==> match old(self).transport.open_outcome(
                method_path_spec(old(self).descriptor, index as int),
            ) {
                Err(s) => r matches Err(e) && e@ == (SpecError::TransportFailure { status: s })
                    && final(self).transport.events() == old(self).transport.events(),
                Ok(u) => true,
            },
            method_shape(old(self).descriptor, index as int) == CallShape::ClientStreaming ==> (
            r matches Err(e) && e@ is SerializationError ==> undecodable_reply(
                old(self).codec,
                old(self).transport.events(),
                final(self).transport.events(),
                byte_views(reqs@),
            )),
            method_shape(old(self).descriptor, index as int) == CallShape::ClientStreaming
                ==> outbound_wire_shape(
                old(self).codec,
                old(self).transport.events(),
                final(self).transport.events(),
                byte_views(reqs@),
            ),
    {
        match self.descriptor.methods[index].shape() {
            CallShape::ClientStreaming => {},
            CallShape::Unary | CallShape::ServerStreaming | CallShape::Bidirectional => {
                return Err(RpcError::ProtocolViolation);
            },
        }
        let path = self.descriptor.method_path(index);
        let r = dispatch_client_streaming(&mut self.transport, &self.codec, path.as_str(), reqs);
        proof {
            assert(self.codec == old(self).codec);
        }
        r
    }

}

impl<T: Transport, C: Codec + Copy> ClientHandle<T, C> {
    /// Bidirectional entry point for the method at `index`: rejected as a
    /// protocol violation when the method is not bidirectional; otherwise
    /// gated once, the outbound sequence drained in caller order, and a
    /// fresh stream handle returned over the inbound direction.
    pub fn call_bidirectional(&mut self, index: usize, reqs: &Vec<Vec<u8>>) -> (r: Result<
        StreamHandle<C>,
        RpcError,
    >)
        requires
            index < old(self).descriptor.methods@.len(),
        ensures
            final(self).descriptor == old(self).descriptor,
            final(self).codec == old(self).codec,
            method_shape(old(self).descriptor, index as int) != CallShape::Bidirectional ==> (
            r matches Err(e) && e@ is ProtocolViolation && *final(self) == *old(self)),
            method_shape(old(self).descriptor, index as int) == CallShape::Bidirectional
                && !old(self).transport.is_ready() ==> (r matches Err(e) && e@
                == (SpecError::TransportUnavailable {
                diagnostic: old(self).transport.ready_diagnostic(),
            })),
            !old(self).transport.is_ready() ==> final(self).transport.events() == old(
                self,
            ).transport.events(),
            r matches Ok(h) ==> h.wf() && h.fresh() && h.codec_model() == old(self).codec
                && final(self).transport.events() == old(self).transport.events() + sent_events(
                old(self).codec,
                byte_views(reqs@),
            ),
            method_shape(old(self).descriptor, index as int) == CallShape::Bidirectional && old(
                self,
            ).transport.is_ready() ==> (r matches Err(e) ==> e@ is TransportFailure),
            method_shape(old(self).descriptor, index as int) == CallShape::Bidirectional && old(
                self,
            ).transport.is_ready() ==> match old(self).transport.bidi_outcome(
                method_path_spec(old(self).descriptor, index as int),
            ) {
                Err(s) => r matches Err(e) && e@ == (SpecError::TransportFailure { status: s })
                    && final(self).transport.events() == old(self).transport.events(),
                Ok(script) => (r matches Ok(h) ==> h.model() == script) && (reqs@.len() == 0
                    ==> r is Ok),
            },
            method_shape(old(self).descriptor, index as int) == CallShape::Bidirectional
                ==> outbound_is_sent_prefix(
                old(self).codec,
                old(self).transport.events(),
                final(self).transport.events(),
                byte_views(reqs@),
            ),
    {
        match self.descriptor.methods[index].shape() {
            CallShape::Bidirectional => {},
            CallShape::Unary | CallShape::ClientStreaming | CallShape::ServerStreaming => {
                return Err(RpcError::ProtocolViolation);
            },
        }
        let path = self.descriptor.method_path(index);
        let r = dispatch_bidirectional(&mut self.transport, self.codec, path.as_str(), reqs);
        proof {
            assert(self.codec == old(self).codec);
        }
        r
    }
}

} // verus!
