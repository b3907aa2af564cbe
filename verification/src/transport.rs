//! The abstract bidirectional transport capability.
//!
//! A transport is modelled by spec functions: whether it is ready, what each
//! exchange primitive returns, and a ghost log of observable wire events.
//! The dispatch operations are verified against this contract alone, so they
//! compose with any implementation that proves it.

use vstd::prelude::*;
use crate::codec::Codec;
use crate::status::{SpecStatus, Status};

verus! {

/// One observable wire action of a call: an encoded message handed to the
/// transport, or an encoded message received from it.
pub ghost enum Event {
    Sent(Seq<u8>),
    Received(Seq<u8>),
}

/// How an inbound stream ends after its listed messages: a clean
/// end-of-stream signal, or a mid-call transport failure.
pub enum StreamEnd {
    Eos,
    Fail(Status),
}

/// Mathematical model of [`StreamEnd`].
pub ghost enum EndModel {
    Eos,
    Fail(SpecStatus),
}

impl View for StreamEnd {
    type V = EndModel;

    open spec fn view(&self) -> EndModel {
        match self {
            StreamEnd::Eos => EndModel::Eos,
            StreamEnd::Fail(s) => EndModel::Fail(s@),
        }
    }
}

/// The inbound side of a streaming exchange as the transport produces it:
/// the encoded messages in arrival order, then how the stream ends.
pub struct InboundScript {
    pub items: Vec<Vec<u8>>,
    pub end: StreamEnd,
}

/// Mathematical model of [`InboundScript`].
pub ghost struct ScriptModel {
    pub items: Seq<Seq<u8>>,
    pub end: EndModel,
}

impl View for InboundScript {
    type V = ScriptModel;

    open spec fn view(&self) -> ScriptModel {
        ScriptModel { items: self.items@.map_values(|v: Vec<u8>| v@), end: self.end@ }
    }
}

impl InboundScript {
    pub fn duplicate(&self) -> (r: InboundScript)
        ensures
            r@ == self@,
    {
        let mut items: Vec<Vec<u8>> = Vec::new();
        let mut i: usize = 0;
        while i < self.items.len()
            invariant
                i <= self.items@.len(),
                items@.len() == i,
                forall|j: int| 0 <= j < i ==> items@[j]@ == self.items@[j]@,
            decreases self.items@.len() - i,
        {
            items.push(copy_bytes(&self.items[i]));
            i = i + 1;
        }
        let end = match &self.end {
            StreamEnd::Eos => StreamEnd::Eos,
            StreamEnd::Fail(s) => StreamEnd::Fail(s.duplicate()),
        };
        let r = InboundScript { items, end };
        proof {
            assert(r@.items =~= self@.items);
        }
        r
    }
}

/// Copies a byte vector.
pub fn copy_bytes(v: &Vec<u8>) -> (r: Vec<u8>)
    ensures
        r@ == v@,
{
    let mut r: Vec<u8> = Vec::new();
    let mut i: usize = 0;
    while i < v.len()
        invariant
            i <= v@.len(),
            r@ == v@.take(i as int),
        decreases v@.len() - i,
    {
        r.push(v[i]);
        i = i + 1;
        proof {
            assert(v@.take(i as int) =~= v@.take(i as int - 1).push(v@[i as int - 1]));
        }
    }
    proof {
        assert(v@.take(v@.len() as int) =~= v@);
    }
    r
}

/// The views of a sequence of byte vectors.
pub open spec fn byte_views(s: Seq<Vec<u8>>) -> Seq<Seq<u8>> {
    s.map_values(|v: Vec<u8>| v@)
}

/// The wire events of handing `messages` to the transport in order, each
/// encoded by `c`.
pub open spec fn sent_events<C: Codec>(c: C, messages: Seq<Seq<u8>>) -> Seq<Event> {
    messages.map_values(|m: Seq<u8>| Event::Sent(c.encode_spec(m)))
}

/// The abstract transport capability the dispatch core is verified against.
///
/// Each exchange primitive requires the readiness gate to have passed and
/// states exactly how it extends the wire-event log. Mid-stream sends are
/// not gated again: a call is gated once, at call start.
pub trait Transport: Sized {
    /// Whether the transport can accept a new call now.
    spec fn is_ready(&self) -> bool;

    /// The diagnostic the readiness check carries when the transport is not
    /// ready.
    spec fn ready_diagnostic(&self) -> Seq<char>;

    /// All observable wire activity so far, oldest first.
    spec fn events(&self) -> Seq<Event>;

    /// What a unary exchange on `path` with request bytes `req` returns.
    spec fn unary_outcome(&self, path: Seq<char>, req: Seq<u8>) -> Result<Seq<u8>, SpecStatus>;

    /// What a server-streaming exchange returns: the inbound script, or a
    /// failure at call start.
    spec fn server_outcome(&self, path: Seq<char>, req: Seq<u8>) -> Result<ScriptModel, SpecStatus>;

    /// Whether opening the outbound direction of a client-streaming call on
    /// `path` succeeds.
    spec fn open_outcome(&self, path: Seq<char>) -> Result<(), SpecStatus>;

    /// What opening a bidirectional exchange on `path` returns.
    spec fn bidi_outcome(&self, path: Seq<char>) -> Result<ScriptModel, SpecStatus>;

    /// Whether the transport accepts the next outbound message, given its
    /// current state.
    spec fn send_outcome(&self, msg: Seq<u8>) -> Result<(), SpecStatus>;

    /// The single response produced once the outbound direction of a
    /// client-streaming call is closed, given the transport's current state.
    spec fn finish_outcome(&self) -> Result<Seq<u8>, SpecStatus>;

    /// The readiness gate: succeeds exactly when the transport can accept a
    /// new call, and performs no wire activity. An explicit advisory call
    /// neither consumes nor duplicates the gating of a later dispatch.
    fn ready(&mut self) -> (r: Result<(), String>)
        ensures
            *final(self) == *old(self),
            r is Ok <==> old(self).is_ready(),
            r matches Err(d) ==> d@ == old(self).ready_diagnostic(),
    ;

    /// Unary exchange: one encoded request out, one encoded response in.
    /// A failure is a status the peer reported for the sent request.
    fn unary(&mut self, path: &str, req: &Vec<u8>) -> (r: Result<Vec<u8>, Status>)
        requires
            old(self).is_ready(),
        ensures
            match old(self).unary_outcome(path@, req@) {
                Ok(b) => r matches Ok(resp) && resp@ == b && final(self).events() == old(
                    self,
                ).events() + seq![Event::Sent(req@), Event::Received(b)],
                Err(s) => r matches Err(st) && st@ == s && final(self).events() == old(
                    self,
                ).events().push(Event::Sent(req@)),
            },
    ;

    /// Server-streaming exchange: one encoded request out; on success the
    /// transport hands back the inbound script a stream handle will consume
    /// lazily. A failure rejects the call before the request is sent.
    fn server_streaming(&mut self, path: &str, req: &Vec<u8>) -> (r: Result<InboundScript, Status>)
        requires
            old(self).is_ready(),
        ensures
            match old(self).server_outcome(path@, req@) {
                Ok(script) => r matches Ok(s) && s@ == script && final(self).events() == old(
                    self,
                ).events().push(Event::Sent(req@)),
                Err(st) => r matches Err(e) && e@ == st && final(self).events() == old(
                    self,
                ).events(),
            },
    ;

    /// Opens the outbound direction of a client-streaming call. No message
    /// moves yet.
    fn open_stream(&mut self, path: &str) -> (r: Result<(), Status>)
        requires
            old(self).is_ready(),
        ensures
            match old(self).open_outcome(path@) {
                Ok(u) => r is Ok,
                Err(st) => r matches Err(e) && e@ == st,
            },
            final(self).events() == old(self).events(),
    ;

    /// Opens a bidirectional exchange: hands back the inbound script and
    /// accepts outbound messages until the outbound direction is closed. No
    /// message moves yet.
    fn open_bidi(&mut self, path: &str) -> (r: Result<InboundScript, Status>)
        requires
            old(self).is_ready(),
        ensures
            match old(self).bidi_outcome(path@) {
                Ok(script) => r matches Ok(s) && s@ == script,
                Err(st) => r matches Err(e) && e@ == st,
            },
            final(self).events() == old(self).events(),
    ;

    /// Hands one outbound message to the transport. The call returns only
    /// once the transport has accepted the message — backpressure suspends
    /// the caller here — so a later message is never handed over before an
    /// earlier one has been accepted, and no message is dropped.
    fn send(&mut self, msg: &Vec<u8>) -> (r: Result<(), Status>)
        ensures
            match old(self).send_outcome(msg@) {
                Ok(u) => r is Ok && final(self).events() == old(self).events().push(
                    Event::Sent(msg@),
                ),
                Err(st) => r matches Err(e) && e@ == st && final(self).events() == old(
                    self,
                ).events(),
            },
    ;

    /// Closes the outbound direction of a client-streaming call and waits
    /// for the single response.
    fn finish(&mut self) -> (r: Result<Vec<u8>, Status>)
        ensures
            match old(self).finish_outcome() {
                Ok(b) => r matches Ok(resp) && resp@ == b && final(self).events() == old(
                    self,
                ).events().push(Event::Received(b)),
                Err(st) => r matches Err(e) && e@ == st && final(self).events() == old(
                    self,
                ).events(),
            },
    ;

    /// Closes the outbound direction of a bidirectional call.
    fn close_send(&mut self)
        ensures
            final(self).events() == old(self).events(),
    ;
}

} // verus!
