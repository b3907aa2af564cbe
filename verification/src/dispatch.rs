//! The dispatcher: the four calling conventions, each sharing the same
//! preamble — readiness gate, request encoding, path-addressed exchange —
//! and differing only in the shape of what crosses the wire.
//!
//! Every operation is verified against the transport's and codec's
//! contracts: nothing is sent or received before readiness is established,
//! outbound messages go to the transport in caller order, and each failure
//! is surfaced as exactly one [`RpcError`].

use vstd::prelude::*;
use crate::codec::Codec;
use crate::status::{RpcError, SpecError, SpecStatus};
use crate::stream::StreamHandle;
use crate::transport::{byte_views, sent_events, Event, ScriptModel, Transport};

verus! {

/// The model of an exec dispatch result.
pub open spec fn result_model(r: Result<Vec<u8>, RpcError>) -> Result<Seq<u8>, SpecError> {
    match r {
        Ok(v) => Ok(v@),
        Err(e) => Err(e@),
    }
}

/// What a gated unary dispatch returns: the readiness diagnostic when the
/// transport is not ready; otherwise the decoded response, a serialization
/// error on a malformed response frame, or the transport's failure status.
pub open spec fn unary_result<T: Transport, C: Codec>(
    t: T,
    c: C,
    path: Seq<char>,
    req: Seq<u8>,
) -> Result<Seq<u8>, SpecError> {
    if !t.is_ready() {
        Err(SpecError::TransportUnavailable { diagnostic: t.ready_diagnostic() })
    } else {
        match t.unary_outcome(path, c.encode_spec(req)) {
            Ok(b) => match c.decode_spec(b) {
                Some(m) => Ok(m),
                None => Err(SpecError::SerializationError),
            },
            Err(s) => Err(SpecError::TransportFailure { status: s }),
        }
    }
}

/// Unary call: gate readiness, send the one encoded request, wait for the
/// one encoded response, decode it. No message moves on a not-ready transport.
pub fn dispatch_unary<T: Transport, C: Codec>(
    t: &mut T,
    c: &C,
    path: &str,
    req: &Vec<u8>,
) -> (r: Result<Vec<u8>, RpcError>)
    ensures
        result_model(r) == unary_result(*old(t), *c, path@, req@),
        !old(t).is_ready() ==> final(t).events() == old(t).events(),
        old(t).is_ready() ==> match old(t).unary_outcome(path@, c.encode_spec(req@)) {
            Ok(b) => final(t).events() == old(t).events() + seq![
                Event::Sent(c.encode_spec(req@)),
                Event::Received(b),
            ],
            Err(s) => final(t).events() == old(t).events().push(Event::Sent(c.encode_spec(req@))),
        },
{
    match t.ready() {
        Err(diagnostic) => {
            return Err(RpcError::TransportUnavailable { diagnostic });
        },
        Ok(u) => {},
    }
    let encoded = c.encode(req);
    let reply = match t.unary(path, &encoded) {
        Ok(b) => b,
        Err(st) => {
            return Err(RpcError::from_status(st));
        },
    };
    match c.decode(&reply) {
        Some(m) => Ok(m),
        None => Err(RpcError::SerializationError),
    }
}

/// What a gated server-streaming dispatch returns: the inbound script the
/// stream handle will decode lazily, or the failure that prevented the call.
pub open spec fn server_streaming_result<T: Transport, C: Codec>(
    t: T,
    c: C,
    path: Seq<char>,
    req: Seq<u8>,
) -> Result<ScriptModel, SpecError> {
    if !t.is_ready() {
        Err(SpecError::TransportUnavailable { diagnostic: t.ready_diagnostic() })
    } else {
        match t.server_outcome(path, c.encode_spec(req)) {
            Ok(script) => Ok(script),
            Err(s) => Err(SpecError::TransportFailure { status: s }),
        }
    }
}

/// Server-streaming call: gate readiness, send the one encoded request, and
/// return immediately a fresh handle that decodes each inbound message as it
/// is pulled. No message moves on a not-ready transport.
pub fn dispatch_server_streaming<T: Transport, C: Codec>(
    t: &mut T,
    c: C,
    path: &str,
    req: &Vec<u8>,
) -> (r: Result<StreamHandle<C>, RpcError>)
    ensures
        match server_streaming_result(*old(t), c, path@, req@) {
            Ok(script) => r matches Ok(h) && h.wf() && h.fresh() && h.codec_model() == c
                && h.model() == script,
            Err(e) => r matches Err(err) && err@ == e,
        },
        !old(t).is_ready() ==> final(t).events() == old(t).events(),
        old(t).is_ready() ==> match old(t).server_outcome(path@, c.encode_spec(req@)) {
            Ok(script) => final(t).events() == old(t).events().push(
                Event::Sent(c.encode_spec(req@)),
            ),
            Err(s) => final(t).events() == old(t).events(),
        },
{
    match t.ready() {
        Err(diagnostic) => {
            return Err(RpcError::TransportUnavailable { diagnostic });
        },
        Ok(u) => {},
    }
    let encoded = c.encode(req);
    match t.server_streaming(path, &encoded) {
        Ok(script) => Ok(StreamHandle::new(c, script)),
        Err(st) => Err(RpcError::from_status(st)),
    }
}

/// The wire log grew by exactly the in-order encodes of the first `k` caller
/// messages: message `i + 1` is never handed to the transport before message
/// `i` has been accepted, and no message is skipped or reordered.
pub open spec fn sent_prefix<C: Codec>(
    c: C,
    pre: Seq<Event>,
    post: Seq<Event>,
    msgs: Seq<Seq<u8>>,
    k: int,
) -> bool {
    0 <= k <= msgs.len() && post == pre + sent_events(c, msgs.take(k))
}

/// The wire log grew by all caller messages in order, then one received
/// reply `b`.
pub open spec fn sent_all_then_reply<C: Codec>(
    c: C,
    pre: Seq<Event>,
    post: Seq<Event>,
    msgs: Seq<Seq<u8>>,
    b: Seq<u8>,
) -> bool {
    post == (pre + sent_events(c, msgs)).push(Event::Received(b))
}

/// The wire log grew by an in-order prefix of the encoded caller messages
/// and nothing else.
pub open spec fn outbound_is_sent_prefix<C: Codec>(
    c: C,
    pre: Seq<Event>,
    post: Seq<Event>,
    msgs: Seq<Seq<u8>>,
) -> bool {
    exists|k: int| #[trigger] sent_prefix(c, pre, post, msgs, k)
}

/// The whole outbound law of a call that streams requests: the wire carries
/// an in-order prefix of the encoded caller messages, followed at most by
/// the one received reply (which presupposes the full sequence went out).
pub open spec fn outbound_wire_shape<C: Codec>(
    c: C,
    pre: Seq<Event>,
    post: Seq<Event>,
    msgs: Seq<Seq<u8>>,
) -> bool {
    outbound_is_sent_prefix(c, pre, post, msgs) || (exists|b: Seq<u8>|
        #[trigger] sent_all_then_reply(c, pre, post, msgs, b))
}

/// The wire carries the full outbound sequence and one received reply that
/// is not a well-formed frame: the evidence behind a serialization error on
/// a client-streaming response.
pub open spec fn undecodable_reply<C: Codec>(
    c: C,
    pre: Seq<Event>,
    post: Seq<Event>,
    msgs: Seq<Seq<u8>>,
) -> bool {
    exists|b: Seq<u8>|
        #![auto]
        c.decode_spec(b) is None && sent_all_then_reply(c, pre, post, msgs, b)
}

/// Within one outbound drain, the `i`-th wire event is the encode of the
/// `i`-th caller message: sends happen in caller order, one at a time.
pub proof fn lemma_sent_events_ordered<C: Codec>(c: C, msgs: Seq<Seq<u8>>, k: int, i: int)
    requires
        0 <= i < k <= msgs.len(),
    ensures
        sent_events(c, msgs.take(k))[i] == Event::Sent(c.encode_spec(msgs[i])),
{
}

/// Unary round trip: against a ready transport whose unary exchange echoes
/// the request bytes, dispatching a request `m` through any codec yields
/// exactly `m` back, because every codec's decode inverts its encode.
pub proof fn lemma_unary_round_trip<T: Transport, C: Codec>(
    t: T,
    c: C,
    path: Seq<char>,
    m: Seq<u8>,
)
    requires
        t.is_ready(),
        t.unary_outcome(path, c.encode_spec(m)) == Ok::<Seq<u8>, SpecStatus>(c.encode_spec(m)),
    ensures
        unary_result(t, c, path, m) == Ok::<Seq<u8>, SpecError>(m),
{
    c.lemma_decode_inverts_encode(m);
}

/// Client-streaming call: gate readiness once, drain the caller's request
/// sequence into the transport one message at a time and in caller order
/// (backpressure suspends the drain inside each send; nothing is dropped),
/// then wait for the single response and decode it. A transport failure
/// stops the drain at that message; a malformed response frame aborts the
/// call with a serialization error.
pub fn dispatch_client_streaming<T: Transport, C: Codec>(
    t: &mut T,
    c: &C,
    path: &str,
    reqs: &Vec<Vec<u8>>,
) -> (r: Result<Vec<u8>, RpcError>)
    ensures
        !old(t).is_ready() ==> (r matches Err(e) && e@ == (SpecError::TransportUnavailable {
            diagnostic: old(t).ready_diagnostic(),
        }) && final(t).events() == old(t).events()),
        old(t).is_ready() ==> (r matches Err(e) ==> e@ is SerializationError || e@ is TransportFailure),
        old(t).is_ready() ==> match old(t).open_outcome(path@) {
            Err(s) => r matches Err(e) && e@ == (SpecError::TransportFailure { status: s })
                && final(t).events() == old(t).events(),
            Ok(u) => true,
        },
        r matches Err(e) && e@ is SerializationError ==> undecodable_reply(
            *c,
            old(t).events(),
            final(t).events(),
            byte_views(reqs@),
        ),
        outbound_wire_shape(*c, old(t).events(), final(t).events(), byte_views(reqs@)),
        r matches Ok(m) ==> (exists|b: Seq<u8>|
            #![auto]
            c.decode_spec(b) == Some(m@) && sent_all_then_reply(
                *c,
                old(t).events(),
                final(t).events(),
                byte_views(reqs@),
                b,
            )),
        r matches Err(e) && e@ is TransportFailure ==> outbound_is_sent_prefix(
            *c,
            old(t).events(),
            final(t).events(),
            byte_views(reqs@),
        ),
{
    match t.ready() {
        Err(diagnostic) => {
            proof {
                assert(sent_prefix(*c, old(t).events(), t.events(), byte_views(reqs@), 0)) by {
                    assert(old(t).events() + sent_events(*c, byte_views(reqs@).take(0)) =~= old(t).events());
                }
            }
            return Err(RpcError::TransportUnavailable { diagnostic });
        },
        Ok(u) => {},
    }
    match t.open_stream(path) {
        Err(st) => {
            proof {
                assert(sent_prefix(*c, old(t).events(), t.events(), byte_views(reqs@), 0)) by {
                    assert(old(t).events() + sent_events(*c, byte_views(reqs@).take(0)) =~= old(t).events());
                }
            }
            return Err(RpcError::from_status(st));
        },
        Ok(u) => {},
    }
    let mut i: usize = 0;
    proof {
        assert(old(t).events() + sent_events(*c, byte_views(reqs@).take(0)) =~= old(t).events());
    }
    while i < reqs.len()
        invariant
            i <= reqs@.len(),
            old(t).is_ready(),
            old(t).open_outcome(path@) is Ok,
            t.events() == old(t).events() + sent_events(*c, byte_views(reqs@).take(i as int)),
        decreases reqs@.len() - i,
    {
        let encoded = c.encode(&reqs[i]);
        match t.send(&encoded) {
            Ok(u) => {},
            Err(st) => {
                proof {
                    assert(sent_prefix(
                        *c,
                        old(t).events(),
                        t.events(),
                        byte_views(reqs@),
                        i as int,
                    ));
                }
                return Err(RpcError::from_status(st));
            },
        }
        i = i + 1;
        proof {
            assert(byte_views(reqs@).take(i as int) =~= byte_views(reqs@).take(i as int - 1).push(
                reqs@[i as int - 1]@,
            ));
            assert(sent_events(*c, byte_views(reqs@).take(i as int)) =~= sent_events(
                *c,
                byte_views(reqs@).take(i as int - 1),
            ).push(Event::Sent(c.encode_spec(reqs@[i as int - 1]@))));
            assert(t.events() =~= old(t).events() + sent_events(
                *c,
                byte_views(reqs@).take(i as int),
            ));
        }
    }
    proof {
        assert(byte_views(reqs@).take(reqs@.len() as int) =~= byte_views(reqs@));
    }
    match t.finish() {
        Ok(b) => {
            proof {
                assert(sent_all_then_reply(
                    *c,
                    old(t).events(),
                    t.events(),
                    byte_views(reqs@),
                    b@,
                )) by {
                    assert(t.events() =~= (old(t).events() + sent_events(
                        *c,
                        byte_views(reqs@),
                    )).push(Event::Received(b@)));
                }
            }
            match c.decode(&b) {
                Some(m) => Ok(m),
                None => Err(RpcError::SerializationError),
            }
        },
        Err(st) => {
            proof {
                assert(sent_prefix(
                    *c,
                    old(t).events(),
                    t.events(),
                    byte_views(reqs@),
                    reqs@.len() as int,
                ));
            }
            Err(RpcError::from_status(st))
        },
    }
}

/// Bidirectional call: gate readiness once, open the exchange, drain the
/// caller's request sequence in order, and hand back a fresh handle over the
/// inbound direction. In this model the outbound direction is drained before
/// the handle is returned; the inbound side is consumed lazily through the
/// handle and may be cancelled independently.
pub fn dispatch_bidirectional<T: Transport, C: Codec>(
    t: &mut T,
    c: C,
    path: &str,
    reqs: &Vec<Vec<u8>>,
) -> (r: Result<StreamHandle<C>, RpcError>)
    ensures
        !old(t).is_ready() ==> (r matches Err(e) && e@ == (SpecError::TransportUnavailable {
            diagnostic: old(t).ready_diagnostic(),
        }) && final(t).events() == old(t).events()),
        old(t).is_ready() ==> (r matches Err(e) ==> e@ is TransportFailure),
        old(t).is_ready() ==> match old(t).bidi_outcome(path@) {
            Err(s) => r matches Err(e) && e@ == (SpecError::TransportFailure { status: s })
                && final(t).events() == old(t).events(),
            Ok(script) => r matches Ok(h) ==> h.wf() && h.fresh() && h.codec_model() == c
                && h.model() == script && final(t).events() == old(t).events() + sent_events(
                c,
                byte_views(reqs@),
            ),
        },
        r is Ok ==> old(t).is_ready(),
        old(t).is_ready() && old(t).bidi_outcome(path@) is Ok && reqs@.len() == 0 ==> r is Ok,
        outbound_is_sent_prefix(c, old(t).events(), final(t).events(), byte_views(reqs@)),
{
    proof {
        assert(old(t).events() + sent_events(c, byte_views(reqs@).take(0)) =~= old(t).events());
    }
    match t.ready() {
        Err(diagnostic) => {
            proof {
                assert(sent_prefix(c, old(t).events(), t.events(), byte_views(reqs@), 0));
            }
            return Err(RpcError::TransportUnavailable { diagnostic });
        },
        Ok(u) => {},
    }
    let script = match t.open_bidi(path) {
        Ok(script) => script,
        Err(st) => {
            proof {
                assert(sent_prefix(c, old(t).events(), t.events(), byte_views(reqs@), 0));
            }
            return Err(RpcError::from_status(st));
        },
    };
    let mut i: usize = 0;
    while i < reqs.len()
        invariant
            i <= reqs@.len(),
            old(t).is_ready(),
            old(t).bidi_outcome(path@) is Ok,
            script@ == old(t).bidi_outcome(path@)->Ok_0,
            t.events() == old(t).events() + sent_events(c, byte_views(reqs@).take(i as int)),
        decreases reqs@.len() - i,
    {
        let encoded = c.encode(&reqs[i]);
        match t.send(&encoded) {
            Ok(u) => {},
            Err(st) => {
                proof {
                    assert(sent_prefix(c, old(t).events(), t.events(), byte_views(reqs@), i as int));
                }
                return Err(RpcError::from_status(st));
            },
        }
        i = i + 1;
        proof {
            assert(byte_views(reqs@).take(i as int) =~= byte_views(reqs@).take(i as int - 1).push(
                reqs@[i as int - 1]@,
            ));
            assert(sent_events(c, byte_views(reqs@).take(i as int)) =~= sent_events(
                c,
                byte_views(reqs@).take(i as int - 1),
            ).push(Event::Sent(c.encode_spec(reqs@[i as int - 1]@))));
            assert(t.events() =~= old(t).events() + sent_events(
                c,
                byte_views(reqs@).take(i as int),
            ));
        }
    }
    t.close_send();
    proof {
        assert(byte_views(reqs@).take(reqs@.len() as int) =~= byte_views(reqs@));
        assert(sent_prefix(
            c,
            old(t).events(),
            t.events(),
            byte_views(reqs@),
            reqs@.len() as int,
        ));
    }
    Ok(StreamHandle::new(c, script))
}

} // verus!
