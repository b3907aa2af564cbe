//! Stream handles: the lazy, non-restartable view of the inbound side of a
//! streaming call. Each pull decodes one transport message; a decode failure
//! or a transport failure terminates the stream at that point, and messages
//! already delivered remain valid. Once exhausted or cancelled, a handle
//! never yields again.

use vstd::prelude::*;
use crate::codec::Codec;
use crate::status::{RpcError, SpecError};
use crate::transport::{byte_views, EndModel, InboundScript, ScriptModel, StreamEnd};

verus! {

/// Whether every listed transport message is a well-formed frame for `c`.
pub open spec fn all_decode<C: Codec>(c: C, items: Seq<Seq<u8>>) -> bool {
    forall|i: int| 0 <= i < items.len() ==> c.decode_spec(items[i]) is Some
}

/// An open server-to-client stream: lazily decodes the inbound messages of
/// one call, in arrival order.
pub struct StreamHandle<C: Codec> {
    codec: C,
    script: InboundScript,
    cursor: usize,
    finished: bool,
    cancelled: bool,
    delivered: Ghost<Seq<Seq<u8>>>,
}

impl<C: Codec> StreamHandle<C> {
    /// The codec decoding this stream.
    pub closed spec fn codec_model(&self) -> C {
        self.codec
    }

    /// The inbound script this handle consumes.
    pub closed spec fn model(&self) -> ScriptModel {
        self.script@
    }

    /// The messages delivered to the caller so far, in order.
    pub closed spec fn delivered(&self) -> Seq<Seq<u8>> {
        self.delivered@
    }

    /// How many script entries have been consumed.
    pub closed spec fn pos(&self) -> int {
        self.cursor as int
    }

    /// Whether the stream has terminated: exhausted, failed, or cancelled.
    /// A terminated handle never yields another message.
    pub closed spec fn terminated(&self) -> bool {
        self.finished || self.cancelled
    }

    /// A handle that has not delivered anything yet.
    pub open spec fn fresh(&self) -> bool {
        self.pos() == 0 && !self.terminated() && self.delivered() == Seq::<Seq<u8>>::empty()
    }

    /// Well-formedness: the delivered messages are exactly the decodes of
    /// the consumed prefix of the script.
    pub closed spec fn wf(&self) -> bool {
        &&& self.cursor <= self.script@.items.len()
        &&& self.delivered@.len() == self.cursor
        &&& forall|i: int|
            0 <= i < self.cursor ==> self.codec.decode_spec(self.script@.items[i]) == Some(
                self.delivered@[i],
            )
    }

    /// Wraps the inbound side of a call. The handle starts fresh: nothing
    /// delivered, nothing consumed.
    pub fn new(codec: C, script: InboundScript) -> (r: StreamHandle<C>)
        ensures
            r.wf(),
            r.fresh(),
            r.codec_model() == codec,
            r.model() == script@,
    {
        StreamHandle {
            codec,
            script,
            cursor: 0,
            finished: false,
            cancelled: false,
            delivered: Ghost(Seq::empty()),
        }
    }

    /// Pulls the next message. `None` means the stream has ended — cleanly,
    /// or earlier by cancellation or a terminal error already reported.
    /// `Some(Err(..))` is the terminal event of a stream that fails: a
    /// malformed frame aborts the stream with a serialization error and no
    /// further frame is attempted; a transport failure after the last
    /// message surfaces its status. Messages already delivered stay valid.
    pub fn next(&mut self) -> (r: Option<Result<Vec<u8>, RpcError>>)
        requires
            old(self).wf(),
        ensures
            final(self).wf(),
            final(self).model() == old(self).model(),
            final(self).codec_model() == old(self).codec_model(),
            old(self).terminated() ==> r is None && *final(self) == *old(self),
            !old(self).terminated() && old(self).pos() < old(self).model().items.len() ==> match old(self).codec_model().decode_spec(old(self).model().items[old(self).pos()]) {
                Some(m) => r matches Some(Ok(msg)) && msg@ == m && final(self).delivered() == old(self).delivered().push(m) && final(self).pos() == old(self).pos() + 1 && !final(self).terminated(),
                None => r matches Some(Err(e)) && e@ == SpecError::SerializationError && final(self).delivered() == old(self).delivered() && final(self).terminated(),
            },
            !old(self).terminated() && old(self).pos() >= old(self).model().items.len() ==> final(self).delivered() == old(self).delivered() && final(self).terminated() && match old(self).model().end {
                EndModel::Eos => r is None,
                EndModel::Fail(s) => r matches Some(Err(e)) && e@ == (SpecError::TransportFailure {
                    status: s,
                }),
            },
    {
        if self.finished || self.cancelled {
            return None;
        }
        if self.cursor < self.script.items.len() {
            match self.codec.decode(&self.script.items[self.cursor]) {
                Some(msg) => {
                    proof {
                        self.delivered@ = self.delivered@.push(msg@);
                    }
                    self.cursor = self.cursor + 1;
                    Some(Ok(msg))
                },
                None => {
                    self.finished = true;
                    Some(Err(RpcError::SerializationError))
                },
            }
        } else {
            self.finished = true;
            match &self.script.end {
                StreamEnd::Eos => None,
                StreamEnd::Fail(s) => Some(Err(RpcError::from_status(s.duplicate()))),
            }
        }
    }

    /// Cancels the stream. Cancellation is local to this call: nothing
    /// further is delivered or consumed, and what was already delivered
    /// remains valid.
    pub fn cancel(&mut self)
        ensures
            old(self).wf() ==> final(self).wf(),
            final(self).terminated(),
            final(self).delivered() == old(self).delivered(),
            final(self).model() == old(self).model(),
            final(self).codec_model() == old(self).codec_model(),
            final(self).pos() == old(self).pos(),
    {
        self.cancelled = true;
    }

    /// Drains the stream: every remaining message in order, then the
    /// terminal error if the stream did not end cleanly. On a fresh handle
    /// over a script of well-formed frames, this yields exactly the script's
    /// messages, decoded, in arrival order, then `None` after a clean
    /// end-of-stream or the transport's own failure status; a malformed
    /// frame stops delivery right there with a serialization error.
    pub fn recv_all(&mut self) -> (r: (Vec<Vec<u8>>, Option<RpcError>))
        requires
            old(self).wf(),
        ensures
            final(self).wf(),
            final(self).terminated(),
            final(self).model() == old(self).model(),
            final(self).codec_model() == old(self).codec_model(),
            final(self).delivered() == old(self).delivered() + byte_views(r.0@),
            old(self).fresh() && all_decode(old(self).codec_model(), old(self).model().items)
                ==> byte_views(r.0@).len() == old(self).model().items.len() && (forall|i: int|
                0 <= i < old(self).model().items.len() ==> Some(byte_views(r.0@)[i]) == old(self).codec_model().decode_spec(old(self).model().items[i]))
                && match old(self).model().end {
                EndModel::Eos => r.1 is None,
                EndModel::Fail(s) => r.1 matches Some(e) && e@ == (SpecError::TransportFailure {
                    status: s,
                }),
            },
            forall|j: int|
                #![trigger old(self).codec_model().decode_spec(old(self).model().items[j])]
                old(self).fresh() && 0 <= j < old(self).model().items.len() && (forall|i: int|
                    0 <= i < j ==> old(self).codec_model().decode_spec(
                        old(self).model().items[i],
                    ) is Some) && old(self).codec_model().decode_spec(
                    old(self).model().items[j],
                ) is None ==> (byte_views(r.0@).len() == j && (forall|i: int|
                    0 <= i < j ==> Some(byte_views(r.0@)[i]) == old(self).codec_model().decode_spec(
                        old(self).model().items[i],
                    )) && (r.1 matches Some(e) && e@ is SerializationError)),
    {
        let mut out: Vec<Vec<u8>> = Vec::new();
        proof {
            assert(byte_views(out@) =~= Seq::<Seq<u8>>::empty());
        }
        loop
            invariant
                self.wf(),
                self.model() == old(self).model(),
                self.codec_model() == old(self).codec_model(),
                self.delivered() == old(self).delivered() + byte_views(out@),
                old(self).fresh() ==> out@.len() == self.pos(),
                old(self).fresh() ==> !self.terminated(),
            decreases self.model().items.len() - self.pos() + (if self.terminated() {
                0int
            } else {
                1int
            }),
        {
            let ghost pre = *self;
            match self.next() {
                Some(result) => match result {
                    Ok(msg) => {
                        out.push(msg);
                        proof {
                            assert(byte_views(out@) =~= byte_views(out@.drop_last()).push(
                                msg@,
                            ));
                            assert(self.delivered() =~= old(self).delivered() + byte_views(
                                out@,
                            ));
                        }
                    },
                    Err(e) => {
                        proof {
                            let items = old(self).model().items;
                            let cm = old(self).codec_model();
                            if old(self).fresh() {
                                assert(pre.delivered() =~= byte_views(out@));
                                assert forall|j: int|
                                    0 <= j < items.len() && (forall|i: int|
                                        0 <= i < j ==> cm.decode_spec(items[i]) is Some)
                                        && cm.decode_spec(items[j]) is None implies byte_views(
                                    out@,
                                ).len() == j && (forall|i: int|
                                    0 <= i < j ==> Some(byte_views(out@)[i]) == cm.decode_spec(
                                        items[i],
                                    )) && e@ is SerializationError by {
                                    if pre.pos() >= items.len() {
                                        assert(cm.decode_spec(items[j]) == Some(
                                            pre.delivered()[j],
                                        ));
                                    } else {
                                        if j < pre.pos() {
                                            assert(cm.decode_spec(items[j]) == Some(
                                                pre.delivered()[j],
                                            ));
                                        }
                                        assert(j == pre.pos());
                                    }
                                }
                                if all_decode(cm, items) {
                                    assert(pre.pos() >= items.len());
                                    assert(byte_views(out@).len() == items.len());
                                }
                            }
                        }
                        return (out, Some(e));
                    },
                },
                None => {
                    proof {
                        let items = old(self).model().items;
                        let cm = old(self).codec_model();
                        if old(self).fresh() {
                            assert(pre.delivered() =~= byte_views(out@));
                            assert(pre.pos() >= items.len());
                            assert forall|j: int|
                                0 <= j < items.len() implies cm.decode_spec(items[j]) is Some by {
                                assert(cm.decode_spec(items[j]) == Some(pre.delivered()[j]));
                            }
                        }
                    }
                    return (out, None);
                },
            }
        }
    }
}

} // verus!
