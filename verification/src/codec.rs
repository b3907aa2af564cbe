//! The pluggable message codec capability: encode a message to wire bytes,
//! decode wire bytes back to a message. Every codec carries a proof that
//! decoding inverts encoding, so a well-formed frame always round-trips.

use vstd::prelude::*;

verus! {

/// A message codec. Message values are byte payloads; a codec maps a payload
/// to the bytes that cross the wire and back. Implementations state their
/// behaviour through the two spec functions and must prove that `decode`
/// inverts `encode`.
pub trait Codec: Sized {
    /// The wire bytes this codec produces for a message.
    spec fn encode_spec(&self, message: Seq<u8>) -> Seq<u8>;

    /// The message this codec reads out of wire bytes, or `None` when the
    /// bytes are not a well-formed frame.
    spec fn decode_spec(&self, bytes: Seq<u8>) -> Option<Seq<u8>>;

    /// The codec law: decoding an encoded message yields the message back.
    proof fn lemma_decode_inverts_encode(&self, message: Seq<u8>)
        ensures
            self.decode_spec(self.encode_spec(message)) == Some(message),
    ;

    /// Encodes one message for the wire.
    fn encode(&self, message: &Vec<u8>) -> (r: Vec<u8>)
        ensures
            r@ == self.encode_spec(message@),
    ;

    /// Decodes one wire frame; `None` reports a malformed frame.
    fn decode(&self, bytes: &Vec<u8>) -> (r: Option<Vec<u8>>)
        ensures
            match r {
                Some(message) => self.decode_spec(bytes@) == Some(message@),
                None => self.decode_spec(bytes@) is None,
            },
    ;
}

/// The framing marker of [`FrameCodec`].
pub const FRAME_MARK: u8 = 0x2a;

/// A minimal concrete codec: a frame is the payload prefixed with one marker
/// byte. Decoding rejects an empty frame and a frame whose first byte is not
/// the marker. Deterministic test doubles and the crate's own tests plug it
/// into the dispatch operations.
#[derive(Clone, Copy)]
pub struct FrameCodec {
}

impl Codec for FrameCodec {
    open spec fn encode_spec(&self, message: Seq<u8>) -> Seq<u8> {
        seq![FRAME_MARK] + message
    }

    open spec fn decode_spec(&self, bytes: Seq<u8>) -> Option<Seq<u8>> {
        if bytes.len() >= 1 && bytes[0] == FRAME_MARK {
            Some(bytes.skip(1))
        } else {
            None
        }
    }

    proof fn lemma_decode_inverts_encode(&self, message: Seq<u8>)
    {
        assert(self.encode_spec(message).skip(1) =~= message);
    }

    fn encode(&self, message: &Vec<u8>) -> (r: Vec<u8>)
    {
        let mut r: Vec<u8> = Vec::new();
        r.push(FRAME_MARK);
        let mut i: usize = 0;
        while i < message.len()
            invariant
                i <= message@.len(),
                r@ == seq![FRAME_MARK] + message@.take(i as int),
            decreases message@.len() - i,
        {
            r.push(message[i]);
            i = i + 1;
            proof {
                assert(message@.take(i as int) =~= message@.take(i as int - 1).push(message@[i as int - 1]));
            }
        }
        proof {
            assert(message@.take(message@.len() as int) =~= message@);
        }
        r
    }

    fn decode(&self, bytes: &Vec<u8>) -> (r: Option<Vec<u8>>)
    {
        if bytes.len() == 0 || bytes[0] != FRAME_MARK {
            return None;
        }
        let mut r: Vec<u8> = Vec::new();
        let mut i: usize = 1;
        while i < bytes.len()
            invariant
                1 <= i <= bytes@.len(),
                bytes@.len() >= 1,
                r@ == bytes@.subrange(1, i as int),
            decreases bytes@.len() - i,
        {
            r.push(bytes[i]);
            i = i + 1;
            proof {
                assert(bytes@.subrange(1, i as int) =~= bytes@.subrange(1, i as int - 1).push(bytes@[i as int - 1]));
            }
        }
        proof {
            assert(bytes@.subrange(1, bytes@.len() as int) =~= bytes@.skip(1));
        }
        Some(r)
    }
}

} // verus!
