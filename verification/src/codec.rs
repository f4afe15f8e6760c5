//! Wire codec: frames a `Signal` over a byte stream with a one-byte length
//! prefix. A frame is `[N][payload]` where `N <= 255` is the payload length.
//! Decoding is resumable: until a full frame has arrived the buffer is left
//! untouched, and once one has, exactly `1 + N` bytes are consumed, leaving
//! any surplus for the next frame.

use vstd::prelude::*;
use bytes::BytesMut;
use crate::Signal;
use crate::buffer::buf_advance;
use crate::buffer::buf_byte;
use crate::buffer::buf_contents;
use crate::buffer::buf_extend;
use crate::buffer::buf_len;

verus! {

/// Why an encode or decode step failed.
#[derive(Clone, Copy, Debug, PartialEq, Eq, Structural)]
pub enum CodecError {
    /// The payload needs more than 255 bytes, so its length does not fit the
    /// one-byte prefix.
    FrameTooLarge,
    /// A complete frame arrived whose payload is not a valid `Signal`
    /// encoding; the stream is corrupt.
    Malformed,
}

/// The tag byte that stands for each `Signal` variant on the wire.
pub open spec fn signal_tag(s: Signal) -> u8 {
    match s {
        Signal::Query => 0u8,
        Signal::On => 1u8,
        Signal::Off => 2u8,
    }
}

/// The serialized payload of a `Signal`: its tag byte alone.
pub open spec fn signal_payload(s: Signal) -> Seq<u8> {
    seq![signal_tag(s)]
}

/// What a payload parses back to: `Some` exactly on the three one-byte tag
/// payloads, `None` on everything else.
pub open spec fn parse_signal(p: Seq<u8>) -> Option<Signal> {
    if p.len() == 1 {
        if p[0] == 0u8 {
            Some(Signal::Query)
        } else if p[0] == 1u8 {
            Some(Signal::On)
        } else if p[0] == 2u8 {
            Some(Signal::Off)
        } else {
            None
        }
    } else {
        None
    }
}

/// A payload wrapped into a frame: length byte, then the payload.
pub open spec fn frame_of(payload: Seq<u8>) -> Seq<u8>
    recommends
        payload.len() <= 255,
{
    seq![payload.len() as u8] + payload
}

/// The complete frame that carries a `Signal`.
pub open spec fn frame_bytes(s: Signal) -> Seq<u8> {
    frame_of(signal_payload(s))
}

/// Whether the buffer starts with a complete frame: a length byte and at
/// least that many payload bytes after it.
pub open spec fn have_full_frame(b: Seq<u8>) -> bool {
    b.len() >= 1 && b.len() >= 1 + b[0]
}

/// The payload of the frame at the front of the buffer.
pub open spec fn frame_payload_of(b: Seq<u8>) -> Seq<u8>
    recommends
        have_full_frame(b),
{
    b.subrange(1, 1 + b[0] as int)
}

/// Serialize a `Signal` into its payload bytes.
pub fn encode_signal_payload(s: &Signal) -> (r: Vec<u8>)
    ensures
        r@ == signal_payload(*s),
{
    let mut out: Vec<u8> = Vec::new();
    match s {
        Signal::Query => out.push(0u8),
        Signal::On => out.push(1u8),
        Signal::Off => out.push(2u8),
    }
    proof {
        assert(out@ =~= signal_payload(*s));
    }
    out
}

/// Parse payload bytes back into a `Signal`.
pub fn parse_signal_payload(p: &Vec<u8>) -> (r: Option<Signal>)
    ensures
        r == parse_signal(p@),
{
    if p.len() == 1 {
        let tag = p[0];
        if tag == 0u8 {
            Some(Signal::Query)
        } else if tag == 1u8 {
            Some(Signal::On)
        } else if tag == 2u8 {
            Some(Signal::Off)
        } else {
            None
        }
    } else {
        None
    }
}

/// Append one frame carrying `payload` to `dst`. A payload longer than 255
/// bytes cannot be framed: that is a construction-time error and `dst` is
/// left untouched.
pub fn append_frame(payload: &Vec<u8>, dst: &mut BytesMut) -> (r: Result<(), CodecError>)
    requires
        buf_contents(*old(dst)).len() + payload@.len() + 1 <= usize::MAX,
    ensures
        payload@.len() <= 255 ==> r == Ok::<(), CodecError>(())
            && buf_contents(*final(dst)) == buf_contents(*old(dst)) + frame_of(payload@),
        payload@.len() > 255 ==> r == Err::<(), CodecError>(CodecError::FrameTooLarge)
            && buf_contents(*final(dst)) == buf_contents(*old(dst)),
{
    if payload.len() > 255 {
        return Err(CodecError::FrameTooLarge);
    }
    let n: u8 = payload.len() as u8;
    let mut framed: Vec<u8> = Vec::new();
    framed.push(n);
    let mut i: usize = 0;
    while i < payload.len()
        invariant
            i <= payload@.len(),
            payload@.len() <= 255,
            n == payload@.len() as u8,
            framed@ == seq![n] + payload@.take(i as int),
        decreases payload@.len() - i,
    {
        framed.push(payload[i]);
        proof {
            assert(framed@ =~= seq![n] + payload@.take(i + 1));
        }
        i = i + 1;
    }
    proof {
        assert(payload@.take(payload@.len() as int) =~= payload@);
        assert(framed@ =~= frame_of(payload@));
    }
    buf_extend(dst, framed.as_slice());
    Ok(())
}

/// The framing codec for `Signal` values. It holds no state of its own: all
/// buffering lives in the byte buffer handed to `decode`.
#[derive(Clone, Copy, Debug, PartialEq, Eq, Structural)]
pub struct SignalCodec {}

impl SignalCodec {
    /// Append the frame that carries `item` to `dst`. A `Signal` payload is a
    /// single byte, so framing always succeeds.
    pub fn encode(&mut self, item: Signal, dst: &mut BytesMut) -> (r: Result<(), CodecError>)
        requires
            buf_contents(*old(dst)).len() + 2 <= usize::MAX,
        ensures
            r == Ok::<(), CodecError>(()),
            buf_contents(*final(dst)) == buf_contents(*old(dst)) + frame_bytes(item),
    {
        let payload = encode_signal_payload(&item);
        append_frame(&payload, dst)
    }

    /// Try to decode one frame from the front of `src`.
    ///
    /// Returns `Ok(None)` and leaves `src` untouched while no complete frame
    /// has arrived; returns `Ok(Some(signal))` and consumes exactly the
    /// frame's `1 + N` bytes once one has and its payload parses; returns
    /// `Err(Malformed)`, leaving `src` untouched, when a complete frame's
    /// payload is not a valid `Signal` — the stream is corrupt and must not
    /// be retried as "need more data".
    pub fn decode(&mut self, src: &mut BytesMut) -> (r: Result<Option<Signal>, CodecError>)
        ensures
            !have_full_frame(buf_contents(*old(src))) ==> r == Ok::<Option<Signal>, CodecError>(None)
                && buf_contents(*final(src)) == buf_contents(*old(src)),
            have_full_frame(buf_contents(*old(src))) ==> {
                let b = buf_contents(*old(src));
                match parse_signal(frame_payload_of(b)) {
                    Some(s) => r == Ok::<Option<Signal>, CodecError>(Some(s))
                        && buf_contents(*final(src)) == b.skip(1 + b[0] as int),
                    None => r == Err::<Option<Signal>, CodecError>(CodecError::Malformed)
                        && buf_contents(*final(src)) == b,
                }
            },
    {
        let len = buf_len(src);
        if len == 0 {
            return Ok(None);
        }
        let n = buf_byte(src, 0);
        if len - 1 < n as usize {
            return Ok(None);
        }
        let mut payload: Vec<u8> = Vec::new();
        let mut i: usize = 0;
        while i < n as usize
            invariant
                i <= n as usize,
                1 + n as usize <= buf_contents(*src).len(),
                n == buf_contents(*src)[0],
                payload@ == buf_contents(*src).subrange(1, 1 + i as int),
            decreases n as usize - i,
        {
            payload.push(buf_byte(src, 1 + i));
            proof {
                assert(payload@ =~= buf_contents(*src).subrange(1, 1 + (i + 1)));
            }
            i = i + 1;
        }
        proof {
            assert(payload@ =~= frame_payload_of(buf_contents(*src)));
        }
        match parse_signal_payload(&payload) {
            Some(s) => {
                buf_advance(src, 1 + n as usize);
                Ok(Some(s))
            },
            None => Err(CodecError::Malformed),
        }
    }
}

/// The payload of every `Signal` parses back to that same `Signal`.
pub proof fn lemma_signal_round_trip(s: Signal)
    ensures
        parse_signal(signal_payload(s)) == Some(s),
{
}

/// Round-trip through the framing: a buffer holding the frame of `s`
/// followed by any surplus starts with a complete frame, that frame decodes
/// to `s`, and consuming it leaves exactly the surplus.
pub proof fn lemma_frame_round_trip(s: Signal, rest: Seq<u8>)
    ensures
        have_full_frame(frame_bytes(s) + rest),
        parse_signal(frame_payload_of(frame_bytes(s) + rest)) == Some(s),
        (frame_bytes(s) + rest).skip(1 + (frame_bytes(s) + rest)[0] as int) == rest,
{
    let b = frame_bytes(s) + rest;
    assert(b[0] == 1u8);
    assert(b.subrange(1, 2) =~= signal_payload(s));
    assert(b.skip(2) =~= rest);
}

/// Resumability: no strict prefix of a frame is a complete frame, so a codec
/// fed the frame in pieces keeps answering "need more data" until the last
/// byte arrives.
pub proof fn lemma_incomplete_frame_waits(s: Signal, k: int)
    requires
        0 <= k < frame_bytes(s).len(),
    ensures
        !have_full_frame(frame_bytes(s).take(k)),
{
    if k >= 1 {
        assert(frame_bytes(s).take(k)[0] == 1u8);
    }
}

} // verus!
