//! Adapter to the external STOMP codec.
//!
//! The session never parses or serializes STOMP itself: it hands complete
//! payload buffers to the codec's decode and outbound frames to its encode,
//! and reacts to the outcome. Both calls are deterministic — functions of
//! their arguments alone — so each result bears a name the session's
//! contracts speak of.

use vstd::prelude::*;

verus! {

/// The outcome of decoding the given bytes: a frame, "no complete frame
/// yet", or a parse error. What it is on given bytes only the codec knows.
pub uninterp spec fn stomp_decode_of(bytes: Seq<u8>) -> Result<
    Option<async_stomp::Message<async_stomp::FromServer>>,
    anyhow::Error,
>;

/// The serialized form of the given outbound frame.
pub uninterp spec fn stomp_encode_of(
    frame: async_stomp::Message<async_stomp::ToServer>,
) -> Seq<u8>;

/// Relies on async_stomp's `ClientCodec::decode` (through tokio_util's
/// `Decoder`): it parses one STOMP frame from the front of the buffer,
/// consuming the bytes it used. `Ok(Some)` carries the decoded message,
/// `Ok(None)` means the buffer holds no complete frame yet (an empty buffer
/// always answers so), and `Err` means the bytes cannot begin a STOMP frame.
/// The outcome depends on the buffer's bytes alone. The buffer keeps what
/// decode did not consume; decode never adds bytes.
#[verifier::external_body]
pub(crate) fn stomp_decode(buf: &mut Vec<u8>) -> (r: Result<
    Option<async_stomp::Message<async_stomp::FromServer>>,
    anyhow::Error,
>)
    ensures
        r == stomp_decode_of(old(buf)@),
        final(buf)@.len() <= old(buf)@.len(),
        old(buf)@.len() == 0 ==> (final(buf)@.len() == 0 && r matches Ok(None)),
{
    let mut codec = async_stomp::client::ClientCodec::new();
    let mut bytes = bytes::BytesMut::from(&buf[..]);
    let r = tokio_util::codec::Decoder::decode(&mut codec, &mut bytes);
    buf.clear();
    buf.extend_from_slice(&bytes);
    r
}

/// Relies on async_stomp's `ClientCodec::encode` (through tokio_util's
/// `Encoder`): it serializes the frame — a function of the frame alone —
/// and appends the resulting bytes to the buffer, never disturbing what the
/// buffer already holds. Its only code path returns `Ok`.
#[verifier::external_body]
pub(crate) fn stomp_encode(
    frame: async_stomp::Message<async_stomp::ToServer>,
    buf: &mut Vec<u8>,
) -> (r: Result<(), anyhow::Error>)
    ensures
        r is Ok,
        final(buf)@ == old(buf)@ + stomp_encode_of(frame),
{
    let mut codec = async_stomp::client::ClientCodec::new();
    let mut bytes = bytes::BytesMut::from(&buf[..]);
    let r = tokio_util::codec::Encoder::encode(&mut codec, frame, &mut bytes);
    buf.clear();
    buf.extend_from_slice(&bytes);
    r
}

} // verus!
