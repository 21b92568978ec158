//! Length-prefixed framing used by the stream transports (TCP and Unix
//! domain sockets): a 4-byte little-endian length, then the encoded message.

use crate::bytes_util::append_bytes;
use crate::message::{
    lemma_fields_roundtrip, spec_decode_message, spec_fields_encoding,
    spec_one_way_after_receive, spec_type_from_tag, spec_type_tag, CodecError, Message, MessageType,
};
use vstd::bytes::{spec_u32_from_le_bytes, spec_u32_to_le_bytes, lemma_auto_spec_u32_to_from_le_bytes};
use vstd::prelude::*;

verus! {

/// Largest frame body a Unix-domain-socket receiver accepts (16 MiB).
pub const UDS_MAX_MESSAGE_SIZE: usize = 16777216;

/// A frame: the body's length, truncated to 32 bits, in little-endian
/// order, followed by the body.
pub open spec fn spec_frame(body: Seq<u8>) -> Seq<u8> {
    spec_u32_to_le_bytes(body.len() as u32) + body
}

/// Builds the frame of `body`.
pub fn encode_frame(body: &[u8]) -> (out: Vec<u8>)
    ensures
        out@ == spec_frame(body@),
{
    let len = body.len() as u32;
    let mut out = vstd::bytes::u32_to_le_bytes(len);
    append_bytes(&mut out, body);
    out
}

/// Reads the body length announced by a 4-byte frame header.
pub fn frame_body_len(header: &[u8]) -> (n: u32)
    requires
        header@.len() == 4,
    ensures
        n == spec_u32_from_le_bytes(header@),
{
    vstd::bytes::u32_from_le_bytes(header)
}

/// Header decoding inverts header encoding.
pub proof fn lemma_frame_header_roundtrip(body: Seq<u8>)
    ensures
        spec_frame(body).len() == 4 + body.len(),
        spec_u32_from_le_bytes(spec_frame(body).subrange(0, 4)) == body.len() as u32,
        spec_frame(body).subrange(4, 4 + body.len() as int) == body,
{
    lemma_auto_spec_u32_to_from_le_bytes();
    assert(spec_frame(body).subrange(0, 4) =~= spec_u32_to_le_bytes(body.len() as u32));
    assert(spec_frame(body).subrange(4, 4 + body.len() as int) =~= body);
}

/// Why a stream frame was refused.
#[derive(Clone, Copy, Debug, PartialEq, Eq, Structural)]
pub enum FrameError {
    /// The announced body length is zero or above the receiver's limit.
    InvalidLength(u32),
}

/// The Unix-domain-socket receiver's check on an announced length: it
/// accepts `1..=UDS_MAX_MESSAGE_SIZE` bytes.
pub fn check_uds_frame_len(n: u32) -> (r: Result<usize, FrameError>)
    ensures
        (n == 0 || n > UDS_MAX_MESSAGE_SIZE) <==> r == Err::<usize, FrameError>(
            FrameError::InvalidLength(n),
        ),
        r matches Ok(len) ==> len == n,
{
    if n == 0 || n as usize > UDS_MAX_MESSAGE_SIZE {
        Err(FrameError::InvalidLength(n))
    } else {
        Ok(n as usize)
    }
}

/// Builds what a stream sender writes for `message`: the message is encoded
/// with `send_time_ns` as its timestamp and framed.
pub fn encode_message_frame(message: &Message, send_time_ns: u64) -> (out: Vec<u8>)
    ensures
        out@ == spec_frame(
            spec_fields_encoding(
                message.id,
                send_time_ns,
                message.payload@,
                spec_type_tag(message.message_type),
                message.one_way_latency_ns,
            ),
        ),
{
    let body = message.encode_stamped(send_time_ns);
    encode_frame(body.as_slice())
}

/// Turns a received frame body into a message and applies the receiver's
/// clock reading (see `Message::record_receive_time`).
pub fn decode_message_frame(body: &[u8], receive_time_ns: u64) -> (r: Result<Message, CodecError>)
    ensures
        ({
            let plain = spec_decode_message(body@);
            match plain {
                Err(e) => r == Err::<Message, CodecError>(e),
                Ok(p) => r matches Ok(m) && m.id == p.0 && m.timestamp == p.1 && m.payload@
                    == p.2 && m.message_type == p.3 && m.one_way_latency_ns
                    == spec_one_way_after_receive(p.3, p.1, p.4, receive_time_ns),
            }
        }),
{
    match Message::from_bytes(body) {
        Err(e) => Err(e),
        Ok(m) => {
            let mut m = m;
            m.record_receive_time(receive_time_ns);
            Ok(m)
        },
    }
}

/// A stream round trip: the receiver reads the body length from the frame
/// header, and decoding the body gives back the sent message with the send
/// time as its timestamp.
pub proof fn lemma_stream_roundtrip(message: &Message, send_time_ns: u64)
    requires
        36 + message.payload@.len() <= u32::MAX,
    ensures
        ({
            let body = spec_fields_encoding(
                message.id,
                send_time_ns,
                message.payload@,
                spec_type_tag(message.message_type),
                message.one_way_latency_ns,
            );
            let f = spec_frame(body);
            &&& spec_u32_from_le_bytes(f.subrange(0, 4)) == body.len()
            &&& f.subrange(4, f.len() as int) == body
            &&& spec_decode_message(body) == Ok::<(u64, u64, Seq<u8>, MessageType, u64), CodecError>(
                (
                    message.id,
                    send_time_ns,
                    message.payload@,
                    message.message_type,
                    message.one_way_latency_ns,
                ),
            )
        }),
{
    let body = spec_fields_encoding(
        message.id,
        send_time_ns,
        message.payload@,
        spec_type_tag(message.message_type),
        message.one_way_latency_ns,
    );
    lemma_frame_header_roundtrip(body);
    lemma_fields_roundtrip(
        message.id,
        send_time_ns,
        message.payload@,
        spec_type_tag(message.message_type),
        message.one_way_latency_ns,
        Seq::empty(),
    );
    assert(body + Seq::<u8>::empty() =~= body);
    assert(spec_frame(body).subrange(4, spec_frame(body).len() as int) =~= body);
    assert(spec_type_from_tag(spec_type_tag(message.message_type)) == Some(message.message_type))
        by {
        match message.message_type {
            MessageType::OneWay => {},
            MessageType::Request => {},
            MessageType::Response => {},
            MessageType::Ping => {},
            MessageType::Pong => {},
            MessageType::Shutdown => {},
        }
    }
    lemma_auto_spec_u32_to_from_le_bytes();
    vstd::bytes::lemma_auto_spec_u64_to_from_le_bytes();
    assert(body.len() == 36 + message.payload@.len());
}

} // verus!
