//! The benchmark message and its classification.

use crate::bytes_util::copy_bytes;
use vstd::bytes::{
    lemma_auto_spec_u32_to_from_le_bytes, lemma_auto_spec_u64_to_from_le_bytes,
    spec_u32_from_le_bytes, spec_u32_to_le_bytes, spec_u64_from_le_bytes, spec_u64_to_le_bytes,
};
use vstd::prelude::*;

verus! {

/// Declares bincode's error kind so that the codec wrappers can return it.
#[verifier::external_type_specification]
#[verifier::external_body]
pub struct ExBincodeErrorKind(bincode::ErrorKind);

/// Kind of a benchmark message; selects the communication pattern.
#[derive(Clone, Copy, Debug, PartialEq, Eq, Structural)]
pub enum MessageType {
    /// One-way message; no response is expected.
    OneWay,
    /// Request that expects a `Response`.
    Request,
    /// Reply to a `Request`.
    Response,
    /// Ping that expects a `Pong`.
    Ping,
    /// Reply to a `Ping`.
    Pong,
    /// Tells a standalone server to stop.
    Shutdown,
}

/// A message exchanged by every transport.
#[derive(Debug)]
pub struct Message {
    /// Identifier used to correlate requests and responses.
    pub id: u64,
    /// Send timestamp in nanoseconds.
    pub timestamp: u64,
    /// Opaque payload bytes.
    pub payload: Vec<u8>,
    /// Communication pattern of this message.
    pub message_type: MessageType,
    /// One-way latency measured by the receiver, in nanoseconds.
    pub one_way_latency_ns: u64,
}

/// The fields of a message as mathematical values.
#[verifier::ext_equal]
pub struct MessageView {
    /// Identifier.
    pub id: u64,
    /// Send timestamp in nanoseconds.
    pub timestamp: u64,
    /// Payload bytes.
    pub payload: Seq<u8>,
    /// Communication pattern.
    pub message_type: MessageType,
    /// One-way latency in nanoseconds.
    pub one_way_latency_ns: u64,
}

impl View for Message {
    type V = MessageView;

    open spec fn view(&self) -> MessageView {
        MessageView {
            id: self.id,
            timestamp: self.timestamp,
            payload: self.payload@,
            message_type: self.message_type,
            one_way_latency_ns: self.one_way_latency_ns,
        }
    }
}

/// Approximate size of a message in bytes: id, timestamp, payload and one
/// byte for the message type.
pub open spec fn spec_message_size(payload_len: nat) -> nat {
    8 + 8 + payload_len + 1
}

impl Message {
    /// Approximate message size: 8 bytes id + 8 bytes timestamp + payload
    /// length + 1 byte message type.
    pub fn size(&self) -> (n: usize)
        requires
            self.payload@.len() + 17 <= usize::MAX,
        ensures
            n == spec_message_size(self.payload@.len()),
    {
        8 + 8 + self.payload.len() + 1
    }
}

/// Numeric tag of a message type on the wire: its position in the
/// declaration of `MessageType`.
pub open spec fn spec_type_tag(t: MessageType) -> u32 {
    match t {
        MessageType::OneWay => 0,
        MessageType::Request => 1,
        MessageType::Response => 2,
        MessageType::Ping => 3,
        MessageType::Pong => 4,
        MessageType::Shutdown => 5,
    }
}

/// Message type named by a wire tag, if any.
pub open spec fn spec_type_from_tag(tag: u32) -> Option<MessageType> {
    if tag == 0 {
        Some(MessageType::OneWay)
    } else if tag == 1 {
        Some(MessageType::Request)
    } else if tag == 2 {
        Some(MessageType::Response)
    } else if tag == 3 {
        Some(MessageType::Ping)
    } else if tag == 4 {
        Some(MessageType::Pong)
    } else if tag == 5 {
        Some(MessageType::Shutdown)
    } else {
        None
    }
}

/// Wire tag of a message type.
pub fn type_tag(t: MessageType) -> (tag: u32)
    ensures
        tag == spec_type_tag(t),
        spec_type_from_tag(tag) == Some(t),
{
    match t {
        MessageType::OneWay => 0,
        MessageType::Request => 1,
        MessageType::Response => 2,
        MessageType::Ping => 3,
        MessageType::Pong => 4,
        MessageType::Shutdown => 5,
    }
}

/// Message type of a wire tag; `None` for a tag that names no type.
pub fn type_from_tag(tag: u32) -> (t: Option<MessageType>)
    ensures
        t == spec_type_from_tag(tag),
        t matches Some(ty) ==> spec_type_tag(ty) == tag,
{
    if tag == 0 {
        Some(MessageType::OneWay)
    } else if tag == 1 {
        Some(MessageType::Request)
    } else if tag == 2 {
        Some(MessageType::Response)
    } else if tag == 3 {
        Some(MessageType::Ping)
    } else if tag == 4 {
        Some(MessageType::Pong)
    } else if tag == 5 {
        Some(MessageType::Shutdown)
    } else {
        None
    }
}

/// Byte layout of a message's fields: little-endian fixed-width integers,
/// the payload preceded by its length as a `u64`, the type as a `u32` tag.
pub open spec fn spec_fields_encoding(
    id: u64,
    timestamp: u64,
    payload: Seq<u8>,
    tag: u32,
    one_way_latency_ns: u64,
) -> Seq<u8> {
    spec_u64_to_le_bytes(id) + spec_u64_to_le_bytes(timestamp) + spec_u64_to_le_bytes(
        payload.len() as u64,
    ) + payload + spec_u32_to_le_bytes(tag) + spec_u64_to_le_bytes(one_way_latency_ns)
}

/// The encoding of a whole message.
pub open spec fn spec_encode(m: &Message) -> Seq<u8> {
    spec_fields_encoding(
        m.id,
        m.timestamp,
        m.payload@,
        spec_type_tag(m.message_type),
        m.one_way_latency_ns,
    )
}

/// Payload length announced at bytes 16..24 of an encoded message.
pub open spec fn spec_len_field(b: Seq<u8>) -> int {
    spec_u64_from_le_bytes(b.subrange(16, 24)) as int
}

/// Whether `b` holds a complete field layout (trailing bytes are allowed).
pub open spec fn spec_fields_decodable(b: Seq<u8>) -> bool {
    b.len() >= 24 && 36 + spec_len_field(b) <= b.len()
}

/// The fields read from a decodable byte sequence.
pub open spec fn spec_decode_fields(b: Seq<u8>) -> (u64, u64, Seq<u8>, u32, u64) {
    let n = spec_len_field(b);
    (
        spec_u64_from_le_bytes(b.subrange(0, 8)),
        spec_u64_from_le_bytes(b.subrange(8, 16)),
        b.subrange(24, 24 + n),
        spec_u32_from_le_bytes(b.subrange(24 + n, 28 + n)),
        spec_u64_from_le_bytes(b.subrange(28 + n, 36 + n)),
    )
}

/// Encodes the five message fields with `bincode::serialize`, applied to the
/// tuple `(id, timestamp, payload, tag, one_way_latency_ns)`.
///
/// Claimed of bincode 1.3 (`serialize` uses fixed-width little-endian
/// integers, no size limit and writes into a `Vec`): a tuple is written as its
/// elements in order, a `Vec<u8>` as its length as a `u64` followed by its
/// bytes, so the result is `spec_fields_encoding`; with no size limit and an
/// in-memory writer the call does not fail.
#[verifier::external_body]
fn bincode_encode_fields(
    id: u64,
    timestamp: u64,
    payload: &Vec<u8>,
    tag: u32,
    one_way_latency_ns: u64,
) -> (r: Result<Vec<u8>, Box<bincode::ErrorKind>>)
    ensures
        r is Ok,
        r matches Ok(b) ==> b@ == spec_fields_encoding(
            id,
            timestamp,
            payload@,
            tag,
            one_way_latency_ns,
        ),
{
    bincode::serialize(&(id, timestamp, payload, tag, one_way_latency_ns))
}

/// Decodes the five message fields with `bincode::deserialize` as the tuple
/// type `(u64, u64, Vec<u8>, u32, u64)`.
///
/// Claimed of bincode 1.3 (fixed-width little-endian integers, no size limit,
/// trailing bytes allowed): the call succeeds exactly when the input holds the
/// three leading `u64`s, the announced payload bytes, a `u32` and a `u64`, and
/// then returns the values read from those positions.
#[verifier::external_body]
fn bincode_decode_fields(bytes: &[u8]) -> (r: Result<
    (u64, u64, Vec<u8>, u32, u64),
    Box<bincode::ErrorKind>,
>)
    ensures
        r is Ok <==> spec_fields_decodable(bytes@),
        r matches Ok(f) ==> {
            let d = spec_decode_fields(bytes@);
            &&& f.0 == d.0
            &&& f.1 == d.1
            &&& f.2@ == d.2
            &&& f.3 == d.3
            &&& f.4 == d.4
        },
{
    bincode::deserialize::<(u64, u64, Vec<u8>, u32, u64)>(bytes)
}

/// Current wall-clock time as nanoseconds since the Unix epoch, from
/// `time::OffsetDateTime::now_utc().unix_timestamp_nanos()` (truncated to 64
/// bits). Nothing is claimed of the value: it depends on the clock.
#[verifier::external_body]
fn wall_clock_ns() -> u64 {
    time::OffsetDateTime::now_utc().unix_timestamp_nanos() as u64
}

/// Decoding the field layout gives back the encoded fields; nothing after
/// the layout is read.
pub proof fn lemma_fields_roundtrip(
    id: u64,
    timestamp: u64,
    payload: Seq<u8>,
    tag: u32,
    one_way_latency_ns: u64,
    trailing: Seq<u8>,
)
    requires
        payload.len() <= u64::MAX,
    ensures
        ({
            let b = spec_fields_encoding(id, timestamp, payload, tag, one_way_latency_ns)
                + trailing;
            &&& spec_fields_decodable(b)
            &&& spec_decode_fields(b) == (id, timestamp, payload, tag, one_way_latency_ns)
        }),
{
    lemma_auto_spec_u64_to_from_le_bytes();
    lemma_auto_spec_u32_to_from_le_bytes();
    let n = payload.len() as int;
    let b = spec_fields_encoding(id, timestamp, payload, tag, one_way_latency_ns) + trailing;
    assert(b.subrange(0, 8) =~= spec_u64_to_le_bytes(id));
    assert(b.subrange(8, 16) =~= spec_u64_to_le_bytes(timestamp));
    assert(b.subrange(16, 24) =~= spec_u64_to_le_bytes(payload.len() as u64));
    assert(spec_len_field(b) == n);
    assert(b.subrange(24, 24 + n) =~= payload);
    assert(b.subrange(24 + n, 28 + n) =~= spec_u32_to_le_bytes(tag));
    assert(b.subrange(28 + n, 36 + n) =~= spec_u64_to_le_bytes(one_way_latency_ns));
}

/// One-way latency a receiver records: the clock difference for every
/// type but `Response`, whose stored value is kept.
pub open spec fn spec_one_way_after_receive(
    t: MessageType,
    timestamp: u64,
    stored: u64,
    receive_time_ns: u64,
) -> u64 {
    if t != MessageType::Response {
        if receive_time_ns >= timestamp {
            (receive_time_ns - timestamp) as u64
        } else {
            0
        }
    } else {
        stored
    }
}

/// What deserializing `b` gives: the message fields, or why it fails.
pub open spec fn spec_decode_message(b: Seq<u8>) -> Result<
    (u64, u64, Seq<u8>, MessageType, u64),
    CodecError,
> {
    if !spec_fields_decodable(b) {
        Err(CodecError::Malformed)
    } else {
        let d = spec_decode_fields(b);
        match spec_type_from_tag(d.3) {
            None => Err(CodecError::UnknownMessageType(d.3)),
            Some(t) => Ok((d.0, d.1, d.2, t, d.4)),
        }
    }
}

/// Why a byte sequence could not be turned into a message.
#[derive(Clone, Copy, Debug, PartialEq, Eq, Structural)]
pub enum CodecError {
    /// The bytes end before the field layout is complete.
    Malformed,
    /// The type tag names no message type.
    UnknownMessageType(u32),
}

/// Byte range of the timestamp inside an encoded message.
pub const TIMESTAMP_OFFSET_START: usize = 8;

/// End (exclusive) of the timestamp inside an encoded message.
pub const TIMESTAMP_OFFSET_END: usize = 16;

/// Overwrites the timestamp bytes (8..16) of an encoded message with `ts`,
/// when the buffer is long enough to hold them.
pub fn stamp_timestamp(bytes: &mut Vec<u8>, ts: u64)
    ensures
        old(bytes)@.len() >= 16 ==> final(bytes)@ == old(bytes)@.subrange(0, 8)
            + spec_u64_to_le_bytes(ts) + old(bytes)@.subrange(16, old(bytes)@.len() as int),
        old(bytes)@.len() < 16 ==> final(bytes)@ == old(bytes)@,
{
    if bytes.len() >= 16 {
        let ts_bytes = vstd::bytes::u64_to_le_bytes(ts);
        let ghost start = bytes@;
        let mut i: usize = 0;
        while i < 8
            invariant
                ts_bytes@ == spec_u64_to_le_bytes(ts),
                ts_bytes@.len() == 8,
                i <= 8,
                start.len() >= 16,
                bytes@.len() == start.len(),
                forall|k: int| 0 <= k < 8 ==> #[trigger] bytes@[k] == start[k],
                forall|k: int| 8 <= k < 8 + i ==> #[trigger] bytes@[k] == ts_bytes@[k - 8],
                forall|k: int| 8 + i <= k < start.len() ==> #[trigger] bytes@[k] == start[k],
            decreases 8 - i,
        {
            bytes[8 + i] = ts_bytes[i];
            i = i + 1;
        }
        assert(bytes@ =~= start.subrange(0, 8) + spec_u64_to_le_bytes(ts) + start.subrange(
            16,
            start.len() as int,
        ));
    }
}

/// Serializing a message and deserializing the bytes, with any bytes
/// appended, gives back a message with the same fields.
pub proof fn lemma_message_roundtrip(m: &Message, trailing: Seq<u8>)
    ensures
        spec_fields_decodable(spec_encode(m) + trailing),
        spec_decode_fields(spec_encode(m) + trailing) == (
            m.id,
            m.timestamp,
            m.payload@,
            spec_type_tag(m.message_type),
            m.one_way_latency_ns,
        ),
        spec_type_from_tag(spec_type_tag(m.message_type)) == Some(m.message_type),
{
    assert(m.payload.len() == m.payload@.len());
    lemma_fields_roundtrip(
        m.id,
        m.timestamp,
        m.payload@,
        spec_type_tag(m.message_type),
        m.one_way_latency_ns,
        trailing,
    );
}

/// Overwriting the timestamp bytes of an encoded message gives the encoding
/// of the same message with the new timestamp.
pub proof fn lemma_stamp_is_reencode(
    id: u64,
    timestamp: u64,
    payload: Seq<u8>,
    tag: u32,
    one_way_latency_ns: u64,
    ts: u64,
)
    ensures
        ({
            let b = spec_fields_encoding(id, timestamp, payload, tag, one_way_latency_ns);
            &&& b.len() >= 16
            &&& b.subrange(0, 8) + spec_u64_to_le_bytes(ts) + b.subrange(16, b.len() as int)
                == spec_fields_encoding(id, ts, payload, tag, one_way_latency_ns)
        }),
{
    lemma_auto_spec_u64_to_from_le_bytes();
    let b = spec_fields_encoding(id, timestamp, payload, tag, one_way_latency_ns);
    assert(b.subrange(0, 8) + spec_u64_to_le_bytes(ts) + b.subrange(16, b.len() as int)
        =~= spec_fields_encoding(id, ts, payload, tag, one_way_latency_ns));
}

impl Message {
    /// Builds a message with the given fields and a zero one-way latency.
    pub fn with_timestamp(id: u64, timestamp: u64, payload: Vec<u8>, message_type: MessageType) -> (m: Message)
        ensures
            m.id == id,
            m.timestamp == timestamp,
            m.payload@ == payload@,
            m.message_type == message_type,
            m.one_way_latency_ns == 0,
    {
        Message { id, timestamp, payload, message_type, one_way_latency_ns: 0 }
    }

    /// Creates a message stamped with the current wall-clock time.
    pub fn new(id: u64, payload: Vec<u8>, message_type: MessageType) -> (m: Message)
        ensures
            m.id == id,
            m.payload@ == payload@,
            m.message_type == message_type,
            m.one_way_latency_ns == 0,
    {
        let ts = wall_clock_ns();
        Message::with_timestamp(id, ts, payload, message_type)
    }

    /// A field-by-field copy of this message.
    pub fn duplicate(&self) -> (m: Message)
        ensures
            m.id == self.id,
            m.timestamp == self.timestamp,
            m.payload@ == self.payload@,
            m.message_type == self.message_type,
            m.one_way_latency_ns == self.one_way_latency_ns,
    {
        Message {
            id: self.id,
            timestamp: self.timestamp,
            payload: copy_bytes(self.payload.as_slice()),
            message_type: self.message_type,
            one_way_latency_ns: self.one_way_latency_ns,
        }
    }

    /// Applies the receiver's clock reading: every message except a
    /// `Response` gets `receive_time_ns - timestamp` (saturating at zero) as
    /// its one-way latency; a `Response` keeps the latency the server stored.
    pub fn record_receive_time(&mut self, receive_time_ns: u64)
        ensures
            final(self).id == old(self).id,
            final(self).timestamp == old(self).timestamp,
            final(self).payload@ == old(self).payload@,
            final(self).message_type == old(self).message_type,
            final(self).one_way_latency_ns == spec_one_way_after_receive(
                old(self).message_type,
                old(self).timestamp,
                old(self).one_way_latency_ns,
                receive_time_ns,
            ),
    {
        if self.message_type != MessageType::Response {
            self.one_way_latency_ns = receive_time_ns.saturating_sub(self.timestamp);
        }
    }

    /// Serializes the message in its binary wire layout.
    pub fn to_bytes(&self) -> (r: Result<Vec<u8>, CodecError>)
        ensures
            r is Ok,
            r matches Ok(b) ==> b@ == spec_encode(self),
    {
        let tag = type_tag(self.message_type);
        match bincode_encode_fields(
            self.id,
            self.timestamp,
            &self.payload,
            tag,
            self.one_way_latency_ns,
        ) {
            Ok(b) => Ok(b),
            Err(_) => Err(CodecError::Malformed),
        }
    }

    /// The wire layout of this message with `send_time_ns` as its timestamp.
    /// The message is encoded with a zero timestamp first and the timestamp
    /// bytes are overwritten last, so that the send time is taken as late as
    /// possible.
    pub fn encode_stamped(&self, send_time_ns: u64) -> (out: Vec<u8>)
        ensures
            out@ == spec_fields_encoding(
                self.id,
                send_time_ns,
                self.payload@,
                spec_type_tag(self.message_type),
                self.one_way_latency_ns,
            ),
    {
        let mut stamped = self.duplicate();
        stamped.timestamp = 0;
        let mut body = match stamped.to_bytes() {
            Ok(b) => b,
            Err(_) => Vec::new(),
        };
        proof {
            lemma_stamp_is_reencode(
                self.id,
                0,
                self.payload@,
                spec_type_tag(self.message_type),
                self.one_way_latency_ns,
                send_time_ns,
            );
        }
        stamp_timestamp(&mut body, send_time_ns);
        body
    }

    /// Deserializes a message from its binary wire layout; bytes after the
    /// layout are ignored.
    pub fn from_bytes(bytes: &[u8]) -> (r: Result<Message, CodecError>)
        ensures
            match spec_decode_message(bytes@) {
                Err(e) => r == Err::<Message, CodecError>(e),
                Ok(d) => r matches Ok(m) && m.id == d.0 && m.timestamp == d.1 && m.payload@
                    == d.2 && m.message_type == d.3 && m.one_way_latency_ns == d.4,
            },
    {
        match bincode_decode_fields(bytes) {
            Err(_) => Err(CodecError::Malformed),
            Ok(fields) => {
                let (id, timestamp, payload, tag, one_way_latency_ns) = fields;
                match type_from_tag(tag) {
                    None => Err(CodecError::UnknownMessageType(tag)),
                    Some(message_type) => Ok(
                        Message { id, timestamp, payload, message_type, one_way_latency_ns },
                    ),
                }
            },
        }
    }
}

} // verus!
