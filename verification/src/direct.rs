//! Exchange protocol of the direct shared-memory transport.
//!
//! The segment holds one message slot per direction. A sender may fill its
//! outgoing slot only while the slot is empty; the receiver copies the
//! message out and empties the slot. No serialization is involved: the
//! slot carries the message fields themselves.

use crate::bytes_util::copy_bytes;
use crate::metrics::{decimal_string, spec_decimal};
use crate::message::{spec_one_way_after_receive, Message, MessageType, MessageView};
use vstd::prelude::*;
use vstd::string::*;

verus! {

/// Largest payload a slot holds (8 KiB).
pub const MAX_PAYLOAD_SIZE: usize = 8192;

/// One direction's message slot.
pub struct MessageSlot {
    /// Whether the slot holds a message that the receiver has not taken.
    pub ready: bool,
    /// Message identifier.
    pub id: u64,
    /// Timestamp written by the sender just before filling the slot.
    pub timestamp: u64,
    /// Message type.
    pub message_type: MessageType,
    /// One-way latency carried by the message.
    pub one_way_latency_ns: u64,
    /// Payload bytes.
    pub payload: Vec<u8>,
}

impl MessageSlot {
    /// An empty slot with every field zeroed.
    pub fn new() -> (s: MessageSlot)
        ensures
            !s.ready,
            s.id == 0,
            s.timestamp == 0,
            s.message_type == MessageType::OneWay,
            s.one_way_latency_ns == 0,
            s.payload@.len() == 0,
    {
        MessageSlot {
            ready: false,
            id: 0,
            timestamp: 0,
            message_type: MessageType::OneWay,
            one_way_latency_ns: 0,
            payload: Vec::new(),
        }
    }

    /// The slot never holds more than `MAX_PAYLOAD_SIZE` payload bytes.
    pub open spec fn wf(&self) -> bool {
        self.payload@.len() <= MAX_PAYLOAD_SIZE
    }
}

/// The content of a slot as mathematical values.
#[verifier::ext_equal]
pub struct SlotView {
    /// Whether an unread message is present.
    pub ready: bool,
    /// Message identifier.
    pub id: u64,
    /// Timestamp written by the sender.
    pub timestamp: u64,
    /// Message type.
    pub message_type: MessageType,
    /// One-way latency carried by the message.
    pub one_way_latency_ns: u64,
    /// Payload bytes.
    pub payload: Seq<u8>,
}

impl View for MessageSlot {
    type V = SlotView;

    open spec fn view(&self) -> SlotView {
        SlotView {
            ready: self.ready,
            id: self.id,
            timestamp: self.timestamp,
            message_type: self.message_type,
            one_way_latency_ns: self.one_way_latency_ns,
            payload: self.payload@,
        }
    }
}

/// Why a direct exchange step did not complete.
#[derive(Clone, Copy, Debug, PartialEq, Eq, Structural)]
pub enum DirectError {
    /// The outgoing slot still holds an unread message; the sender waits.
    SlotBusy,
    /// The incoming slot is empty; the receiver waits.
    NoMessage,
    /// The server has not yet seen the client attach; it waits.
    ClientNotReady,
    /// The payload is larger than a slot holds.
    PayloadTooLarge(usize),
}

impl DirectError {
    /// The error text the transport reports once it gives up in this state
    /// (after its wait has timed out, for the first three); the wait for a
    /// busy slot is worded differently on the cross-container path.
    pub fn message(&self, cross_container: bool) -> (s: String)
        ensures
            (*self == DirectError::SlotBusy && !cross_container) ==> s@
                == "Timeout waiting for receiver to consume previous message"@,
            (*self == DirectError::SlotBusy && cross_container) ==> s@
                == "Timeout waiting for receiver to consume message"@,
            *self == DirectError::NoMessage ==> s@ == "Timeout waiting for message"@,
            *self == DirectError::ClientNotReady ==> s@
                == "Timeout waiting for client to connect after 10s. Is the client process running?"@,
            self matches DirectError::PayloadTooLarge(n) ==> s@ == "Message payload size "@
                + spec_decimal(n as nat) + " exceeds MAX_PAYLOAD_SIZE "@ + spec_decimal(
                MAX_PAYLOAD_SIZE as nat,
            )
                + " for --shm-direct mode. Use -m shm without --shm-direct for larger messages, or reduce message size."@,
    {
        match self {
            DirectError::SlotBusy => {
                if cross_container {
                    String::from_str("Timeout waiting for receiver to consume message")
                } else {
                    String::from_str("Timeout waiting for receiver to consume previous message")
                }
            },
            DirectError::NoMessage => String::from_str("Timeout waiting for message"),
            DirectError::ClientNotReady => String::from_str(
                "Timeout waiting for client to connect after 10s. Is the client process running?",
            ),
            DirectError::PayloadTooLarge(n) => String::from_str("Message payload size ").concat(
                decimal_string(*n as u64).as_str(),
            ).concat(" exceeds MAX_PAYLOAD_SIZE ").concat(
                decimal_string(MAX_PAYLOAD_SIZE as u64).as_str(),
            ).concat(
                " for --shm-direct mode. Use -m shm without --shm-direct for larger messages, or reduce message size.",
            ),
        }
    }
}

/// The two slots of a direct segment and the client's attach flag.
pub struct DirectChannel {
    /// Slot written by the client and read by the server.
    pub client_to_server: MessageSlot,
    /// Slot written by the server and read by the client.
    pub server_to_client: MessageSlot,
    /// Set once the client has attached.
    pub client_ready: bool,
}

/// The content of a freshly initialized slot: empty, every field zero.
pub open spec fn spec_zeroed_slot() -> SlotView {
    SlotView {
        ready: false,
        id: 0,
        timestamp: 0,
        message_type: MessageType::OneWay,
        one_way_latency_ns: 0,
        payload: Seq::empty(),
    }
}

/// The content of a direct segment as mathematical values.
#[verifier::ext_equal]
pub struct ChannelView {
    /// Slot written by the client.
    pub client_to_server: SlotView,
    /// Slot written by the server.
    pub server_to_client: SlotView,
    /// Whether the client has attached.
    pub client_ready: bool,
}

impl View for DirectChannel {
    type V = ChannelView;

    open spec fn view(&self) -> ChannelView {
        ChannelView {
            client_to_server: self.client_to_server@,
            server_to_client: self.server_to_client@,
            client_ready: self.client_ready,
        }
    }
}

/// The slot a peer writes to.
pub open spec fn spec_outgoing(c: ChannelView, is_server: bool) -> SlotView {
    if is_server {
        c.server_to_client
    } else {
        c.client_to_server
    }
}

/// The slot a peer reads from: the one its peer writes to.
pub open spec fn spec_incoming(c: ChannelView, is_server: bool) -> SlotView {
    spec_outgoing(c, !is_server)
}

/// `c` with the slot that the peer `is_server` writes to replaced by `s`.
pub open spec fn spec_with_outgoing(c: ChannelView, is_server: bool, s: SlotView) -> ChannelView {
    if is_server {
        ChannelView { server_to_client: s, ..c }
    } else {
        ChannelView { client_to_server: s, ..c }
    }
}

/// The outcome of one send attempt: the new segment content and the result.
pub open spec fn spec_send(c: ChannelView, is_server: bool, m: MessageView, timestamp_ns: u64) -> (
    ChannelView,
    Result<(), DirectError>,
) {
    if spec_outgoing(c, is_server).ready {
        (c, Err(DirectError::SlotBusy))
    } else if m.payload.len() > MAX_PAYLOAD_SIZE {
        (c, Err(DirectError::PayloadTooLarge(m.payload.len() as usize)))
    } else {
        (
            spec_with_outgoing(
                c,
                is_server,
                SlotView {
                    ready: true,
                    id: m.id,
                    timestamp: timestamp_ns,
                    message_type: m.message_type,
                    one_way_latency_ns: m.one_way_latency_ns,
                    payload: m.payload,
                },
            ),
            Ok(()),
        )
    }
}

/// The message a receiver builds from a full slot.
pub open spec fn spec_taken(s: SlotView, receive_time_ns: u64) -> MessageView {
    MessageView {
        id: s.id,
        timestamp: s.timestamp,
        payload: s.payload,
        message_type: s.message_type,
        one_way_latency_ns: spec_one_way_after_receive(
            s.message_type,
            s.timestamp,
            s.one_way_latency_ns,
            receive_time_ns,
        ),
    }
}

/// The outcome of one receive attempt: the new segment content and the
/// message taken, or why none was.
pub open spec fn spec_receive(c: ChannelView, is_server: bool, receive_time_ns: u64) -> (
    ChannelView,
    Result<MessageView, DirectError>,
) {
    let s = spec_incoming(c, is_server);
    if is_server && !c.client_ready {
        (c, Err(DirectError::ClientNotReady))
    } else if !s.ready {
        (c, Err(DirectError::NoMessage))
    } else {
        (
            spec_with_outgoing(c, !is_server, SlotView { ready: false, ..s }),
            Ok(spec_taken(s, receive_time_ns)),
        )
    }
}

/// A receive result with the message taken by its view.
pub open spec fn spec_result_view(r: Result<Message, DirectError>) -> Result<
    MessageView,
    DirectError,
> {
    match r {
        Ok(m) => Ok(m@),
        Err(e) => Err(e),
    }
}

impl DirectChannel {
    /// A freshly initialized segment: both slots empty, client not attached.
    pub fn new() -> (c: DirectChannel)
        ensures
            c.wf(),
            !c@.client_to_server.ready,
            !c@.server_to_client.ready,
            !c@.client_ready,
            c@ == (ChannelView {
                client_to_server: spec_zeroed_slot(),
                server_to_client: spec_zeroed_slot(),
                client_ready: false,
            }),
    {
        let c = DirectChannel {
            client_to_server: MessageSlot::new(),
            server_to_client: MessageSlot::new(),
            client_ready: false,
        };
        assert(c@.client_to_server =~= spec_zeroed_slot());
        assert(c@.server_to_client =~= spec_zeroed_slot());
        c
    }

    /// Both slots respect the payload bound.
    pub open spec fn wf(&self) -> bool {
        self.client_to_server.wf() && self.server_to_client.wf()
    }

    /// The client announces that it has attached.
    pub fn mark_client_ready(&mut self)
        ensures
            final(self)@ == (ChannelView { client_ready: true, ..old(self)@ }),
            final(self).wf() == old(self).wf(),
    {
        self.client_ready = true;
    }

    /// One attempt to send: fills the sender's outgoing slot with `message`,
    /// stamped `timestamp_ns`, when the slot is empty and the payload fits
    /// (see `spec_send`).
    pub fn try_send(&mut self, is_server: bool, message: &Message, timestamp_ns: u64) -> (r: Result<(), DirectError>)
        requires
            old(self).wf(),
        ensures
            final(self).wf(),
            (final(self)@, r) == spec_send(old(self)@, is_server, message@, timestamp_ns),
            r is Ok ==> !spec_outgoing(old(self)@, is_server).ready && spec_outgoing(
                final(self)@,
                is_server,
            ).ready,
            spec_outgoing(old(self)@, is_server).ready ==> r is Err && final(self)@ == old(self)@,
            spec_incoming(final(self)@, is_server) == spec_incoming(old(self)@, is_server),
    {
        let busy = if is_server {
            self.server_to_client.ready
        } else {
            self.client_to_server.ready
        };
        if busy {
            return Err(DirectError::SlotBusy);
        }
        if message.payload.len() > MAX_PAYLOAD_SIZE {
            return Err(DirectError::PayloadTooLarge(message.payload.len()));
        }
        let filled = MessageSlot {
            ready: true,
            id: message.id,
            timestamp: timestamp_ns,
            message_type: message.message_type,
            one_way_latency_ns: message.one_way_latency_ns,
            payload: copy_bytes(message.payload.as_slice()),
        };
        if is_server {
            self.server_to_client = filled;
        } else {
            self.client_to_server = filled;
        }
        assert(self@ =~= spec_send(old(self)@, is_server, message@, timestamp_ns).0);
        Ok(())
    }

    /// One attempt to receive: takes the message from the receiver's
    /// incoming slot and empties it (see `spec_receive`). The one-way latency
    /// is the clock difference for every type but `Response`, whose stored
    /// value is kept.
    pub fn try_receive(&mut self, is_server: bool, receive_time_ns: u64) -> (r: Result<Message, DirectError>)
        requires
            old(self).wf(),
        ensures
            final(self).wf(),
            final(self)@ == spec_receive(old(self)@, is_server, receive_time_ns).0,
            spec_result_view(r) == spec_receive(old(self)@, is_server, receive_time_ns).1,
            r is Ok ==> spec_incoming(old(self)@, is_server).ready && !spec_incoming(
                final(self)@,
                is_server,
            ).ready,
            !spec_incoming(old(self)@, is_server).ready ==> r is Err && final(self)@ == old(self)@,
            (!is_server || old(self)@.client_ready) && !spec_incoming(old(self)@, is_server).ready
                ==> r == Err::<Message, DirectError>(DirectError::NoMessage),
            spec_outgoing(final(self)@, is_server) == spec_outgoing(old(self)@, is_server),
    {
        if is_server && !self.client_ready {
            return Err(DirectError::ClientNotReady);
        }
        let slot = if is_server {
            &mut self.client_to_server
        } else {
            &mut self.server_to_client
        };
        if !slot.ready {
            return Err(DirectError::NoMessage);
        }
        let mut m = Message {
            id: slot.id,
            timestamp: slot.timestamp,
            payload: copy_bytes(slot.payload.as_slice()),
            message_type: slot.message_type,
            one_way_latency_ns: slot.one_way_latency_ns,
        };
        m.record_receive_time(receive_time_ns);
        slot.ready = false;
        proof {
            let c0 = old(self)@;
            assert(self@ =~= spec_receive(c0, is_server, receive_time_ns).0);
            assert(m@ =~= spec_taken(spec_incoming(c0, is_server), receive_time_ns));
        }
        Ok(m)
    }
}

/// A receive by either side succeeds only from a full incoming slot and
/// empties it, so the same message is never taken twice; from an empty
/// slot it fails and changes nothing (with `NoMessage` once a server's
/// client has attached, and always for the client).
pub proof fn lemma_receive_needs_ready(c: ChannelView, is_server: bool, t1: u64, t2: u64)
    ensures
        spec_receive(c, is_server, t1).1 is Ok ==> spec_incoming(c, is_server).ready,
        !spec_incoming(c, is_server).ready ==> spec_receive(c, is_server, t1).0 == c
            && spec_receive(c, is_server, t1).1 is Err,
        (!is_server || c.client_ready) && !spec_incoming(c, is_server).ready ==> spec_receive(
            c,
            is_server,
            t1,
        ).1 == Err::<MessageView, DirectError>(DirectError::NoMessage),
        spec_receive(c, is_server, t1).1 is Ok ==> spec_receive(
            spec_receive(c, is_server, t1).0,
            is_server,
            t2,
        ).1 == Err::<MessageView, DirectError>(DirectError::NoMessage),
{
}

/// A send into an empty slot followed by a receive by the peer delivers the
/// message unchanged, stamped with the send time, and empties the slot
/// again; the other direction's slot and the attach flag are untouched.
/// (A server receives only after the client has attached.)
pub proof fn lemma_direct_delivery(
    c: ChannelView,
    sender_is_server: bool,
    m: MessageView,
    timestamp_ns: u64,
    receive_time_ns: u64,
)
    requires
        !spec_outgoing(c, sender_is_server).ready,
        m.payload.len() <= MAX_PAYLOAD_SIZE,
        !sender_is_server ==> c.client_ready,
    ensures
        ({
            let (c1, r1) = spec_send(c, sender_is_server, m, timestamp_ns);
            let (c2, r2) = spec_receive(c1, !sender_is_server, receive_time_ns);
            &&& r1 == Ok::<(), DirectError>(())
            &&& r2 == Ok::<MessageView, DirectError>(
                MessageView {
                    id: m.id,
                    timestamp: timestamp_ns,
                    payload: m.payload,
                    message_type: m.message_type,
                    one_way_latency_ns: spec_one_way_after_receive(
                        m.message_type,
                        timestamp_ns,
                        m.one_way_latency_ns,
                        receive_time_ns,
                    ),
                },
            )
            &&& !spec_outgoing(c2, sender_is_server).ready
            &&& spec_incoming(c2, sender_is_server) == spec_incoming(c, sender_is_server)
            &&& c2.client_ready == c.client_ready
        }),
{
}

/// Backpressure: while a sent message has not been taken, a further send in
/// the same direction is refused with `SlotBusy` and changes nothing, and
/// sends in the other direction are unaffected by it.
pub proof fn lemma_direct_backpressure(
    c: ChannelView,
    sender_is_server: bool,
    m1: MessageView,
    ts1: u64,
    m2: MessageView,
    ts2: u64,
)
    requires
        !spec_outgoing(c, sender_is_server).ready,
        m1.payload.len() <= MAX_PAYLOAD_SIZE,
    ensures
        ({
            let c1 = spec_send(c, sender_is_server, m1, ts1).0;
            &&& spec_send(c1, sender_is_server, m2, ts2) == (
                c1,
                Err::<(), DirectError>(DirectError::SlotBusy),
            )
            &&& spec_outgoing(c1, !sender_is_server) == spec_outgoing(c, !sender_is_server)
        }),
{
}

} // verus!
