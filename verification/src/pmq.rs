//! State of the POSIX message queue transports: queue names, size limits,
//! which queues are open, the check applied before sending, and what
//! closing releases.

use crate::message::{spec_fields_encoding, spec_type_tag, Message};
use crate::metrics::{decimal_string, spec_decimal};
use crate::retry::TRANSFER_TIMEOUT_NS;
use crate::transport::{posix_name, spec_posix_name, IpcError, TransportConfig, TransportState};
use vstd::prelude::*;
use vstd::string::*;

verus! {

/// What closing a queue endpoint releases.
#[derive(Debug)]
pub struct QueueRelease {
    /// Close the descriptor of the queue this endpoint sends on.
    pub close_send: bool,
    /// Close the descriptor of the queue this endpoint receives from.
    pub close_receive: bool,
    /// Queues to unlink (request queue, then response queue): only the
    /// creator removes them.
    pub unlink: Option<(String, String)>,
}

/// The blocking queue transport: names, limits and priority of its queue
/// pair, and which queues it holds open.
#[derive(Debug)]
pub struct BlockingPosixMessageQueue {
    /// Base name, starting with `/`, once configured.
    pub queue_name_base: String,
    /// Largest message size accepted by the queues.
    pub max_msg_size: usize,
    /// Queue depth.
    pub max_msg_count: usize,
    /// Priority given to sent messages.
    pub priority: u32,
    /// Whether a queue to send on is open.
    pub send_open: bool,
    /// Whether a queue to receive from is open.
    pub receive_open: bool,
    /// Whether this endpoint created the queues (the server).
    pub is_creator: bool,
}

impl BlockingPosixMessageQueue {
    /// An unconfigured transport: no name, 8192-byte messages, depth 10,
    /// priority 0, no queue open.
    pub fn new() -> (s: BlockingPosixMessageQueue)
        ensures
            s.queue_name_base@.len() == 0,
            s.max_msg_size == 8192,
            s.max_msg_count == 10,
            s.priority == 0,
            !s.send_open,
            !s.receive_open,
            !s.is_creator,
    {
        BlockingPosixMessageQueue {
            queue_name_base: String::new(),
            max_msg_size: 8192,
            max_msg_count: 10,
            priority: 0,
            send_open: false,
            receive_open: false,
            is_creator: false,
        }
    }

    /// Records that both queues were opened: created by the server
    /// (`created`), or opened by the client.
    pub fn record_opened(&mut self, created: bool)
        ensures
            final(self).send_open,
            final(self).receive_open,
            final(self).is_creator == created,
            final(self).queue_name_base@ == old(self).queue_name_base@,
            final(self).max_msg_size == old(self).max_msg_size,
            final(self).max_msg_count == old(self).max_msg_count,
            final(self).priority == old(self).priority,
    {
        self.send_open = true;
        self.receive_open = true;
        self.is_creator = created;
    }

    /// Fails, as the sender does, when no queue to send on is open.
    pub fn require_send_queue(&self) -> (r: Result<(), IpcError>)
        ensures
            self.send_open ==> r is Ok,
            !self.send_open ==> (r matches Err(IpcError::Generic(s)) && s@
                == "Cannot send: message queue not initialized. Call start_server_blocking() or start_client_blocking() first."@),
    {
        if self.send_open {
            Ok(())
        } else {
            Err(
                IpcError::Generic(
                    String::from_str(
                        "Cannot send: message queue not initialized. Call start_server_blocking() or start_client_blocking() first.",
                    ),
                ),
            )
        }
    }

    /// Fails, as the receiver does, when no queue to receive from is open.
    pub fn require_receive_queue(&self) -> (r: Result<(), IpcError>)
        ensures
            self.receive_open ==> r is Ok,
            !self.receive_open ==> (r matches Err(IpcError::Generic(s)) && s@
                == "Cannot receive: message queue not initialized. Call start_server_blocking() or start_client_blocking() first."@),
    {
        if self.receive_open {
            Ok(())
        } else {
            Err(
                IpcError::Generic(
                    String::from_str(
                        "Cannot receive: message queue not initialized. Call start_server_blocking() or start_client_blocking() first.",
                    ),
                ),
            )
        }
    }

    /// Closes the open queues and, for the creator of a named pair, says to
    /// unlink both. Closing again is harmless: nothing is left to close,
    /// and the creator's unlink is repeated (and fails quietly).
    pub fn close_blocking(&mut self) -> (a: QueueRelease)
        ensures
            !final(self).send_open,
            !final(self).receive_open,
            final(self).is_creator == old(self).is_creator,
            final(self).queue_name_base@ == old(self).queue_name_base@,
            a.close_send == old(self).send_open,
            a.close_receive == old(self).receive_open,
            (old(self).is_creator && old(self).queue_name_base@.len() > 0) ==> (
            a.unlink matches Some((req, resp)) && req@ == old(self).queue_name_base@ + "_req"@
                && resp@ == old(self).queue_name_base@ + "_resp"@),
            !(old(self).is_creator && old(self).queue_name_base@.len() > 0) ==> a.unlink is None,
    {
        let unlink = if self.is_creator && self.queue_name_base.unicode_len() > 0 {
            Some((self.request_queue_name(), self.response_queue_name()))
        } else {
            None
        };
        let a = QueueRelease { close_send: self.send_open, close_receive: self.receive_open, unlink };
        self.send_open = false;
        self.receive_open = false;
        a
    }

    /// Takes the name (with a leading `/`) and priority from `config`, and
    /// its buffer size and queue depth where they are non-zero.
    pub fn configure(&mut self, config: &TransportConfig)
        ensures
            final(self).queue_name_base@ == spec_posix_name(config.message_queue_name@),
            final(self).priority == config.pmq_priority,
            final(self).max_msg_size == (if config.buffer_size > 0 {
                config.buffer_size
            } else {
                old(self).max_msg_size
            }),
            final(self).max_msg_count == (if config.message_queue_depth > 0 {
                config.message_queue_depth
            } else {
                old(self).max_msg_count
            }),
    {
        self.queue_name_base = posix_name(config.message_queue_name.as_str());
        self.priority = config.pmq_priority;
        if config.buffer_size > 0 {
            self.max_msg_size = config.buffer_size;
        }
        if config.message_queue_depth > 0 {
            self.max_msg_count = config.message_queue_depth;
        }
    }

    /// Name of the queue that carries requests (client to server).
    pub fn request_queue_name(&self) -> (n: String)
        ensures
            n@ == self.queue_name_base@ + "_req"@,
    {
        self.queue_name_base.clone().concat("_req")
    }

    /// Name of the queue that carries responses (server to client).
    pub fn response_queue_name(&self) -> (n: String)
        ensures
            n@ == self.queue_name_base@ + "_resp"@,
    {
        self.queue_name_base.clone().concat("_resp")
    }

    /// Refuses an encoded message larger than the queue's message size.
    pub fn check_message_size(&self, len: usize) -> (r: Result<(), IpcError>)
        ensures
            len <= self.max_msg_size ==> r is Ok,
            len > self.max_msg_size ==> (r matches Err(IpcError::Generic(s)) && s@
                == "Message size "@ + spec_decimal(len as nat) + " exceeds maximum "@
                + spec_decimal(self.max_msg_size as nat)),
    {
        if len > self.max_msg_size {
            let text = String::from_str("Message size ").concat(decimal_string(len as u64).as_str()).concat(
                " exceeds maximum ",
            ).concat(decimal_string(self.max_msg_size as u64).as_str());
            Err(IpcError::Generic(text))
        } else {
            Ok(())
        }
    }

    /// What the queue sender hands to `mq_send`: the message encoded with
    /// `send_time_ns` as its timestamp, refused when the encoding is larger
    /// than the queue's message size.
    pub fn encode_for_queue(&self, message: &Message, send_time_ns: u64) -> (r: Result<
        Vec<u8>,
        IpcError,
    >)
        ensures
            ({
                let body = spec_fields_encoding(
                    message.id,
                    send_time_ns,
                    message.payload@,
                    spec_type_tag(message.message_type),
                    message.one_way_latency_ns,
                );
                &&& body.len() <= self.max_msg_size ==> (r matches Ok(b) && b@ == body)
                &&& body.len() > self.max_msg_size ==> (r matches Err(IpcError::Generic(s))
                    && s@ == "Message size "@ + spec_decimal(body.len()) + " exceeds maximum "@
                    + spec_decimal(self.max_msg_size as nat))
            }),
    {
        let body = message.encode_stamped(send_time_ns);
        match self.check_message_size(body.len()) {
            Ok(()) => Ok(body),
            Err(e) => Err(e),
        }
    }
}

impl Default for BlockingPosixMessageQueue {
    /// Same as `BlockingPosixMessageQueue::new`.
    fn default() -> (s: BlockingPosixMessageQueue)
        ensures
            s.queue_name_base@.len() == 0,
            s.max_msg_size == 8192,
            s.max_msg_count == 10,
            s.priority == 0,
            !s.send_open,
            !s.receive_open,
            !s.is_creator,
    {
        BlockingPosixMessageQueue::new()
    }
}

/// The asynchronous queue transport's own state: its lifecycle, the queue
/// base name and limits, its role, and whether backpressure was reported.
#[derive(Debug)]
pub struct PosixMessageQueueTransport {
    /// Lifecycle state.
    pub state: TransportState,
    /// Base name, starting with `/`, once configured.
    pub queue_name: String,
    /// Largest message size of the queues.
    pub max_msg_size: usize,
    /// Queue depth.
    pub max_msg_count: usize,
    /// Whether this endpoint is the server.
    pub is_server: bool,
    /// Whether the queue-full warning was already given.
    pub has_warned_backpressure: bool,
    /// Priority given to sent messages (taken from the configuration).
    pub priority: u32,
    /// Whether both queues are open.
    pub queues_open: bool,
}

/// What the asynchronous sender does after one `mq_send` attempt.
#[derive(Clone, Copy, Debug, PartialEq, Eq, Structural)]
pub enum QueueSendStep {
    /// The message was enqueued; reports whether the queue was found full
    /// on an earlier attempt of this send.
    Sent(bool),
    /// The queue is full: wait until it is writable, at most this many
    /// nanoseconds, then try again; warn first when asked.
    WaitWritable { warn: bool, remaining_ns: u64 },
    /// The queue stayed full until the send deadline: fail with
    /// `IpcError::BackpressureTimeout`; warn first when asked.
    TimedOut { warn: bool },
}

impl PosixMessageQueueTransport {
    /// An unstarted transport: no name, 8192-byte messages, depth 10.
    pub fn new() -> (t: PosixMessageQueueTransport)
        ensures
            t.state == TransportState::Uninitialized,
            t.queue_name@.len() == 0,
            t.max_msg_size == 8192,
            t.max_msg_count == 10,
            !t.is_server,
            !t.has_warned_backpressure,
            t.priority == 0,
            !t.queues_open,
    {
        PosixMessageQueueTransport {
            state: TransportState::Uninitialized,
            queue_name: String::new(),
            max_msg_size: 8192,
            max_msg_count: 10,
            is_server: false,
            has_warned_backpressure: false,
            priority: 0,
            queues_open: false,
        }
    }

    /// Settings taken when starting as server or client: the name (with a
    /// leading `/`) and priority from `config`, its queue depth as given,
    /// and its buffer size but at least 1024 bytes as the message size.
    pub fn configure(&mut self, config: &TransportConfig, is_server: bool)
        ensures
            final(self).queue_name@ == spec_posix_name(config.message_queue_name@),
            final(self).priority == config.pmq_priority,
            final(self).max_msg_size == (if config.buffer_size >= 1024 {
                config.buffer_size
            } else {
                1024
            }),
            final(self).max_msg_count == config.message_queue_depth,
            final(self).is_server == is_server,
            final(self).state == old(self).state,
            final(self).has_warned_backpressure == old(self).has_warned_backpressure,
            final(self).queues_open == old(self).queues_open,
    {
        self.queue_name = posix_name(config.message_queue_name.as_str());
        self.priority = config.pmq_priority;
        self.max_msg_count = config.message_queue_depth;
        self.max_msg_size = if config.buffer_size >= 1024 {
            config.buffer_size
        } else {
            1024
        };
        self.is_server = is_server;
    }

    /// Called when a send finds the queue full: whether to warn now. The
    /// warning is given once per transport.
    pub fn note_queue_full(&mut self) -> (warn: bool)
        ensures
            warn == !old(self).has_warned_backpressure,
            final(self).has_warned_backpressure,
            final(self).state == old(self).state,
            final(self).is_server == old(self).is_server,
            final(self).queues_open == old(self).queues_open,
    {
        let warn = !self.has_warned_backpressure;
        self.has_warned_backpressure = true;
        warn
    }

    /// Records that both queues were opened: the transport is connected.
    pub fn record_connected(&mut self)
        ensures
            final(self).state == TransportState::Connected,
            final(self).queues_open,
            final(self).queue_name@ == old(self).queue_name@,
            final(self).max_msg_size == old(self).max_msg_size,
            final(self).max_msg_count == old(self).max_msg_count,
            final(self).is_server == old(self).is_server,
            final(self).priority == old(self).priority,
            final(self).has_warned_backpressure == old(self).has_warned_backpressure,
    {
        self.state = TransportState::Connected;
        self.queues_open = true;
    }

    /// Fails, as the sender does, when the queues were never opened.
    pub fn require_send_queue(&self) -> (r: Result<(), IpcError>)
        ensures
            self.queues_open ==> r is Ok,
            !self.queues_open ==> (r matches Err(IpcError::Generic(s)) && s@
                == "Send queue not initialized"@),
    {
        if self.queues_open {
            Ok(())
        } else {
            Err(IpcError::Generic(String::from_str("Send queue not initialized")))
        }
    }

    /// Fails, as the receiver does, when the queues were never opened.
    pub fn require_receive_queue(&self) -> (r: Result<(), IpcError>)
        ensures
            self.queues_open ==> r is Ok,
            !self.queues_open ==> (r matches Err(IpcError::Generic(s)) && s@
                == "Receive queue not initialized"@),
    {
        if self.queues_open {
            Ok(())
        } else {
            Err(IpcError::Generic(String::from_str("Receive queue not initialized")))
        }
    }

    /// One iteration of the sender after an `mq_send` attempt made
    /// `elapsed_ns` after the send began; `backpressure` records whether the
    /// queue was found full during this send. A full queue sets it, warns
    /// once per transport, and then either waits for the rest of the
    /// 5-second deadline or, once it has passed, times out.
    pub fn send_step(&mut self, backpressure: &mut bool, sent: bool, elapsed_ns: u64) -> (s: QueueSendStep)
        ensures
            final(self).state == old(self).state,
            final(self).queues_open == old(self).queues_open,
            final(self).is_server == old(self).is_server,
            sent ==> s == QueueSendStep::Sent(*old(backpressure)) && *final(backpressure) == *old(
                backpressure,
            ) && final(self).has_warned_backpressure == old(self).has_warned_backpressure,
            !sent ==> *final(backpressure) && final(self).has_warned_backpressure,
            !sent && elapsed_ns >= TRANSFER_TIMEOUT_NS ==> s == (QueueSendStep::TimedOut {
                warn: !old(self).has_warned_backpressure,
            }),
            !sent && elapsed_ns < TRANSFER_TIMEOUT_NS ==> s == (QueueSendStep::WaitWritable {
                warn: !old(self).has_warned_backpressure,
                remaining_ns: (TRANSFER_TIMEOUT_NS - elapsed_ns) as u64,
            }),
    {
        if sent {
            return QueueSendStep::Sent(*backpressure);
        }
        *backpressure = true;
        let warn = self.note_queue_full();
        if elapsed_ns >= TRANSFER_TIMEOUT_NS {
            QueueSendStep::TimedOut { warn }
        } else {
            QueueSendStep::WaitWritable { warn, remaining_ns: TRANSFER_TIMEOUT_NS - elapsed_ns }
        }
    }

    /// Closes the queues: both descriptors when they are open, and for the
    /// server of a named pair both queues are unlinked (request queue
    /// first). The transport is then disconnected.
    pub fn close(&mut self) -> (a: QueueRelease)
        ensures
            final(self).state == TransportState::Disconnected,
            !final(self).queues_open,
            final(self).queue_name@ == old(self).queue_name@,
            final(self).is_server == old(self).is_server,
            a.close_send == old(self).queues_open,
            a.close_receive == old(self).queues_open,
            (old(self).is_server && old(self).queue_name@.len() > 0) ==> (a.unlink matches Some(
                (req, resp),
            ) && req@ == old(self).queue_name@ + "_req"@ && resp@ == old(self).queue_name@
                + "_resp"@),
            !(old(self).is_server && old(self).queue_name@.len() > 0) ==> a.unlink is None,
    {
        let unlink = if self.is_server && self.queue_name.unicode_len() > 0 {
            Some((self.queue_name.clone().concat("_req"), self.queue_name.clone().concat("_resp")))
        } else {
            None
        };
        let a = QueueRelease {
            close_send: self.queues_open,
            close_receive: self.queues_open,
            unlink,
        };
        self.queues_open = false;
        self.state = TransportState::Disconnected;
        a
    }
}

} // verus!
