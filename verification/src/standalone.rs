//! Decisions of the standalone server and client: the server's reply to
//! each message, which latencies are kept, how they are written out, and how
//! the endpoint configuration is assembled from command-line overrides.

use crate::message::{Message, MessageType};
use crate::metrics::{decimal_string, spec_decimal};
use crate::transport::{IpcMechanism, TransportConfig};
use vstd::prelude::*;
use vstd::string::*;

verus! {

/// Identifier of warmup ("canary") messages, whose latencies are not kept.
pub const CANARY_ID: u64 = 0xffff_ffff_ffff_ffff;

/// The server's reply: a `Response` to a `Request` and a `Pong` to a `Ping`,
/// each with the request's id and an empty payload; nothing otherwise.
pub fn dispatch_server_message(msg: &Message) -> (r: Option<Message>)
    ensures
        msg.message_type == MessageType::Request ==> (r matches Some(m) && m.id == msg.id
            && m.payload@.len() == 0 && m.message_type == MessageType::Response
            && m.one_way_latency_ns == 0),
        msg.message_type == MessageType::Ping ==> (r matches Some(m) && m.id == msg.id
            && m.payload@.len() == 0 && m.message_type == MessageType::Pong
            && m.one_way_latency_ns == 0),
        msg.message_type != MessageType::Request && msg.message_type != MessageType::Ping
            ==> r is None,
{
    match msg.message_type {
        MessageType::Request => Some(Message::new(msg.id, Vec::new(), MessageType::Response)),
        MessageType::Ping => Some(Message::new(msg.id, Vec::new(), MessageType::Pong)),
        _ => None,
    }
}

/// Whether a latency is kept for the latency file: only when the file is
/// enabled and the message is not a canary.
pub fn should_buffer_latency(latency_file_enabled: bool, message_id: u64) -> (b: bool)
    ensures
        b == (latency_file_enabled && message_id != CANARY_ID),
{
    latency_file_enabled && message_id != CANARY_ID
}

/// One line of the latency file: `wall_send_ns,latency_ns` and a newline.
pub open spec fn spec_latency_line(wall_send_ns: u64, latency_ns: u64) -> Seq<char> {
    spec_decimal(wall_send_ns as nat) + ","@ + spec_decimal(latency_ns as nat) + "\n"@
}

/// The latency file's contents: one line per entry, in order.
pub open spec fn spec_latency_file(entries: Seq<(u64, u64)>) -> Seq<char>
    decreases entries.len(),
{
    if entries.len() == 0 {
        Seq::empty()
    } else {
        spec_latency_file(entries.drop_last()) + spec_latency_line(
            entries.last().0,
            entries.last().1,
        )
    }
}

/// Text of the latency file for the buffered `(wall_send_ns, latency_ns)`
/// pairs.
pub fn format_latency_buffer(entries: &[(u64, u64)]) -> (s: String)
    ensures
        s@ == spec_latency_file(entries@),
{
    let mut s = String::new();
    let mut i: usize = 0;
    while i < entries.len()
        invariant
            i <= entries@.len(),
            s@ == spec_latency_file(entries@.subrange(0, i as int)),
        decreases entries@.len() - i,
    {
        let (wall, lat) = entries[i];
        let w = decimal_string(wall);
        let l = decimal_string(lat);
        s.append(w.as_str());
        s.append(",");
        s.append(l.as_str());
        s.append("\n");
        proof {
            assert(entries@.subrange(0, i as int + 1).drop_last() =~= entries@.subrange(
                0,
                i as int,
            ));
        }
        i = i + 1;
    }
    assert(entries@.subrange(0, entries@.len() as int) =~= entries@);
    s
}

/// What the standalone server does with one received message.
#[derive(Debug)]
pub struct ServerAction {
    /// Stop serving (a `Shutdown` was received).
    pub stop: bool,
    /// One-way latency to record, for non-canary `OneWay` messages.
    pub one_way_latency_ns: Option<u64>,
    /// Reply to send.
    pub response: Option<Message>,
}

/// The standalone server's decision for a message received at
/// `receive_time_ns`: stop on `Shutdown`; record the clock difference
/// (saturating) for a non-canary `OneWay`; reply as
/// `dispatch_server_message` says.
pub fn server_step(msg: &Message, receive_time_ns: u64) -> (a: ServerAction)
    ensures
        a.stop == (msg.message_type == MessageType::Shutdown),
        a.stop ==> a.one_way_latency_ns is None && a.response is None,
        !a.stop ==> (a.one_way_latency_ns is Some <==> (msg.message_type == MessageType::OneWay
            && msg.id != CANARY_ID)),
        a.one_way_latency_ns matches Some(v) ==> v == (if receive_time_ns >= msg.timestamp {
            receive_time_ns - msg.timestamp
        } else {
            0
        }),
        !a.stop ==> (a.response is Some <==> (msg.message_type == MessageType::Request
            || msg.message_type == MessageType::Ping)),
        a.response matches Some(m) ==> m.id == msg.id && m.payload@.len() == 0 && (
        msg.message_type == MessageType::Request ==> m.message_type == MessageType::Response)
            && (msg.message_type == MessageType::Ping ==> m.message_type == MessageType::Pong),
{
    if msg.message_type == MessageType::Shutdown {
        return ServerAction { stop: true, one_way_latency_ns: None, response: None };
    }
    let one_way_latency_ns = if msg.message_type == MessageType::OneWay && msg.id != CANARY_ID {
        Some(receive_time_ns.saturating_sub(msg.timestamp))
    } else {
        None
    };
    ServerAction { stop: false, one_way_latency_ns, response: dispatch_server_message(msg) }
}

/// Type of the client's warmup messages: `Request` when round trips are
/// measured, `OneWay` otherwise.
pub fn warmup_message_type(round_trip: bool) -> (t: MessageType)
    ensures
        round_trip ==> t == MessageType::Request,
        !round_trip ==> t == MessageType::OneWay,
{
    if round_trip {
        MessageType::Request
    } else {
        MessageType::OneWay
    }
}

/// How long a client measurement runs: for a time, or for a number of
/// messages.
#[derive(Clone, Copy, Debug, PartialEq, Eq, Structural)]
pub enum TestLimit {
    /// Keep sending while less than this many nanoseconds have elapsed.
    DurationNs(u64),
    /// Send exactly this many messages.
    Count(u64),
}

/// Whether the client sends another message, having sent `sent` messages
/// `elapsed_ns` nanoseconds after the measurement began.
pub fn test_continues(limit: TestLimit, sent: u64, elapsed_ns: u64) -> (b: bool)
    ensures
        limit matches TestLimit::DurationNs(d) ==> b == (elapsed_ns < d),
        limit matches TestLimit::Count(n) ==> b == (sent < n),
{
    match limit {
        TestLimit::DurationNs(d) => elapsed_ns < d,
        TestLimit::Count(n) => sent < n,
    }
}

/// Endpoint options given on the command line of a standalone run.
#[derive(Debug)]
pub struct EndpointOverrides {
    /// TCP host.
    pub host: String,
    /// TCP port.
    pub port: u16,
    /// POSIX message queue priority.
    pub pmq_priority: u32,
    /// Unix socket path, if given.
    pub socket_path: Option<String>,
    /// Shared memory segment name, if given.
    pub shared_memory_name: Option<String>,
    /// Message queue name, if given.
    pub message_queue_name: Option<String>,
    /// Buffer size, if given.
    pub buffer_size: Option<usize>,
}

/// `s` when given, the default otherwise.
fn string_or(s: &Option<String>, default: String) -> (r: String)
    ensures
        s matches Some(v) ==> r@ == v@,
        s is None ==> r@ == default@,
{
    match s {
        Some(v) => v.clone(),
        None => default,
    }
}

/// The standalone transport configuration: host, port and priority from
/// the options; socket path, segment name, queue name and buffer size from
/// the options when given and from the defaults otherwise; everything else
/// from the defaults.
pub fn build_standalone_transport_config(args: &EndpointOverrides) -> (c: TransportConfig)
    ensures
        c.host@ == args.host@,
        c.port == args.port,
        c.pmq_priority == args.pmq_priority,
        args.socket_path matches Some(v) ==> c.socket_path@ == v@,
        args.socket_path is None ==> c.socket_path@ == "/tmp/ipc_benchmark.sock"@,
        args.shared_memory_name matches Some(v) ==> c.shared_memory_name@ == v@,
        args.shared_memory_name is None ==> c.shared_memory_name@ == "ipc_benchmark_shm"@,
        args.message_queue_name matches Some(v) ==> c.message_queue_name@ == v@,
        args.message_queue_name is None ==> c.message_queue_name@ == "ipc_benchmark_pmq"@,
        args.buffer_size matches Some(v) ==> c.buffer_size == v,
        args.buffer_size is None ==> c.buffer_size == 8192,
        c.max_connections == 16,
        c.message_queue_depth == 10,
{
    let defaults = TransportConfig::default();
    TransportConfig {
        host: args.host.clone(),
        port: args.port,
        pmq_priority: args.pmq_priority,
        socket_path: string_or(&args.socket_path, defaults.socket_path),
        shared_memory_name: string_or(&args.shared_memory_name, defaults.shared_memory_name),
        message_queue_name: string_or(&args.message_queue_name, defaults.message_queue_name),
        buffer_size: match args.buffer_size {
            Some(b) => b,
            None => defaults.buffer_size,
        },
        max_connections: defaults.max_connections,
        message_queue_depth: defaults.message_queue_depth,
    }
}

/// The endpoint the server of an internal run listens on: `base` with the
/// command-line endpoint of `mechanism` taken over (the socket path, the TCP
/// host and port, the segment name or the queue name, each when given; host
/// and port always). Every other field, and every field for `All`, stays.
pub fn apply_server_overrides(mechanism: IpcMechanism, base: TransportConfig, o: &EndpointOverrides) -> (c: TransportConfig)
    ensures
        c.buffer_size == base.buffer_size,
        c.max_connections == base.max_connections,
        c.message_queue_depth == base.message_queue_depth,
        c.pmq_priority == base.pmq_priority,
        c.socket_path@ == (if mechanism == IpcMechanism::UnixDomainSocket && o.socket_path is Some {
            o.socket_path.unwrap()@
        } else {
            base.socket_path@
        }),
        c.host@ == (if mechanism == IpcMechanism::TcpSocket {
            o.host@
        } else {
            base.host@
        }),
        c.port == (if mechanism == IpcMechanism::TcpSocket {
            o.port
        } else {
            base.port
        }),
        c.shared_memory_name@ == (if mechanism == IpcMechanism::SharedMemory
            && o.shared_memory_name is Some {
            o.shared_memory_name.unwrap()@
        } else {
            base.shared_memory_name@
        }),
        c.message_queue_name@ == (if mechanism == IpcMechanism::PosixMessageQueue
            && o.message_queue_name is Some {
            o.message_queue_name.unwrap()@
        } else {
            base.message_queue_name@
        }),
{
    let mut c = base;
    match mechanism {
        IpcMechanism::UnixDomainSocket => {
            match &o.socket_path {
                Some(p) => c.socket_path = p.clone(),
                None => {},
            }
        },
        IpcMechanism::TcpSocket => {
            c.host = o.host.clone();
            c.port = o.port;
        },
        IpcMechanism::SharedMemory => {
            match &o.shared_memory_name {
                Some(n) => c.shared_memory_name = n.clone(),
                None => {},
            }
        },
        IpcMechanism::PosixMessageQueue => {
            match &o.message_queue_name {
                Some(n) => c.message_queue_name = n.clone(),
                None => {},
            }
        },
        IpcMechanism::All => {},
    }
    c
}

/// What the server of an internal run does with one received message.
#[derive(Debug)]
pub struct InternalServerAction {
    /// Stop serving (a `Shutdown` was received).
    pub stop: bool,
    /// Latency of the message: receive time minus send timestamp, at least 0.
    pub latency_ns: u64,
    /// Entry for the latency file, `(wall-clock send time, latency)`, when
    /// one is kept.
    pub buffered: Option<(u64, u64)>,
    /// Reply to send.
    pub response: Option<Message>,
}

/// The internal server's decision for a message received at the monotonic
/// time `receive_time_ns` and the wall-clock time `wall_now_ns`: the
/// latency is the clock difference (saturating); when latencies are kept
/// and the message is no canary, it is buffered with the wall-clock send
/// time `wall_now_ns - latency` (saturating), whatever the message's type.
/// The blocking server (`stop_on_shutdown`) stops on a `Shutdown`; the
/// asynchronous server keeps serving and stops only when its transport
/// fails. Otherwise the reply is that of `dispatch_server_message`.
pub fn internal_server_step(
    msg: &Message,
    receive_time_ns: u64,
    wall_now_ns: u64,
    keep: bool,
    stop_on_shutdown: bool,
) -> (a: InternalServerAction)
    ensures
        a.latency_ns == (if receive_time_ns >= msg.timestamp {
            receive_time_ns - msg.timestamp
        } else {
            0
        }),
        a.buffered is Some <==> (keep && msg.id != CANARY_ID),
        a.buffered matches Some(e) ==> e.1 == a.latency_ns && e.0 == (if wall_now_ns
            >= a.latency_ns {
            wall_now_ns - a.latency_ns
        } else {
            0
        }),
        a.stop == (stop_on_shutdown && msg.message_type == MessageType::Shutdown),
        a.stop ==> a.response is None,
        !a.stop ==> (a.response is Some <==> (msg.message_type == MessageType::Request
            || msg.message_type == MessageType::Ping)),
        a.response matches Some(m) ==> m.id == msg.id && m.payload@.len() == 0
            && m.one_way_latency_ns == 0 && (msg.message_type == MessageType::Request
            ==> m.message_type == MessageType::Response) && (msg.message_type
            == MessageType::Ping ==> m.message_type == MessageType::Pong),
{
    let latency_ns = receive_time_ns.saturating_sub(msg.timestamp);
    let buffered = if should_buffer_latency(keep, msg.id) {
        Some((wall_now_ns.saturating_sub(latency_ns), latency_ns))
    } else {
        None
    };
    if stop_on_shutdown && msg.message_type == MessageType::Shutdown {
        return InternalServerAction { stop: true, latency_ns, buffered, response: None };
    }
    InternalServerAction { stop: false, latency_ns, buffered, response: dispatch_server_message(msg) }
}

/// Log level chosen by the number of `-v` flags.
#[derive(Clone, Copy, Debug, PartialEq, Eq, Structural)]
pub enum LogLevel {
    /// Informational messages.
    Info,
    /// Debug messages.
    Debug,
    /// Everything.
    Trace,
}

/// No flag: `Info`; one: `Debug`; more: `Trace`.
pub fn verbosity_to_level(verbose: u8) -> (l: LogLevel)
    ensures
        verbose == 0 ==> l == LogLevel::Info,
        verbose == 1 ==> l == LogLevel::Debug,
        verbose >= 2 ==> l == LogLevel::Trace,
{
    match verbose {
        0 => LogLevel::Info,
        1 => LogLevel::Debug,
        _ => LogLevel::Trace,
    }
}

} // verus!
