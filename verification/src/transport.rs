//! Transport configuration, roles and states, and the choice of transport
//! implementation for an IPC mechanism.

use crate::message::Message;
use vstd::prelude::*;
use vstd::string::*;

verus! {

/// IPC mechanisms the benchmark can exercise.
#[derive(Clone, Copy, Debug, PartialEq, Eq, Structural)]
pub enum IpcMechanism {
    /// Unix domain sockets.
    UnixDomainSocket,
    /// Shared memory ring buffer.
    SharedMemory,
    /// TCP sockets.
    TcpSocket,
    /// POSIX message queues.
    PosixMessageQueue,
    /// Every mechanism; expanded into the others before use.
    All,
}

/// Error of a transport operation.
#[derive(Debug)]
pub enum IpcError {
    /// A send gave up because the peer did not drain the buffer in time.
    BackpressureTimeout,
    /// Any other failure, with its description.
    Generic(String),
}

impl IpcError {
    /// Human-readable description of the error.
    pub fn message(&self) -> (s: String)
        ensures
            self is BackpressureTimeout ==> s@
                == "Timeout sending message due to backpressure"@,
            self matches IpcError::Generic(d) ==> s@ == "IPC error: "@ + d@,
    {
        match self {
            IpcError::BackpressureTimeout => String::from_str(
                "Timeout sending message due to backpressure",
            ),
            IpcError::Generic(d) => String::from_str("IPC error: ").concat(d.as_str()),
        }
    }
}

/// Configuration shared by every transport.
#[derive(Debug)]
pub struct TransportConfig {
    /// Buffer size: ring capacity, socket buffers, queue message size.
    pub buffer_size: usize,
    /// Host address for TCP.
    pub host: String,
    /// Port for TCP.
    pub port: u16,
    /// Path of the Unix domain socket.
    pub socket_path: String,
    /// Name of the shared memory segment.
    pub shared_memory_name: String,
    /// Maximum number of concurrent connections.
    pub max_connections: usize,
    /// Depth of POSIX message queues.
    pub message_queue_depth: usize,
    /// Base name of POSIX message queues.
    pub message_queue_name: String,
    /// Priority of messages sent on POSIX message queues.
    pub pmq_priority: u32,
}

impl Default for TransportConfig {
    /// The defaults: 8 KiB buffers, 127.0.0.1:8080, /tmp/ipc_benchmark.sock,
    /// segment ipc_benchmark_shm, 16 connections, queue depth 10, queue
    /// ipc_benchmark_pmq, priority 0.
    fn default() -> (c: TransportConfig)
        ensures
            c.buffer_size == 8192,
            c.host@ == "127.0.0.1"@,
            c.port == 8080,
            c.socket_path@ == "/tmp/ipc_benchmark.sock"@,
            c.shared_memory_name@ == "ipc_benchmark_shm"@,
            c.max_connections == 16,
            c.message_queue_depth == 10,
            c.message_queue_name@ == "ipc_benchmark_pmq"@,
            c.pmq_priority == 0,
    {
        TransportConfig {
            buffer_size: 8192,
            host: String::from_str("127.0.0.1"),
            port: 8080,
            socket_path: String::from_str("/tmp/ipc_benchmark.sock"),
            shared_memory_name: String::from_str("ipc_benchmark_shm"),
            max_connections: 16,
            message_queue_depth: 10,
            message_queue_name: String::from_str("ipc_benchmark_pmq"),
            pmq_priority: 0,
        }
    }
}

/// Side of a connection.
#[derive(Clone, Copy, Debug, PartialEq, Eq, Structural)]
pub enum ConnectionRole {
    /// Accepts connections.
    Server,
    /// Initiates the connection.
    Client,
}

/// Lifecycle state of a transport.
#[derive(Clone, Copy, Debug, PartialEq, Eq, Structural)]
pub enum TransportState {
    /// Not yet started.
    Uninitialized,
    /// Being set up.
    Initializing,
    /// Ready to exchange messages.
    Connected,
    /// Connection ended.
    Disconnected,
    /// Failed.
    Error,
}

/// The blocking interface every transport implements.
pub trait BlockingTransport {
    /// Sets the transport up as the server side.
    fn start_server_blocking(&mut self, config: &TransportConfig) -> Result<(), IpcError>;

    /// Connects the transport as the client side.
    fn start_client_blocking(&mut self, config: &TransportConfig) -> Result<(), IpcError>;

    /// Sends one message, blocking until it is handed over.
    fn send_blocking(&mut self, message: &Message) -> Result<(), IpcError>;

    /// Receives one message, blocking until one arrives.
    fn receive_blocking(&mut self) -> Result<Message, IpcError>;

    /// Releases the transport's resources.
    fn close_blocking(&mut self) -> Result<(), IpcError>;
}

/// Transport implementation selected for a mechanism.
#[derive(Clone, Copy, Debug, PartialEq, Eq, Structural)]
pub enum TransportKind {
    /// Unix domain socket transport.
    UnixDomainSocket,
    /// TCP socket transport.
    TcpSocket,
    /// Shared memory ring-buffer transport.
    SharedMemory,
    /// POSIX message queue transport.
    PosixMessageQueue,
}

/// Chooses the asynchronous transport for a mechanism.
pub struct TransportFactory;

impl TransportFactory {
    /// The transport for `mechanism`; `All` must be expanded first.
    pub fn create(mechanism: &IpcMechanism) -> (r: Result<TransportKind, IpcError>)
        ensures
            *mechanism == IpcMechanism::UnixDomainSocket ==> r matches Ok(
                TransportKind::UnixDomainSocket,
            ),
            *mechanism == IpcMechanism::SharedMemory ==> r matches Ok(TransportKind::SharedMemory),
            *mechanism == IpcMechanism::TcpSocket ==> r matches Ok(TransportKind::TcpSocket),
            *mechanism == IpcMechanism::PosixMessageQueue ==> r matches Ok(
                TransportKind::PosixMessageQueue,
            ),
            *mechanism == IpcMechanism::All ==> (r matches Err(IpcError::Generic(s)) && s@
                == "'All' mechanism should be expanded before transport creation"@),
    {
        match mechanism {
            IpcMechanism::UnixDomainSocket => Ok(TransportKind::UnixDomainSocket),
            IpcMechanism::SharedMemory => Ok(TransportKind::SharedMemory),
            IpcMechanism::TcpSocket => Ok(TransportKind::TcpSocket),
            IpcMechanism::PosixMessageQueue => Ok(TransportKind::PosixMessageQueue),
            IpcMechanism::All => Err(
                IpcError::Generic(
                    String::from_str(
                        "'All' mechanism should be expanded before transport creation",
                    ),
                ),
            ),
        }
    }
}

/// Chooses the blocking transport for a mechanism.
pub struct BlockingTransportFactory;

impl BlockingTransportFactory {
    /// The blocking transport for `mechanism`. The POSIX message queue has
    /// no blocking transport yet, and `All` must be expanded first.
    pub fn create(mechanism: &IpcMechanism) -> (r: Result<TransportKind, IpcError>)
        ensures
            *mechanism == IpcMechanism::UnixDomainSocket ==> r matches Ok(
                TransportKind::UnixDomainSocket,
            ),
            *mechanism == IpcMechanism::TcpSocket ==> r matches Ok(TransportKind::TcpSocket),
            *mechanism == IpcMechanism::SharedMemory ==> r matches Ok(TransportKind::SharedMemory),
            *mechanism == IpcMechanism::PosixMessageQueue ==> (r matches Err(IpcError::Generic(s))
                && s@ == "BlockingPosixMessageQueue not yet implemented (Stage 3.4)"@),
            *mechanism == IpcMechanism::All ==> (r matches Err(IpcError::Generic(s)) && s@
                == "Cannot create transport for 'All' mechanism. Use IpcMechanism::expand_all() first."@),
    {
        match mechanism {
            IpcMechanism::UnixDomainSocket => Ok(TransportKind::UnixDomainSocket),
            IpcMechanism::TcpSocket => Ok(TransportKind::TcpSocket),
            IpcMechanism::SharedMemory => Ok(TransportKind::SharedMemory),
            IpcMechanism::PosixMessageQueue => Err(
                IpcError::Generic(
                    String::from_str("BlockingPosixMessageQueue not yet implemented (Stage 3.4)"),
                ),
            ),
            IpcMechanism::All => Err(
                IpcError::Generic(
                    String::from_str(
                        "Cannot create transport for 'All' mechanism. Use IpcMechanism::expand_all() first.",
                    ),
                ),
            ),
        }
    }
}

/// `name` with a leading `/`, the form POSIX shared memory and message
/// queue names take: unchanged when it already starts with `/`.
pub open spec fn spec_posix_name(name: Seq<char>) -> Seq<char> {
    if name.len() > 0 && name[0] == '/' {
        name
    } else {
        seq!['/'] + name
    }
}

/// Adding the leading `/` is idempotent, and it is undone by stripping one
/// `/` exactly when the name did not start with `/`.
pub proof fn lemma_posix_name_laws(name: Seq<char>)
    ensures
        spec_posix_name(spec_posix_name(name)) == spec_posix_name(name),
        spec_posix_name(name)[0] == '/',
        !(name.len() > 0 && name[0] == '/') ==> spec_strip_slash(spec_posix_name(name)) == name,
{
    if !(name.len() > 0 && name[0] == '/') {
        assert((seq!['/'] + name).subrange(1, (seq!['/'] + name).len() as int) =~= name);
    }
}

/// `name` prefixed with `/` unless it already starts with one.
pub fn posix_name(name: &str) -> (r: String)
    ensures
        r@ == spec_posix_name(name@),
{
    proof {
        reveal_strlit("/");
    }
    if name.unicode_len() > 0 && name.get_char(0) == '/' {
        String::from_str(name)
    } else {
        String::from_str("/").concat(name)
    }
}

/// `name` without one leading `/`, if it has one.
pub open spec fn spec_strip_slash(name: Seq<char>) -> Seq<char> {
    if name.len() > 0 && name[0] == '/' {
        name.subrange(1, name.len() as int)
    } else {
        name
    }
}

/// Removes one leading `/` from `name`, if present.
pub fn strip_leading_slash(name: &str) -> (r: String)
    ensures
        r@ == spec_strip_slash(name@),
{
    let n = name.unicode_len();
    if n > 0 && name.get_char(0) == '/' {
        String::from_str(name.substring_char(1, n))
    } else {
        String::from_str(name)
    }
}

/// Path of a shared memory object under `/dev/shm`.
pub fn dev_shm_path(name: &str) -> (r: String)
    ensures
        r@ == "/dev/shm/"@ + spec_strip_slash(name@),
{
    let stripped = strip_leading_slash(name);
    String::from_str("/dev/shm/").concat(stripped.as_str())
}

} // verus!
