//! Attachment state of the shared-memory transports and the clean-up their
//! `close` performs.

use crate::transport::{posix_name, spec_posix_name, IpcError};
use vstd::prelude::*;
use vstd::string::*;

verus! {

/// What closing a shared-memory transport must do to the segment.
#[derive(Debug)]
pub struct CloseAction {
    /// Destroy the process-shared synchronization primitives.
    pub destroy_primitives: bool,
    /// Unlink the segment under this name.
    pub unlink_name: Option<String>,
}

/// State of the direct shared-memory transport.
#[derive(Debug)]
pub struct BlockingSharedMemoryDirect {
    attached: bool,
    is_server: bool,
    shm_name: String,
    cross_container: bool,
}

impl BlockingSharedMemoryDirect {
    /// Whether a segment is attached.
    pub closed spec fn spec_attached(&self) -> bool {
        self.attached
    }

    /// Whether this side is the server.
    pub closed spec fn spec_is_server(&self) -> bool {
        self.is_server
    }

    /// Name of the segment this side owns (empty when it owns none).
    pub closed spec fn spec_owned_name(&self) -> Seq<char> {
        self.shm_name@
    }

    /// Whether the container-safe waiting strategy is used.
    pub closed spec fn spec_cross_container(&self) -> bool {
        self.cross_container
    }

    /// A transport with no segment, in the client role.
    pub fn new() -> (t: BlockingSharedMemoryDirect)
        ensures
            !t.spec_attached(),
            !t.spec_is_server(),
            t.spec_owned_name().len() == 0,
            !t.spec_cross_container(),
    {
        BlockingSharedMemoryDirect {
            attached: false,
            is_server: false,
            shm_name: String::new(),
            cross_container: false,
        }
    }

    /// Whether a segment is attached.
    pub fn is_initialized(&self) -> (b: bool)
        ensures
            b == self.spec_attached(),
    {
        self.attached
    }

    /// Whether this side is the server.
    pub fn is_server(&self) -> (b: bool)
        ensures
            b == self.spec_is_server(),
    {
        self.is_server
    }

    /// Name of the owned segment (empty when none is owned).
    pub fn owned_segment_name(&self) -> (s: &str)
        ensures
            s@ == self.spec_owned_name(),
    {
        self.shm_name.as_str()
    }

    /// Records that the server attached to segment `name`: a segment it
    /// created is owned under its `/`-prefixed name; one it opened is not
    /// owned.
    pub fn record_server_start(&mut self, name: &str, opened_existing: bool, cross_container: bool)
        ensures
            final(self).spec_attached(),
            final(self).spec_is_server(),
            final(self).spec_cross_container() == cross_container,
            opened_existing ==> final(self).spec_owned_name().len() == 0,
            !opened_existing ==> final(self).spec_owned_name() == spec_posix_name(name@),
    {
        self.attached = true;
        self.is_server = true;
        self.cross_container = cross_container;
        self.shm_name = if opened_existing {
            String::new()
        } else {
            posix_name(name)
        };
    }

    /// Records that the client attached to a segment.
    pub fn record_client_start(&mut self, cross_container: bool)
        ensures
            final(self).spec_attached(),
            !final(self).spec_is_server(),
            final(self).spec_cross_container() == cross_container,
            final(self).spec_owned_name() == old(self).spec_owned_name(),
    {
        self.attached = true;
        self.is_server = false;
        self.cross_container = cross_container;
    }

    /// Fails with a "not initialized" error when no segment is attached.
    pub fn require_initialized(&self) -> (r: Result<(), IpcError>)
        ensures
            self.spec_attached() ==> r is Ok,
            !self.spec_attached() ==> (r matches Err(IpcError::Generic(s)) && s@
                == "Shared memory not initialized. Call start_server_blocking() or start_client_blocking() first."@),
    {
        if self.attached {
            Ok(())
        } else {
            Err(
                IpcError::Generic(
                    String::from_str(
                        "Shared memory not initialized. Call start_server_blocking() or start_client_blocking() first.",
                    ),
                ),
            )
        }
    }

    /// Detaches and says what to clean up: a server that owns its segment
    /// destroys the primitives and unlinks the segment; nothing otherwise.
    /// Closing twice is harmless.
    pub fn close_blocking(&mut self) -> (a: CloseAction)
        ensures
            !final(self).spec_attached(),
            final(self).spec_owned_name().len() == 0,
            final(self).spec_is_server() == old(self).spec_is_server(),
            a.destroy_primitives == (old(self).spec_is_server() && old(self).spec_attached()
                && old(self).spec_owned_name().len() > 0),
            (old(self).spec_is_server() && old(self).spec_owned_name().len() > 0) ==> (
            a.unlink_name matches Some(n) && n@ == old(self).spec_owned_name()),
            !(old(self).spec_is_server() && old(self).spec_owned_name().len() > 0)
                ==> a.unlink_name is None,
    {
        let owns = self.is_server && self.shm_name.unicode_len() > 0;
        let action = CloseAction {
            destroy_primitives: owns && self.attached,
            unlink_name: if owns {
                Some(self.shm_name.clone())
            } else {
                None
            },
        };
        self.attached = false;
        self.shm_name = String::new();
        action
    }
}

impl Default for BlockingSharedMemoryDirect {
    /// Same as `BlockingSharedMemoryDirect::new`.
    fn default() -> (t: BlockingSharedMemoryDirect)
        ensures
            !t.spec_attached(),
            !t.spec_is_server(),
            t.spec_owned_name().len() == 0,
            !t.spec_cross_container(),
    {
        BlockingSharedMemoryDirect::new()
    }
}

/// State of the ring-buffer shared-memory transport.
#[derive(Debug)]
pub struct BlockingSharedMemory {
    attached: bool,
    is_server: bool,
    shared_memory_name: String,
}

impl BlockingSharedMemory {
    /// Whether a segment is attached.
    pub closed spec fn spec_attached(&self) -> bool {
        self.attached
    }

    /// Whether this side created the segment.
    pub closed spec fn spec_is_server(&self) -> bool {
        self.is_server
    }

    /// Name of the segment in use.
    pub closed spec fn spec_name(&self) -> Seq<char> {
        self.shared_memory_name@
    }

    /// A transport with no segment.
    pub fn new() -> (t: BlockingSharedMemory)
        ensures
            !t.spec_attached(),
            !t.spec_is_server(),
            t.spec_name().len() == 0,
    {
        BlockingSharedMemory { attached: false, is_server: false, shared_memory_name: String::new() }
    }

    /// Whether a segment is attached.
    pub fn is_initialized(&self) -> (b: bool)
        ensures
            b == self.spec_attached(),
    {
        self.attached
    }

    /// Whether this side created the segment.
    pub fn is_server(&self) -> (b: bool)
        ensures
            b == self.spec_is_server(),
    {
        self.is_server
    }

    /// Records that this side attached to segment `name`, as server or
    /// client.
    pub fn record_start(&mut self, name: &str, is_server: bool)
        ensures
            final(self).spec_attached(),
            final(self).spec_is_server() == is_server,
            final(self).spec_name() == name@,
    {
        self.attached = true;
        self.is_server = is_server;
        self.shared_memory_name = String::from_str(name);
    }

    /// The check before a send: fails when no segment is attached (a
    /// server first reports that its ring is missing, as its wait for the
    /// client looks at the ring).
    pub fn require_for_send(&self) -> (r: Result<(), IpcError>)
        ensures
            self.spec_attached() ==> r is Ok,
            !self.spec_attached() && self.spec_is_server() ==> (r matches Err(IpcError::Generic(s))
                && s@ == "Ring buffer not initialized"@),
            !self.spec_attached() && !self.spec_is_server() ==> (r matches Err(
                IpcError::Generic(s),
            ) && s@
                == "Cannot send: shared memory not initialized. Call start_server_blocking() or start_client_blocking() first."@),
    {
        if self.attached {
            Ok(())
        } else if self.is_server {
            Err(IpcError::Generic(String::from_str("Ring buffer not initialized")))
        } else {
            Err(
                IpcError::Generic(
                    String::from_str(
                        "Cannot send: shared memory not initialized. Call start_server_blocking() or start_client_blocking() first.",
                    ),
                ),
            )
        }
    }

    /// The check before a receive: as `require_for_send`, with the
    /// receiver's wording.
    pub fn require_for_receive(&self) -> (r: Result<(), IpcError>)
        ensures
            self.spec_attached() ==> r is Ok,
            !self.spec_attached() && self.spec_is_server() ==> (r matches Err(IpcError::Generic(s))
                && s@ == "Ring buffer not initialized"@),
            !self.spec_attached() && !self.spec_is_server() ==> (r matches Err(
                IpcError::Generic(s),
            ) && s@
                == "Cannot receive: shared memory not initialized. Call start_server_blocking() or start_client_blocking() first."@),
    {
        if self.attached {
            Ok(())
        } else if self.is_server {
            Err(IpcError::Generic(String::from_str("Ring buffer not initialized")))
        } else {
            Err(
                IpcError::Generic(
                    String::from_str(
                        "Cannot receive: shared memory not initialized. Call start_server_blocking() or start_client_blocking() first.",
                    ),
                ),
            )
        }
    }

    /// Detaches and says what to clean up: a server unlinks its segment
    /// under the `/`-prefixed name. Closing twice is harmless.
    pub fn close_blocking(&mut self) -> (a: CloseAction)
        ensures
            !final(self).spec_attached(),
            !final(self).spec_is_server(),
            final(self).spec_name().len() == 0,
            !a.destroy_primitives,
            (old(self).spec_is_server() && old(self).spec_name().len() > 0) ==> (
            a.unlink_name matches Some(n) && n@ == spec_posix_name(old(self).spec_name())),
            !(old(self).spec_is_server() && old(self).spec_name().len() > 0)
                ==> a.unlink_name is None,
    {
        let should_unlink = self.is_server && self.shared_memory_name.unicode_len() > 0;
        let unlink_name = if should_unlink {
            Some(posix_name(self.shared_memory_name.as_str()))
        } else {
            None
        };
        self.attached = false;
        self.is_server = false;
        self.shared_memory_name = String::new();
        CloseAction { destroy_primitives: false, unlink_name }
    }
}

impl Default for BlockingSharedMemory {
    /// Same as `BlockingSharedMemory::new`.
    fn default() -> (t: BlockingSharedMemory)
        ensures
            !t.spec_attached(),
            !t.spec_is_server(),
            t.spec_name().len() == 0,
    {
        BlockingSharedMemory::new()
    }
}

} // verus!
