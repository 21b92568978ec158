//! Circular byte ring used by the shared-memory transports.
//!
//! Messages are stored as frames: a 4-byte little-endian length followed by
//! the message bytes. One byte of the ring always stays free, so that equal
//! read and write positions mean "empty".

use crate::frame::{encode_frame, spec_frame, lemma_frame_header_roundtrip};
use crate::transport::ConnectionRole;
use vstd::prelude::*;

verus! {

/// Position `i` bytes after `start` in a ring of `cap` bytes
/// (`start < cap`, `i < cap`).
pub open spec fn spec_ring_pos(start: int, i: int, cap: int) -> int {
    if start + i < cap {
        start + i
    } else {
        start + i - cap
    }
}

/// Number of bytes between the read and the write position.
pub open spec fn spec_used(read_pos: int, write_pos: int, cap: int) -> int {
    if write_pos >= read_pos {
        write_pos - read_pos
    } else {
        cap - (read_pos - write_pos)
    }
}

/// Largest ring the framing describes exactly: a stored message leaves at
/// least the 4 header bytes and the one free byte, so in a ring of at most
/// `u32::MAX + 5` bytes every message's length fits the 32-bit length
/// prefix. (In a larger ring a message longer than `u32::MAX` bytes would be
/// written with a truncated prefix and read back wrongly.)
pub open spec fn max_ring_capacity() -> int {
    u32::MAX + 5
}

/// Concatenated frames of a sequence of messages, first message first.
pub open spec fn spec_frames(q: Seq<Seq<u8>>) -> Seq<u8>
    decreases q.len(),
{
    if q.len() == 0 {
        Seq::empty()
    } else {
        spec_frame(q[0]) + spec_frames(q.subrange(1, q.len() as int))
    }
}

/// Appending a message appends its frame.
pub proof fn lemma_frames_push(q: Seq<Seq<u8>>, m: Seq<u8>)
    ensures
        spec_frames(q.push(m)) == spec_frames(q) + spec_frame(m),
    decreases q.len(),
{
    if q.len() == 0 {
        let one = q.push(m);
        assert(one.subrange(1, 1) =~= Seq::<Seq<u8>>::empty());
        assert(spec_frames(one.subrange(1, 1)) =~= Seq::<u8>::empty());
        assert(one[0] == m);
        assert(spec_frames(one) =~= spec_frame(m) + Seq::<u8>::empty());
        assert(spec_frames(q) =~= Seq::<u8>::empty());
        assert(spec_frames(one) =~= spec_frames(q) + spec_frame(m));
    } else {
        let rest = q.subrange(1, q.len() as int);
        lemma_frames_push(rest, m);
        assert(q.push(m).subrange(1, q.len() as int + 1) =~= rest.push(m));
        assert(spec_frames(q.push(m)) =~= spec_frames(q) + spec_frame(m));
    }
}

/// Ring accounting: a stored message occupies its length plus the 4 header
/// bytes, both when it is written last and when it is read first.
pub proof fn lemma_frame_accounting(q: Seq<Seq<u8>>, m: Seq<u8>)
    ensures
        spec_frames(q.push(m)).len() == spec_frames(q).len() + m.len() + 4,
        q.len() > 0 ==> spec_frames(q).len() == q[0].len() + 4 + spec_frames(
            q.subrange(1, q.len() as int),
        ).len(),
{
    lemma_frames_push(q, m);
    lemma_frame_header_roundtrip(m);
    if q.len() > 0 {
        lemma_frame_header_roundtrip(q[0]);
    }
}

/// First in, first out: writing a message does not change which message
/// the next read returns, unless none was waiting, and then it is the
/// written one; the messages behind it keep their order, the new one last.
pub proof fn lemma_ring_fifo(q: Seq<Seq<u8>>, m: Seq<u8>)
    ensures
        q.len() == 0 ==> q.push(m)[0] == m && q.push(m).subrange(1, 1) == Seq::<
            Seq<u8>,
        >::empty(),
        q.len() > 0 ==> q.push(m)[0] == q[0],
        q.len() > 0 ==> q.push(m).subrange(1, q.len() as int + 1) == q.subrange(
            1,
            q.len() as int,
        ).push(m),
{
    if q.len() > 0 {
        assert(q.push(m).subrange(1, q.len() as int + 1) =~= q.subrange(1, q.len() as int).push(m));
    } else {
        assert(q.push(m).subrange(1, 1) =~= Seq::<Seq<u8>>::empty());
    }
}

/// Why a ring operation did not complete.
#[derive(Clone, Copy, Debug, PartialEq, Eq, Structural)]
pub enum RingError {
    /// The free space is smaller than the frame to write.
    Full,
    /// Fewer than 4 bytes are waiting: no frame header to read.
    NoData,
    /// The frame header announces a length the reader refuses.
    InvalidLength(u32),
    /// The header announces more bytes than are waiting.
    Incomplete,
    /// The ring was shut down while the caller would have waited.
    Closed,
    /// The caller must wait for the peer before retrying.
    WouldBlock,
}

/// A single-direction byte ring with framed messages.
pub struct RingBuffer {
    capacity: usize,
    read_pos: usize,
    write_pos: usize,
    messages_written: usize,
    data: Vec<u8>,
    queued: Ghost<Seq<Seq<u8>>>,
}

impl View for RingBuffer {
    /// The messages stored and not yet read, oldest first.
    type V = Seq<Seq<u8>>;

    closed spec fn view(&self) -> Seq<Seq<u8>> {
        self.queued@
    }
}

impl RingBuffer {
    /// Size of the ring's data area in bytes.
    pub closed spec fn spec_capacity(&self) -> nat {
        self.capacity as nat
    }

    /// Number of writes that succeeded (wrapping at `usize::MAX`).
    pub closed spec fn spec_messages_written(&self) -> nat {
        self.messages_written as nat
    }

    /// The bytes between the read and the write position, in ring order.
    pub closed spec fn live(&self) -> Seq<u8> {
        Seq::new(
            spec_used(self.read_pos as int, self.write_pos as int, self.capacity as int) as nat,
            |i: int| self.data@[spec_ring_pos(self.read_pos as int, i, self.capacity as int)],
        )
    }

    /// Number of bytes waiting to be read.
    pub closed spec fn spec_used_bytes(&self) -> nat {
        spec_used(self.read_pos as int, self.write_pos as int, self.capacity as int) as nat
    }

    /// Well-formedness: positions inside the ring, and the waiting bytes are
    /// exactly the frames of the queued messages.
    pub closed spec fn wf(&self) -> bool {
        &&& 1 <= self.capacity <= max_ring_capacity()
        &&& self.data@.len() == self.capacity
        &&& self.read_pos < self.capacity
        &&& self.write_pos < self.capacity
        &&& self.live() == spec_frames(self.queued@)
    }

    /// Creates an empty ring of `capacity` bytes.
    pub fn new(capacity: usize) -> (rb: RingBuffer)
        requires
            1 <= capacity <= max_ring_capacity(),
        ensures
            rb.wf(),
            rb.spec_capacity() == capacity,
            rb@ == Seq::<Seq<u8>>::empty(),
            rb.spec_messages_written() == 0,
    {
        let mut data: Vec<u8> = Vec::new();
        let mut i: usize = 0;
        while i < capacity
            invariant
                i <= capacity,
                data@.len() == i,
            decreases capacity - i,
        {
            data.push(0u8);
            i = i + 1;
        }
        let rb = RingBuffer {
            capacity,
            read_pos: 0,
            write_pos: 0,
            messages_written: 0,
            data,
            queued: Ghost(Seq::empty()),
        };
        assert(rb.live() =~= spec_frames(Seq::<Seq<u8>>::empty()));
        rb
    }

    /// Size of the ring's data area.
    pub fn capacity(&self) -> (c: usize)
        ensures
            c == self.spec_capacity(),
    {
        self.capacity
    }

    /// Number of successful writes so far.
    pub fn messages_written(&self) -> (n: usize)
        ensures
            n == self.spec_messages_written(),
    {
        self.messages_written
    }

    /// Bytes waiting to be read.
    pub fn available_read_data(&self) -> (n: usize)
        requires
            self.wf(),
        ensures
            n == self.spec_used_bytes(),
            n == spec_frames(self@).len(),
            n < self.spec_capacity(),
    {
        if self.write_pos >= self.read_pos {
            self.write_pos - self.read_pos
        } else {
            self.capacity - (self.read_pos - self.write_pos)
        }
    }

    /// Bytes that can still be written; one byte always stays free.
    pub fn available_write_space(&self) -> (n: usize)
        requires
            self.wf(),
        ensures
            n + self.spec_used_bytes() + 1 == self.spec_capacity(),
    {
        if self.write_pos >= self.read_pos {
            self.capacity - (self.write_pos - self.read_pos) - 1
        } else {
            self.read_pos - self.write_pos - 1
        }
    }

    /// `pos + k` wrapped into the ring.
    fn advance(pos: usize, k: usize, cap: usize) -> (p: usize)
        requires
            pos < cap,
            k < cap,
        ensures
            p == spec_ring_pos(pos as int, k as int, cap as int),
            p < cap,
    {
        let room = cap - pos;
        if k < room {
            pos + k
        } else {
            k - room
        }
    }

    /// Appends `bytes` at the write position without moving it.
    fn store_at_write_pos(&mut self, bytes: &[u8])
        requires
            old(self).wf(),
            bytes@.len() + old(self).spec_used_bytes() < old(self).spec_capacity(),
        ensures
            final(self).capacity == old(self).capacity,
            final(self).read_pos == old(self).read_pos,
            final(self).write_pos == old(self).write_pos,
            final(self).messages_written == old(self).messages_written,
            final(self)@ == old(self)@,
            final(self).data@.len() == old(self).data@.len(),
            forall|j: int|
                0 <= j < old(self).spec_used_bytes() ==> #[trigger] final(self).data@[spec_ring_pos(
                    old(self).read_pos as int,
                    j,
                    old(self).capacity as int,
                )] == old(self).live()[j],
            forall|j: int|
                0 <= j < bytes@.len() ==> #[trigger] final(self).data@[spec_ring_pos(
                    old(self).read_pos as int,
                    old(self).spec_used_bytes() + j,
                    old(self).capacity as int,
                )] == bytes@[j],
    {
        let cap = self.capacity;
        let r = self.read_pos;
        let w = self.write_pos;
        let ghost u = self.spec_used_bytes() as int;
        let ghost live0 = self.live();
        assert(w as int == spec_ring_pos(r as int, u, cap as int));
        let mut k: usize = 0;
        while k < bytes.len()
            invariant
                self.capacity == cap,
                self.read_pos == r,
                self.write_pos == w,
                self.messages_written == old(self).messages_written,
                self@ == old(self)@,
                self.data@.len() == cap,
                r < cap,
                w < cap,
                w as int == spec_ring_pos(r as int, u, cap as int),
                0 <= u,
                bytes@.len() + u < cap,
                live0.len() == u,
                k <= bytes@.len(),
                forall|j: int|
                    0 <= j < u ==> #[trigger] self.data@[spec_ring_pos(r as int, j, cap as int)]
                        == live0[j],
                forall|j: int|
                    0 <= j < k ==> #[trigger] self.data@[spec_ring_pos(r as int, u + j, cap as int)]
                        == bytes@[j],
            decreases bytes@.len() - k,
        {
            let p = Self::advance(w, k, cap);
            assert(p == spec_ring_pos(r as int, u + k, cap as int));
            self.data[p] = bytes[k];
            k = k + 1;
        }
    }

    /// Writes one framed message: the 4-byte length, then `data`.
    pub fn write_data(&mut self, data: &[u8]) -> (r: Result<(), RingError>)
        requires
            old(self).wf(),
        ensures
            final(self).wf(),
            final(self).spec_capacity() == old(self).spec_capacity(),
            (spec_frames(old(self)@).len() + data@.len() + 4 >= old(self).spec_capacity())
                <==> r == Err::<(), RingError>(RingError::Full),
            r is Err ==> r == Err::<(), RingError>(RingError::Full) && *final(self) == *old(self),
            r is Ok ==> final(self)@ == old(self)@.push(data@),
            r is Ok ==> final(self).spec_messages_written() == (if old(
                self,
            ).spec_messages_written() == usize::MAX {
                0
            } else {
                old(self).spec_messages_written() + 1
            }),
    {
        let space = self.available_write_space();
        if space < 4 || space - 4 < data.len() {
            return Err(RingError::Full);
        }
        let frame = encode_frame(data);
        proof {
            lemma_frame_header_roundtrip(data@);
        }
        let ghost old_self = *self;
        let ghost u = self.spec_used_bytes() as int;
        let ghost live0 = self.live();
        self.store_at_write_pos(frame.as_slice());
        let n = frame.len();
        self.write_pos = Self::advance(self.write_pos, n, self.capacity);
        self.messages_written = if self.messages_written == usize::MAX {
            0
        } else {
            self.messages_written + 1
        };
        proof {
            lemma_frames_push(old_self@, data@);
            self.queued@ = old_self@.push(data@);
            let cap = self.capacity as int;
            let r = self.read_pos as int;
            assert(spec_used(r, self.write_pos as int, cap) == u + n);
            assert forall|j: int| 0 <= j < u + n implies #[trigger] self.live()[j] == (live0
                + frame@)[j] by {
                if j < u {
                } else {
                    let jj = j - u;
                    assert(self.data@[spec_ring_pos(r, u + jj, cap)] == frame@[jj]);
                }
            }
            assert(self.live() =~= live0 + frame@);
        }
        Ok(())
    }

    /// Copies `len` waiting bytes starting `offset` bytes after the read
    /// position.
    fn load_from_read_pos(&self, offset: usize, len: usize) -> (out: Vec<u8>)
        requires
            self.wf(),
            offset + len <= self.spec_used_bytes(),
        ensures
            out@ == self.live().subrange(offset as int, offset + len),
    {
        let mut out: Vec<u8> = Vec::new();
        let mut k: usize = 0;
        while k < len
            invariant
                self.wf(),
                offset + len <= self.spec_used_bytes(),
                k <= len,
                out@ == self.live().subrange(offset as int, offset + k),
            decreases len - k,
        {
            let p = Self::advance(self.read_pos, offset + k, self.capacity);
            out.push(self.data[p]);
            k = k + 1;
            assert(out@ =~= self.live().subrange(offset as int, offset + k));
        }
        out
    }

    /// Moves the read position `k` bytes forward, dropping the first queued
    /// message from the ghost queue.
    fn consume_first(&mut self, k: usize)
        requires
            old(self).wf(),
            old(self)@.len() > 0,
            k == 4 + old(self)@[0].len(),
        ensures
            final(self).wf(),
            final(self).capacity == old(self).capacity,
            final(self).messages_written == old(self).messages_written,
            final(self)@ == old(self)@.subrange(1, old(self)@.len() as int),
    {
        let ghost q = self@;
        let ghost live0 = self.live();
        let ghost u = self.spec_used_bytes() as int;
        let ghost cap = self.capacity as int;
        let ghost r0 = self.read_pos as int;
        let ghost rest = q.subrange(1, q.len() as int);
        proof {
            lemma_frame_header_roundtrip(q[0]);
            assert(live0 == spec_frame(q[0]) + spec_frames(rest));
        }
        self.read_pos = Self::advance(self.read_pos, k, self.capacity);
        proof {
            self.queued@ = rest;
            assert(spec_used(self.read_pos as int, self.write_pos as int, cap) == u - k);
            assert forall|j: int| 0 <= j < u - k implies #[trigger] self.live()[j] == live0[k + j] by {
                assert(spec_ring_pos(self.read_pos as int, j, cap) == spec_ring_pos(r0, k + j, cap));
            }
            assert(self.live() =~= spec_frames(rest));
        }
    }

    /// Reads the 4-byte header of the first waiting frame.
    fn peek_len(&self) -> (n: u32)
        requires
            self.wf(),
            self@.len() > 0,
        ensures
            n == self@[0].len(),
    {
        proof {
            lemma_frame_header_roundtrip(self@[0]);
            assert(self.live() == spec_frame(self@[0]) + spec_frames(
                self@.subrange(1, self@.len() as int),
            ));
            assert(self.live().subrange(0, 4) =~= spec_frame(self@[0]).subrange(0, 4));
        }
        let header = self.load_from_read_pos(0, 4);
        vstd::bytes::u32_from_le_bytes(header.as_slice())
    }

    /// Reads the oldest framed message. A zero-length frame is refused and
    /// left in place.
    pub fn read_data(&mut self) -> (r: Result<Vec<u8>, RingError>)
        requires
            old(self).wf(),
        ensures
            final(self).wf(),
            final(self).spec_capacity() == old(self).spec_capacity(),
            final(self).spec_messages_written() == old(self).spec_messages_written(),
            old(self)@.len() == 0 ==> r == Err::<Vec<u8>, RingError>(RingError::NoData),
            old(self)@.len() > 0 && old(self)@[0].len() == 0 ==> r == Err::<
                Vec<u8>,
                RingError,
            >(RingError::InvalidLength(0)),
            r is Err ==> *final(self) == *old(self),
            old(self)@.len() > 0 && old(self)@[0].len() > 0 ==> {
                &&& r matches Ok(v) && v@ == old(self)@[0]
                &&& final(self)@ == old(self)@.subrange(
                    1,
                    old(self)@.len() as int,
                )
            },
    {
        let avail = self.available_read_data();
        if avail < 4 {
            proof {
                if self@.len() > 0 {
                    lemma_frame_header_roundtrip(self@[0]);
                }
            }
            return Err(RingError::NoData);
        }
        proof {
            if self@.len() == 0 {
                assert(spec_frames(self@) =~= Seq::<u8>::empty());
            }
        }
        let len = self.peek_len();
        if len == 0 || len as usize > self.capacity {
            return Err(RingError::InvalidLength(len));
        }
        let n = len as usize;
        proof {
            lemma_frame_header_roundtrip(self@[0]);
            assert(self.live() == spec_frame(self@[0]) + spec_frames(
                self@.subrange(1, self@.len() as int),
            ));
        }
        if avail - 4 < n {
            return Err(RingError::Incomplete);
        }
        let out = self.load_from_read_pos(4, n);
        proof {
            assert(self.live().subrange(4, 4 + n as int) =~= spec_frame(self@[0]).subrange(
                4,
                4 + n as int,
            ));
        }
        self.consume_first(n + 4);
        Ok(out)
    }

    /// Reads the oldest framed message, whatever its length (the rule of
    /// the blocking reader, which only refuses lengths above the capacity).
    pub fn read_any_frame(&mut self) -> (r: Result<Vec<u8>, RingError>)
        requires
            old(self).wf(),
        ensures
            final(self).wf(),
            final(self).spec_capacity() == old(self).spec_capacity(),
            final(self).spec_messages_written() == old(self).spec_messages_written(),
            old(self)@.len() == 0 <==> r == Err::<Vec<u8>, RingError>(RingError::NoData),
            r is Err ==> *final(self) == *old(self),
            old(self)@.len() > 0 ==> {
                &&& r matches Ok(v) && v@ == old(self)@[0]
                &&& final(self)@ == old(self)@.subrange(1, old(self)@.len() as int)
            },
    {
        let avail = self.available_read_data();
        if avail < 4 {
            proof {
                if self@.len() > 0 {
                    lemma_frame_header_roundtrip(self@[0]);
                }
            }
            return Err(RingError::NoData);
        }
        proof {
            if self@.len() == 0 {
                assert(spec_frames(self@) =~= Seq::<u8>::empty());
            }
        }
        let len = self.peek_len();
        if len as usize > self.capacity {
            return Err(RingError::InvalidLength(len));
        }
        let n = len as usize;
        proof {
            lemma_frame_header_roundtrip(self@[0]);
            assert(self.live() == spec_frame(self@[0]) + spec_frames(
                self@.subrange(1, self@.len() as int),
            ));
        }
        if avail - 4 < n {
            return Err(RingError::Incomplete);
        }
        let out = self.load_from_read_pos(4, n);
        proof {
            assert(self.live().subrange(4, 4 + n as int) =~= spec_frame(self@[0]).subrange(
                4,
                4 + n as int,
            ));
        }
        self.consume_first(n + 4);
        Ok(out)
    }
}

/// Coordination header of the dual-ring shared-memory layout: the capacity
/// of each ring and the readiness and shutdown flags of the two peers.
#[derive(Clone, Copy, Debug, PartialEq, Eq, Structural)]
pub struct DualRingBufferHeader {
    /// Capacity of each of the two rings.
    pub buffer_capacity: usize,
    /// Set by the server once it has attached.
    pub server_ready: bool,
    /// Set by the client once it has attached.
    pub client_ready: bool,
    /// Set when either side closes.
    pub shutdown: bool,
}

impl DualRingBufferHeader {
    /// The header for rings of `buffer_capacity` bytes with every flag clear.
    pub open spec fn new_spec(buffer_capacity: usize) -> DualRingBufferHeader {
        DualRingBufferHeader {
            buffer_capacity,
            server_ready: false,
            client_ready: false,
            shutdown: false,
        }
    }

    /// A header for rings of `buffer_capacity` bytes with every flag clear.
    pub fn new(buffer_capacity: usize) -> (h: DualRingBufferHeader)
        ensures
            h == DualRingBufferHeader::new_spec(buffer_capacity),
            h.buffer_capacity == buffer_capacity,
            !h.server_ready,
            !h.client_ready,
            !h.shutdown,
    {
        DualRingBufferHeader {
            buffer_capacity,
            server_ready: false,
            client_ready: false,
            shutdown: false,
        }
    }
}

/// The segment of the asynchronous shared-memory transport: the header and
/// one ring per direction.
pub struct DualRingChannel {
    /// Capacity and readiness flags.
    pub header: DualRingBufferHeader,
    /// Ring written by the client and read by the server.
    pub client_to_server: RingBuffer,
    /// Ring written by the server and read by the client.
    pub server_to_client: RingBuffer,
}

impl DualRingChannel {
    /// Both rings are well formed and have the capacity the header records.
    pub open spec fn wf(&self) -> bool {
        &&& self.client_to_server.wf()
        &&& self.server_to_client.wf()
        &&& self.client_to_server.spec_capacity() == self.header.buffer_capacity
        &&& self.server_to_client.spec_capacity() == self.header.buffer_capacity
    }

    /// Messages waiting in the ring that `role` writes to.
    pub open spec fn spec_send_queue(&self, role: ConnectionRole) -> Seq<Seq<u8>> {
        match role {
            ConnectionRole::Client => self.client_to_server@,
            ConnectionRole::Server => self.server_to_client@,
        }
    }

    /// Messages waiting in the ring that `role` reads from.
    pub open spec fn spec_receive_queue(&self, role: ConnectionRole) -> Seq<Seq<u8>> {
        match role {
            ConnectionRole::Client => self.server_to_client@,
            ConnectionRole::Server => self.client_to_server@,
        }
    }

    /// Whether the peer of `role` has marked itself ready.
    pub open spec fn spec_peer_ready(&self, role: ConnectionRole) -> bool {
        match role {
            ConnectionRole::Client => self.header.server_ready,
            ConnectionRole::Server => self.header.client_ready,
        }
    }

    /// A new segment: two empty rings of `buffer_capacity` bytes and a
    /// header with every flag clear.
    pub fn new(buffer_capacity: usize) -> (c: DualRingChannel)
        requires
            1 <= buffer_capacity <= max_ring_capacity(),
        ensures
            c.wf(),
            c.header == DualRingBufferHeader::new_spec(buffer_capacity),
            c.client_to_server@ == Seq::<Seq<u8>>::empty(),
            c.server_to_client@ == Seq::<Seq<u8>>::empty(),
    {
        DualRingChannel {
            header: DualRingBufferHeader::new(buffer_capacity),
            client_to_server: RingBuffer::new(buffer_capacity),
            server_to_client: RingBuffer::new(buffer_capacity),
        }
    }

    /// `role` announces that it is ready.
    pub fn mark_ready(&mut self, role: ConnectionRole)
        ensures
            final(self).header.server_ready == (old(self).header.server_ready || role
                == ConnectionRole::Server),
            final(self).header.client_ready == (old(self).header.client_ready || role
                == ConnectionRole::Client),
            final(self).header.shutdown == old(self).header.shutdown,
            final(self).header.buffer_capacity == old(self).header.buffer_capacity,
            final(self).client_to_server == old(self).client_to_server,
            final(self).server_to_client == old(self).server_to_client,
    {
        match role {
            ConnectionRole::Server => self.header.server_ready = true,
            ConnectionRole::Client => self.header.client_ready = true,
        }
    }

    /// Whether the peer of `role` is ready (the condition `role` polls
    /// before exchanging messages).
    pub fn peer_ready(&self, role: ConnectionRole) -> (b: bool)
        ensures
            b == self.spec_peer_ready(role),
    {
        match role {
            ConnectionRole::Client => self.header.server_ready,
            ConnectionRole::Server => self.header.client_ready,
        }
    }

    /// One send attempt of `role`: writes the framed bytes to its ring
    /// (see `RingBuffer::write_data`); the other ring is untouched.
    pub fn send(&mut self, role: ConnectionRole, data: &[u8]) -> (r: Result<(), RingError>)
        requires
            old(self).wf(),
        ensures
            final(self).wf(),
            final(self).header == old(self).header,
            final(self).spec_receive_queue(role) == old(self).spec_receive_queue(role),
            (spec_frames(old(self).spec_send_queue(role)).len() + data@.len() + 4
                >= old(self).header.buffer_capacity) <==> r == Err::<(), RingError>(
                RingError::Full,
            ),
            r is Ok ==> final(self).spec_send_queue(role) == old(self).spec_send_queue(role).push(
                data@,
            ),
            r is Err ==> final(self).spec_send_queue(role) == old(self).spec_send_queue(role),
    {
        match role {
            ConnectionRole::Client => self.client_to_server.write_data(data),
            ConnectionRole::Server => self.server_to_client.write_data(data),
        }
    }

    /// One receive attempt of `role`: reads the oldest frame of its ring
    /// (see `RingBuffer::read_data`); the other ring is untouched.
    pub fn receive(&mut self, role: ConnectionRole) -> (r: Result<Vec<u8>, RingError>)
        requires
            old(self).wf(),
        ensures
            final(self).wf(),
            final(self).header == old(self).header,
            final(self).spec_send_queue(role) == old(self).spec_send_queue(role),
            ({
                let q = old(self).spec_receive_queue(role);
                &&& q.len() == 0 ==> r == Err::<Vec<u8>, RingError>(RingError::NoData)
                &&& q.len() > 0 && q[0].len() == 0 ==> r == Err::<Vec<u8>, RingError>(
                    RingError::InvalidLength(0),
                )
                &&& r is Err ==> final(self).spec_receive_queue(role) == q
                &&& q.len() > 0 && q[0].len() > 0 ==> {
                    &&& r matches Ok(v) && v@ == q[0]
                    &&& final(self).spec_receive_queue(role) == q.subrange(1, q.len() as int)
                }
            }),
    {
        match role {
            ConnectionRole::Client => self.server_to_client.read_data(),
            ConnectionRole::Server => self.client_to_server.read_data(),
        }
    }
}

/// Each side reads from the ring its peer writes to, and a side is ready
/// for its peer exactly when it has marked itself ready.
pub proof fn lemma_dual_ring_roles(c: DualRingChannel)
    ensures
        c.spec_receive_queue(ConnectionRole::Server) == c.spec_send_queue(ConnectionRole::Client),
        c.spec_receive_queue(ConnectionRole::Client) == c.spec_send_queue(ConnectionRole::Server),
        c.spec_peer_ready(ConnectionRole::Server) == c.header.client_ready,
        c.spec_peer_ready(ConnectionRole::Client) == c.header.server_ready,
{
}

/// The single ring of the blocking shared-memory transport together with
/// its readiness and shutdown flags.
pub struct SharedMemoryRingBuffer {
    /// The framed byte ring.
    pub ring: RingBuffer,
    /// Set by the server once it has created the segment.
    pub server_ready: bool,
    /// Set by the client once it has attached.
    pub client_ready: bool,
    /// Set by `close`; wakes and fails every waiter.
    pub shutdown: bool,
}

impl SharedMemoryRingBuffer {
    /// An empty ring of `capacity` bytes with every flag clear.
    pub fn new(capacity: usize) -> (s: SharedMemoryRingBuffer)
        requires
            1 <= capacity <= max_ring_capacity(),
        ensures
            s.ring.wf(),
            s.ring.spec_capacity() == capacity,
            s.ring@ == Seq::<Seq<u8>>::empty(),
            !s.server_ready,
            !s.client_ready,
            !s.shutdown,
    {
        SharedMemoryRingBuffer {
            ring: RingBuffer::new(capacity),
            server_ready: false,
            client_ready: false,
            shutdown: false,
        }
    }

    /// One attempt of the blocking writer: writes the frame when it fits;
    /// otherwise reports `Closed` after shutdown and `WouldBlock` before,
    /// in which case the caller waits for space and tries again.
    pub fn try_write_blocking(&mut self, data: &[u8]) -> (r: Result<(), RingError>)
        requires
            old(self).ring.wf(),
        ensures
            final(self).ring.wf(),
            final(self).ring.spec_capacity() == old(self).ring.spec_capacity(),
            final(self).shutdown == old(self).shutdown,
            final(self).server_ready == old(self).server_ready,
            final(self).client_ready == old(self).client_ready,
            ({
                let fits = spec_frames(old(self).ring@).len() + data@.len() + 4 < old(
                    self,
                ).ring.spec_capacity();
                &&& fits ==> r is Ok && final(self).ring@ == old(self).ring@.push(data@)
                &&& !fits && old(self).shutdown ==> r == Err::<(), RingError>(RingError::Closed)
                &&& !fits && !old(self).shutdown ==> r == Err::<(), RingError>(
                    RingError::WouldBlock,
                )
                &&& !fits ==> final(self).ring@ == old(self).ring@
            }),
    {
        match self.ring.write_data(data) {
            Ok(()) => Ok(()),
            Err(_) => {
                if self.shutdown {
                    Err(RingError::Closed)
                } else {
                    Err(RingError::WouldBlock)
                }
            },
        }
    }

    /// One attempt of the blocking reader: reads the oldest frame when one
    /// is waiting; otherwise reports `Closed` after shutdown and
    /// `WouldBlock` before.
    pub fn try_read_blocking(&mut self) -> (r: Result<Vec<u8>, RingError>)
        requires
            old(self).ring.wf(),
        ensures
            final(self).ring.wf(),
            final(self).ring.spec_capacity() == old(self).ring.spec_capacity(),
            final(self).shutdown == old(self).shutdown,
            final(self).server_ready == old(self).server_ready,
            final(self).client_ready == old(self).client_ready,
            old(self).ring@.len() > 0 ==> {
                &&& r matches Ok(v) && v@ == old(self).ring@[0]
                &&& final(self).ring@ == old(self).ring@.subrange(
                    1,
                    old(self).ring@.len() as int,
                )
            },
            old(self).ring@.len() == 0 && old(self).shutdown ==> r == Err::<Vec<u8>, RingError>(
                RingError::Closed,
            ),
            old(self).ring@.len() == 0 && !old(self).shutdown ==> r == Err::<
                Vec<u8>,
                RingError,
            >(RingError::WouldBlock),
            old(self).ring@.len() == 0 ==> final(self).ring@ == old(self).ring@,
    {
        match self.ring.read_any_frame() {
            Ok(v) => Ok(v),
            Err(_) => {
                if self.shutdown {
                    Err(RingError::Closed)
                } else {
                    Err(RingError::WouldBlock)
                }
            },
        }
    }

    /// Marks the ring shut down; later attempts that would wait fail with
    /// `Closed`.
    pub fn close(&mut self)
        ensures
            final(self).shutdown,
            final(self).ring == old(self).ring,
            final(self).server_ready == old(self).server_ready,
            final(self).client_ready == old(self).client_ready,
    {
        self.shutdown = true;
    }
}

} // verus!
