//! The renderer's vertex-stream state: a ring of three equally sized vertex
//! buffers, a current-buffer index and a write cursor.
//!
//! The buffers themselves live on the device; this state decides where every
//! batch is written (including the silent wrap to the start of the buffer
//! when a batch would run past its end) and which buffer a frame writes
//! into. A ghost mirror of the buffers' contents tracks what the protocol
//! has directed to be written where, so contracts can speak of the data a
//! draw call covers — and of the data a wrap overwrites.

use vstd::prelude::*;

use crate::vertex::Vertex;

verus! {

/// Number of buffers in the ring. Rotating across three buffers tolerates up
/// to two frames of device lag without write-after-read hazards.
pub const VERTEX_BUFFER_COUNT: usize = 3;

/// Default capacity of each buffer, in vertices.
pub const DEFAULT_VERTEX_BUFFER_LEN: usize = 1024 * 1024;

/// The renderer core. It owns the ring-buffer bookkeeping: how many vertices
/// each buffer holds, which buffer is being written this frame, and the next
/// free vertex slot in it.
pub struct Glox {
    /// Capacity of each vertex buffer, in vertices.
    pub vertex_buffer_len: usize,
    /// Index of the buffer written this frame; always below
    /// `VERTEX_BUFFER_COUNT`.
    pub vertex_buffer_current: usize,
    /// Write cursor: the next free vertex slot of the current buffer; never
    /// beyond the capacity.
    pub vertex_buffer_vertex_index: usize,
    /// Ghost mirror of the ring's buffers: what the protocol has directed to
    /// be written into each slot of each buffer.
    pub buffers: Ghost<Seq<Seq<Vertex>>>,
}

impl Glox {
    /// The stream invariant: the current index names one of the ring's
    /// buffers, the write cursor lies within the buffer, and the mirror has
    /// one content sequence per buffer, each of the buffer's capacity.
    pub open spec fn wf(self) -> bool {
        &&& self.vertex_buffer_current < VERTEX_BUFFER_COUNT
        &&& self.vertex_buffer_vertex_index <= self.vertex_buffer_len
        &&& self.buffers@.len() == VERTEX_BUFFER_COUNT
        &&& forall|i: int|
            0 <= i < self.buffers@.len() ==> (#[trigger] self.buffers@[i]).len()
                == self.vertex_buffer_len
    }

    /// Prepares the stream for a session with buffers of the given capacity,
    /// writing from the start of the first buffer. Nothing is stated of the
    /// buffers' initial contents: freshly created device buffers hold
    /// whatever the device gave out.
    pub fn init_with_len(&mut self, capacity: usize)
        ensures
            final(self).vertex_buffer_len == capacity,
            final(self).vertex_buffer_current == 0,
            final(self).vertex_buffer_vertex_index == 0,
            final(self).wf(),
    {
        self.vertex_buffer_len = capacity;
        self.vertex_buffer_current = 0;
        self.vertex_buffer_vertex_index = 0;
        self.buffers = Ghost(
            Seq::new(
                VERTEX_BUFFER_COUNT as nat,
                |i: int|
                    Seq::new(
                        capacity as nat,
                        |j: int| Vertex { position: [0, 0, 0], color: [0, 0, 0, 0], uv: [0, 0] },
                    ),
            ),
        );
    }

    /// Prepares the stream for a session: buffers of the default capacity,
    /// writing from the start of the first buffer.
    pub fn init(&mut self)
        ensures
            final(self).vertex_buffer_len == DEFAULT_VERTEX_BUFFER_LEN,
            final(self).vertex_buffer_current == 0,
            final(self).vertex_buffer_vertex_index == 0,
            final(self).wf(),
    {
        self.init_with_len(DEFAULT_VERTEX_BUFFER_LEN);
    }

    /// End of frame: resets the write cursor and advances to the next buffer
    /// of the ring, so the device may keep reading the buffer just
    /// submitted. The buffers' contents stay as they are — the next frame
    /// overwrites the next buffer from the start.
    pub fn swap(&mut self)
        requires
            old(self).wf(),
        ensures
            final(self).vertex_buffer_vertex_index == 0,
            final(self).vertex_buffer_current == (old(self).vertex_buffer_current + 1)
                % (VERTEX_BUFFER_COUNT as int),
            final(self).vertex_buffer_len == old(self).vertex_buffer_len,
            final(self).buffers == old(self).buffers,
            final(self).wf(),
    {
        self.vertex_buffer_vertex_index = 0;
        self.vertex_buffer_current = (self.vertex_buffer_current + 1) % VERTEX_BUFFER_COUNT;
    }
}

impl Default for Glox {
    /// An empty stream: zero capacity, first buffer, cursor at the start.
    fn default() -> (r: Glox)
        ensures
            r.vertex_buffer_len == 0,
            r.vertex_buffer_current == 0,
            r.vertex_buffer_vertex_index == 0,
            r.wf(),
    {
        Glox {
            vertex_buffer_len: 0,
            vertex_buffer_current: 0,
            vertex_buffer_vertex_index: 0,
            buffers: Ghost(Seq::new(VERTEX_BUFFER_COUNT as nat, |i: int| Seq::empty())),
        }
    }
}

} // verus!
