//! The per-draw-call builder protocol.
//!
//! A builder is opened against the stream, appends vertex batches at the
//! positions the wrap rule dictates, and is consumed by `build`, which
//! yields the one triangle-list draw call of the scope: the first vertex
//! index and the number of vertices appended. A consumed builder cannot be
//! reused. The scope carries a ghost history of what it pushed; as long as
//! no push wrapped, the draw call's range holds exactly that history.

use vstd::prelude::*;

use crate::stream::Glox;
use crate::vertex::Vertex;

verus! {

/// Whether writing `n` more vertices at `cursor` would run past a buffer of
/// `capacity` vertices, so the cursor wraps to the start before the write.
pub open spec fn push_wraps(cursor: int, capacity: int, n: int) -> bool {
    cursor + n > capacity
}

/// The vertex slot a batch of `n` vertices is written at: the cursor, or the
/// start of the buffer when the batch would run past the end.
pub open spec fn push_offset(cursor: int, capacity: int, n: int) -> int {
    if push_wraps(cursor, capacity, n) {
        0
    } else {
        cursor
    }
}

/// A buffer after a batch is written into it at `offset`: the batch's
/// vertices in the slots `offset .. offset + batch.len()`, every other slot
/// untouched. On a wrap this is what silently overwrites the start of the
/// buffer.
pub open spec fn write_range(buffer: Seq<Vertex>, offset: int, batch: Seq<Vertex>) -> Seq<
    Vertex,
> {
    Seq::new(
        buffer.len(),
        |j: int|
            if offset <= j < offset + batch.len() {
                batch[j - offset]
            } else {
                buffer[j]
            },
    )
}

/// The draw call a finished builder issues: a triangle list covering the
/// vertices `first .. first + count` of the buffer the scope wrote into.
pub struct DrawCall {
    /// Index of the first vertex covered.
    pub first: usize,
    /// Number of vertices covered.
    pub count: usize,
}

/// An open draw scope: the starting vertex index of the scope and the number
/// of vertices appended so far, with a ghost history of the appended
/// vertices.
pub struct DrawBuilder {
    /// Write cursor of the stream when the scope was opened.
    pub first: usize,
    /// Running count of appended vertices.
    pub count: usize,
    /// Ghost history: every vertex pushed in this scope, in order.
    pub pushed: Ghost<Seq<Vertex>>,
    /// Ghost flag: whether any push of this scope wrapped.
    pub wrapped: Ghost<bool>,
}

impl DrawBuilder {
    /// The scope's agreement with the stream it writes into: while no push
    /// has wrapped, the scope's range ends at the stream's cursor and the
    /// current buffer holds the pushed history in that range.
    pub open spec fn scope_wf(self, renderer: Glox) -> bool {
        &&& renderer.wf()
        &&& !self.wrapped@ ==> {
            &&& self.first + self.count == renderer.vertex_buffer_vertex_index
            &&& self.count == self.pushed@.len()
            &&& renderer.buffers@[renderer.vertex_buffer_current as int].subrange(
                self.first as int,
                self.first + self.count,
            ) == self.pushed@
        }
    }

    /// Opens a draw scope at the stream's current write cursor.
    pub fn new(renderer: &Glox) -> (r: DrawBuilder)
        ensures
            r.first == renderer.vertex_buffer_vertex_index,
            r.count == 0,
            r.pushed@ == Seq::<Vertex>::empty(),
            !r.wrapped@,
            renderer.wf() ==> r.scope_wf(*renderer),
    {
        let r = DrawBuilder {
            first: renderer.vertex_buffer_vertex_index,
            count: 0,
            pushed: Ghost(Seq::empty()),
            wrapped: Ghost(false),
        };
        proof {
            if renderer.wf() {
                assert(renderer.buffers@[renderer.vertex_buffer_current as int].subrange(
                    r.first as int,
                    r.first as int,
                ) =~= Seq::<Vertex>::empty());
            }
        }
        r
    }

    /// Appends a batch: wraps the cursor to the start of the current buffer
    /// if the batch would run past its end, then writes the batch at the
    /// returned vertex index and advances the cursor. The caller uploads the
    /// batch's byte image (`encode_vertices`) at that index times the
    /// stride.
    ///
    /// A batch larger than a whole buffer is ruled out up front: wrapping
    /// could not make it fit either, and the cursor would run past the
    /// capacity.
    pub fn push_vertices(&mut self, renderer: &mut Glox, vertices: &[Vertex]) -> (offset: usize)
        requires
            old(renderer).wf(),
            vertices@.len() <= old(renderer).vertex_buffer_len,
            old(self).count + vertices@.len() <= usize::MAX,
        ensures
            offset == push_offset(
                old(renderer).vertex_buffer_vertex_index as int,
                old(renderer).vertex_buffer_len as int,
                vertices@.len() as int,
            ),
            final(renderer).vertex_buffer_vertex_index == offset + vertices@.len(),
            final(renderer).vertex_buffer_len == old(renderer).vertex_buffer_len,
            final(renderer).vertex_buffer_current == old(renderer).vertex_buffer_current,
            final(renderer).buffers@ == old(renderer).buffers@.update(
                old(renderer).vertex_buffer_current as int,
                write_range(
                    old(renderer).buffers@[old(renderer).vertex_buffer_current as int],
                    offset as int,
                    vertices@,
                ),
            ),
            final(renderer).wf(),
            final(self).first == old(self).first,
            final(self).count == old(self).count + vertices@.len(),
            final(self).pushed@ == old(self).pushed@ + vertices@,
            final(self).wrapped@ == (old(self).wrapped@ || push_wraps(
                old(renderer).vertex_buffer_vertex_index as int,
                old(renderer).vertex_buffer_len as int,
                vertices@.len() as int,
            )),
            old(self).scope_wf(*old(renderer)) ==> final(self).scope_wf(*final(renderer)),
    {
        let ghost old_stream: Glox = *renderer;
        let ghost old_scope: DrawBuilder = *self;
        let n = vertices.len();
        let wraps_now: bool = n > renderer.vertex_buffer_len - renderer.vertex_buffer_vertex_index;
        if wraps_now {
            renderer.vertex_buffer_vertex_index = 0;
        }
        let offset = renderer.vertex_buffer_vertex_index;
        renderer.vertex_buffer_vertex_index = offset + n;
        self.count = self.count + n;
        proof {
            let cur = renderer.vertex_buffer_current as int;
            renderer.buffers@ = renderer.buffers@.update(
                cur,
                write_range(renderer.buffers@[cur], offset as int, vertices@),
            );
            self.pushed@ = self.pushed@ + vertices@;
            self.wrapped@ = self.wrapped@ || wraps_now;
            if old_scope.scope_wf(old_stream) && !self.wrapped@ {
                let buffer = old_stream.buffers@[cur];
                let first = self.first as int;
                let count = old_scope.count as int;
                assert(write_range(buffer, offset as int, vertices@).subrange(
                    first,
                    first + count + n,
                ) =~= buffer.subrange(first, first + count) + vertices@);
            }
        }
        offset
    }

    /// Finishes the scope, consuming the builder, and returns the one draw
    /// call it stands for.
    pub fn build(self) -> (r: DrawCall)
        ensures
            r.first == self.first,
            r.count == self.count,
    {
        DrawCall { first: self.first, count: self.count }
    }
}

impl Glox {
    /// Opens a draw scope against this stream.
    pub fn draw_builder(&self) -> (r: DrawBuilder)
        ensures
            r.first == self.vertex_buffer_vertex_index,
            r.count == 0,
            r.pushed@ == Seq::<Vertex>::empty(),
            !r.wrapped@,
            self.wf() ==> r.scope_wf(*self),
    {
        DrawBuilder::new(self)
    }
}

/// The texel image of the default texture a scope binds when none is given:
/// a single opaque white RGBA texel, so untextured geometry renders through
/// the texture × color multiply unchanged.
pub fn white_texture_texels() -> (r: Vec<u8>)
    ensures
        r@ =~= seq![255u8, 255u8, 255u8, 255u8],
{
    let mut texels: Vec<u8> = Vec::new();
    texels.push(255);
    texels.push(255);
    texels.push(255);
    texels.push(255);
    texels
}

/// Law: a batch that exactly fills the remaining capacity of the buffer does
/// not wrap, is written at the cursor, and leaves the cursor at the capacity.
pub proof fn lemma_exact_fill_reaches_capacity(cursor: int, capacity: int, n: int)
    requires
        0 <= cursor <= capacity,
        cursor + n == capacity,
    ensures
        !push_wraps(cursor, capacity, n),
        push_offset(cursor, capacity, n) == cursor,
        push_offset(cursor, capacity, n) + n == capacity,
{
}

/// Law: with the cursor at the capacity, any non-empty batch wraps and is
/// written at the start of the buffer.
pub proof fn lemma_push_into_full_buffer_wraps(capacity: int, n: int)
    requires
        n >= 1,
    ensures
        push_wraps(capacity, capacity, n),
        push_offset(capacity, capacity, n) == 0,
{
}

/// Law: a scope none of whose pushes wrapped draws exactly what it pushed —
/// the slots `first .. first + count` of the active buffer hold the pushed
/// batches in order, and the draw call covers all of them.
pub proof fn lemma_unwrapped_scope_draws_its_pushes(scope: DrawBuilder, renderer: Glox)
    requires
        scope.scope_wf(renderer),
        !scope.wrapped@,
    ensures
        scope.count == scope.pushed@.len(),
        renderer.buffers@[renderer.vertex_buffer_current as int].subrange(
            scope.first as int,
            scope.first + scope.count,
        ) == scope.pushed@,
{
}

} // verus!
