//! The packed vertex format of the renderer.
//!
//! A vertex carries a position (three components), an RGBA color (four
//! components) and a texture coordinate (two components). Each component is
//! held as the 32-bit encoding the graphics pipeline consumes, so the byte
//! image of a vertex is fully determined by plain integer values. The exact
//! layout — component order, little-endian bytes, 36-byte stride — is part of
//! the shader contract and is stated here as a spec.

use vstd::prelude::*;

verus! {

/// Bytes per vertex in the packed attribute layout: nine 32-bit components.
pub const VERTEX_STRIDE: usize = 36;

/// Byte offset of the position attribute within a vertex.
pub const POSITION_OFFSET: usize = 0;

/// Byte offset of the color attribute within a vertex.
pub const COLOR_OFFSET: usize = 12;

/// Byte offset of the texture-coordinate attribute within a vertex.
pub const UV_OFFSET: usize = 28;

/// One vertex of the stream: position, color and texture coordinate, each
/// component as its 32-bit pipeline encoding.
#[derive(Clone, Copy, Debug, PartialEq)]
pub struct Vertex {
    /// x, y, z position components.
    pub position: [u32; 3],
    /// Red, green, blue, alpha color components.
    pub color: [u32; 4],
    /// u, v texture coordinate components.
    pub uv: [u32; 2],
}

impl Vertex {
    /// Builds a vertex from its components; every field reads back exactly
    /// what was passed in.
    pub fn new(position: [u32; 3], color: [u32; 4], uv: [u32; 2]) -> (r: Vertex)
        ensures
            r.position == position,
            r.color == color,
            r.uv == uv,
    {
        Vertex { position, color, uv }
    }
}

/// The four little-endian bytes of a 32-bit component.
pub open spec fn u32_le_bytes(x: u32) -> Seq<u8> {
    seq![
        (x & 0xff) as u8,
        ((x >> 8) & 0xff) as u8,
        ((x >> 16) & 0xff) as u8,
        ((x >> 24) & 0xff) as u8,
    ]
}

/// The 36-byte image of a vertex: position at offset 0, color at offset 12,
/// texture coordinate at offset 28, each component little-endian.
pub open spec fn vertex_bytes(v: Vertex) -> Seq<u8> {
    u32_le_bytes(v.position[0]) + u32_le_bytes(v.position[1]) + u32_le_bytes(v.position[2])
        + u32_le_bytes(v.color[0]) + u32_le_bytes(v.color[1]) + u32_le_bytes(v.color[2])
        + u32_le_bytes(v.color[3]) + u32_le_bytes(v.uv[0]) + u32_le_bytes(v.uv[1])
}

/// The byte image of a whole batch: the vertices' images in order.
pub open spec fn vertices_bytes(vs: Seq<Vertex>) -> Seq<u8>
    decreases vs.len(),
{
    if vs.len() == 0 {
        Seq::empty()
    } else {
        vertices_bytes(vs.drop_last()) + vertex_bytes(vs.last())
    }
}

/// Appends the four little-endian bytes of one component.
fn push_u32_le(out: &mut Vec<u8>, x: u32)
    ensures
        final(out)@ == old(out)@ + u32_le_bytes(x),
{
    out.push((x & 0xff) as u8);
    out.push(((x >> 8) & 0xff) as u8);
    out.push(((x >> 16) & 0xff) as u8);
    out.push(((x >> 24) & 0xff) as u8);
    assert(final(out)@ =~= old(out)@ + u32_le_bytes(x));
}

/// Appends the 36-byte image of one vertex.
pub fn encode_vertex(out: &mut Vec<u8>, v: &Vertex)
    ensures
        final(out)@ == old(out)@ + vertex_bytes(*v),
{
    push_u32_le(out, v.position[0]);
    push_u32_le(out, v.position[1]);
    push_u32_le(out, v.position[2]);
    push_u32_le(out, v.color[0]);
    push_u32_le(out, v.color[1]);
    push_u32_le(out, v.color[2]);
    push_u32_le(out, v.color[3]);
    push_u32_le(out, v.uv[0]);
    push_u32_le(out, v.uv[1]);
    assert(final(out)@ =~= old(out)@ + vertex_bytes(*v));
}

/// The byte image of a batch, as it is uploaded into a vertex buffer.
pub fn encode_vertices(vs: &[Vertex]) -> (r: Vec<u8>)
    ensures
        r@ == vertices_bytes(vs@),
        r@.len() == VERTEX_STRIDE * vs@.len(),
{
    let mut out: Vec<u8> = Vec::new();
    let mut i: usize = 0;
    while i < vs.len()
        invariant
            i <= vs@.len(),
            out@ == vertices_bytes(vs@.subrange(0, i as int)),
            out@.len() == VERTEX_STRIDE * i,
        decreases vs@.len() - i,
    {
        encode_vertex(&mut out, &vs[i]);
        proof {
            assert(vs@.subrange(0, i + 1).drop_last() =~= vs@.subrange(0, i as int));
            assert(vs@.subrange(0, i + 1).last() == vs@[i as int]);
        }
        i = i + 1;
    }
    proof {
        assert(vs@.subrange(0, vs@.len() as int) =~= vs@);
    }
    out
}

/// Layout fidelity: in the byte image of a vertex, the position components
/// stand at `POSITION_OFFSET`, the color components at `COLOR_OFFSET`, the
/// texture coordinate at `UV_OFFSET`, each component four bytes apart — and
/// each is recoverable from those bytes exactly.
pub proof fn lemma_vertex_field_offsets(v: Vertex)
    ensures
        vertex_bytes(v).len() == VERTEX_STRIDE,
        vertex_bytes(v).subrange(POSITION_OFFSET as int, 4) == u32_le_bytes(v.position[0]),
        vertex_bytes(v).subrange(4, 8) == u32_le_bytes(v.position[1]),
        vertex_bytes(v).subrange(8, 12) == u32_le_bytes(v.position[2]),
        vertex_bytes(v).subrange(COLOR_OFFSET as int, 16) == u32_le_bytes(v.color[0]),
        vertex_bytes(v).subrange(16, 20) == u32_le_bytes(v.color[1]),
        vertex_bytes(v).subrange(20, 24) == u32_le_bytes(v.color[2]),
        vertex_bytes(v).subrange(24, 28) == u32_le_bytes(v.color[3]),
        vertex_bytes(v).subrange(UV_OFFSET as int, 32) == u32_le_bytes(v.uv[0]),
        vertex_bytes(v).subrange(32, 36) == u32_le_bytes(v.uv[1]),
{
    assert(vertex_bytes(v).subrange(0, 4) =~= u32_le_bytes(v.position[0]));
    assert(vertex_bytes(v).subrange(4, 8) =~= u32_le_bytes(v.position[1]));
    assert(vertex_bytes(v).subrange(8, 12) =~= u32_le_bytes(v.position[2]));
    assert(vertex_bytes(v).subrange(12, 16) =~= u32_le_bytes(v.color[0]));
    assert(vertex_bytes(v).subrange(16, 20) =~= u32_le_bytes(v.color[1]));
    assert(vertex_bytes(v).subrange(20, 24) =~= u32_le_bytes(v.color[2]));
    assert(vertex_bytes(v).subrange(24, 28) =~= u32_le_bytes(v.color[3]));
    assert(vertex_bytes(v).subrange(28, 32) =~= u32_le_bytes(v.uv[0]));
    assert(vertex_bytes(v).subrange(32, 36) =~= u32_le_bytes(v.uv[1]));
}

} // verus!
