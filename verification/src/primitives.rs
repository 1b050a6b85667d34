//! Quad geometry: every primitive of the renderer is one quad, emitted as
//! two triangles — six vertices in a fixed winding with per-primitive corner
//! texture coordinates. The corner positions themselves are computed by the
//! caller; this module fixes the vertex order, the texture mapping and the
//! shared color, exactly.

use vstd::prelude::*;

use crate::vertex::Vertex;

verus! {

/// 32-bit encoding of the texture coordinate zero.
pub const UV_ZERO_BITS: u32 = 0;

/// 32-bit encoding of the texture coordinate one.
pub const UV_ONE_BITS: u32 = 0x3f80_0000;

/// The six vertices of a quad with corners `c0, c1, c2, c3` (in winding
/// order) and per-corner texture coordinates: the triangles
/// `c0 c1 c2` and `c2 c3 c0`.
pub open spec fn quad_seq(
    c0: [u32; 3],
    c1: [u32; 3],
    c2: [u32; 3],
    c3: [u32; 3],
    uv0: [u32; 2],
    uv1: [u32; 2],
    uv2: [u32; 2],
    uv3: [u32; 2],
    color: [u32; 4],
) -> Seq<Vertex> {
    seq![
        Vertex { position: c0, color, uv: uv0 },
        Vertex { position: c1, color, uv: uv1 },
        Vertex { position: c2, color, uv: uv2 },
        Vertex { position: c2, color, uv: uv2 },
        Vertex { position: c3, color, uv: uv3 },
        Vertex { position: c0, color, uv: uv0 },
    ]
}

/// Emits the two triangles of a quad: exactly six vertices, all with the
/// given color, corners in winding order.
pub fn quad_vertices(
    c0: [u32; 3],
    c1: [u32; 3],
    c2: [u32; 3],
    c3: [u32; 3],
    uv0: [u32; 2],
    uv1: [u32; 2],
    uv2: [u32; 2],
    uv3: [u32; 2],
    color: [u32; 4],
) -> (r: Vec<Vertex>)
    ensures
        r@ == quad_seq(c0, c1, c2, c3, uv0, uv1, uv2, uv3, color),
        r@.len() == 6,
{
    let mut out: Vec<Vertex> = Vec::new();
    out.push(Vertex::new(c0, color, uv0));
    out.push(Vertex::new(c1, color, uv1));
    out.push(Vertex::new(c2, color, uv2));
    out.push(Vertex::new(c2, color, uv2));
    out.push(Vertex::new(c3, color, uv3));
    out.push(Vertex::new(c0, color, uv0));
    proof {
        assert(out@ =~= quad_seq(c0, c1, c2, c3, uv0, uv1, uv2, uv3, color));
    }
    out
}

/// A floor quad: an axis-aligned quad in a horizontal plane. The corners are
/// passed in winding order `a, b, c, d`, where `a` carries texture
/// coordinate (0,0), `b` (0,1), `c` (1,1) and `d` (1,0).
pub fn floor_quad(a: [u32; 3], b: [u32; 3], c: [u32; 3], d: [u32; 3], color: [u32; 4]) -> (r: Vec<
    Vertex,
>)
    ensures
        r@ == quad_seq(
            a,
            b,
            c,
            d,
            [UV_ZERO_BITS, UV_ZERO_BITS],
            [UV_ZERO_BITS, UV_ONE_BITS],
            [UV_ONE_BITS, UV_ONE_BITS],
            [UV_ONE_BITS, UV_ZERO_BITS],
            color,
        ),
        r@.len() == 6,
{
    quad_vertices(
        a,
        b,
        c,
        d,
        [UV_ZERO_BITS, UV_ZERO_BITS],
        [UV_ZERO_BITS, UV_ONE_BITS],
        [UV_ONE_BITS, UV_ONE_BITS],
        [UV_ONE_BITS, UV_ZERO_BITS],
        color,
    )
}

/// An upright quad (walls and billboards): corners bottom-left, bottom-right,
/// top-right, top-left, with the texture's top row at the top of the quad —
/// (0,1), (1,1), (1,0), (0,0).
pub fn wall_quad(
    bottom_left: [u32; 3],
    bottom_right: [u32; 3],
    top_right: [u32; 3],
    top_left: [u32; 3],
    color: [u32; 4],
) -> (r: Vec<Vertex>)
    ensures
        r@ == quad_seq(
            bottom_left,
            bottom_right,
            top_right,
            top_left,
            [UV_ZERO_BITS, UV_ONE_BITS],
            [UV_ONE_BITS, UV_ONE_BITS],
            [UV_ONE_BITS, UV_ZERO_BITS],
            [UV_ZERO_BITS, UV_ZERO_BITS],
            color,
        ),
        r@.len() == 6,
{
    quad_vertices(
        bottom_left,
        bottom_right,
        top_right,
        top_left,
        [UV_ZERO_BITS, UV_ONE_BITS],
        [UV_ONE_BITS, UV_ONE_BITS],
        [UV_ONE_BITS, UV_ZERO_BITS],
        [UV_ZERO_BITS, UV_ZERO_BITS],
        color,
    )
}

/// A line ribbon quad: corners start-left, start-right, end-right, end-left,
/// with the texture running from the start edge — (0,0), (1,0), (1,1), (0,1).
pub fn line_quad(
    start_left: [u32; 3],
    start_right: [u32; 3],
    end_right: [u32; 3],
    end_left: [u32; 3],
    color: [u32; 4],
) -> (r: Vec<Vertex>)
    ensures
        r@ == quad_seq(
            start_left,
            start_right,
            end_right,
            end_left,
            [UV_ZERO_BITS, UV_ZERO_BITS],
            [UV_ONE_BITS, UV_ZERO_BITS],
            [UV_ONE_BITS, UV_ONE_BITS],
            [UV_ZERO_BITS, UV_ONE_BITS],
            color,
        ),
        r@.len() == 6,
{
    quad_vertices(
        start_left,
        start_right,
        end_right,
        end_left,
        [UV_ZERO_BITS, UV_ZERO_BITS],
        [UV_ONE_BITS, UV_ZERO_BITS],
        [UV_ONE_BITS, UV_ONE_BITS],
        [UV_ZERO_BITS, UV_ONE_BITS],
        color,
    )
}

} // verus!
