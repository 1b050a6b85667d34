//! Quad assembly, the demo grid and the shader constants.

use glox::{
    floor_quad, fragment_shader_source, grid_cells, line_quad, shader_sources, shader_version,
    vertex_shader_source, wall_quad, ShaderStage, UV_ONE_BITS, UV_ZERO_BITS,
};

fn bits3(x: f32, y: f32, z: f32) -> [u32; 3] {
    [x.to_bits(), y.to_bits(), z.to_bits()]
}

#[test]
fn uv_constants_are_the_unit_texture_coordinates() {
    assert_eq!(UV_ZERO_BITS, 0.0f32.to_bits());
    assert_eq!(UV_ONE_BITS, 1.0f32.to_bits());
}

#[test]
fn floor_quad_is_two_triangles_with_corner_mapping() {
    // A unit floor quad at (2.5, 3.5, 0): corners at the half-extent 0.5.
    let a = bits3(2.0, 4.0, 0.0);
    let b = bits3(2.0, 3.0, 0.0);
    let c = bits3(3.0, 3.0, 0.0);
    let d = bits3(3.0, 4.0, 0.0);
    let color = [1.0f32.to_bits(); 4];
    let quad = floor_quad(a, b, c, d, color);
    assert_eq!(quad.len(), 6);
    // Triangles a b c and c d a.
    assert_eq!(quad[0].position, a);
    assert_eq!(quad[1].position, b);
    assert_eq!(quad[2].position, c);
    assert_eq!(quad[3].position, c);
    assert_eq!(quad[4].position, d);
    assert_eq!(quad[5].position, a);
    // Corner mapping (0,0), (0,1), (1,1), (1,0).
    assert_eq!(quad[0].uv, [UV_ZERO_BITS, UV_ZERO_BITS]);
    assert_eq!(quad[1].uv, [UV_ZERO_BITS, UV_ONE_BITS]);
    assert_eq!(quad[2].uv, [UV_ONE_BITS, UV_ONE_BITS]);
    assert_eq!(quad[4].uv, [UV_ONE_BITS, UV_ZERO_BITS]);
    for v in quad.iter() {
        assert_eq!(v.color, color);
    }
}

#[test]
fn wall_quad_winding_and_mapping() {
    let bl = bits3(-0.5, 0.0, 0.0);
    let br = bits3(0.5, 0.0, 0.0);
    let tr = bits3(0.5, 0.0, 2.0);
    let tl = bits3(-0.5, 0.0, 2.0);
    let color = [0.5f32.to_bits(); 4];
    let quad = wall_quad(bl, br, tr, tl, color);
    assert_eq!(quad.len(), 6);
    assert_eq!(quad[0].position, bl);
    assert_eq!(quad[1].position, br);
    assert_eq!(quad[2].position, tr);
    assert_eq!(quad[3].position, tr);
    assert_eq!(quad[4].position, tl);
    assert_eq!(quad[5].position, bl);
    // The texture's top row sits at the top of the wall.
    assert_eq!(quad[0].uv, [UV_ZERO_BITS, UV_ONE_BITS]);
    assert_eq!(quad[1].uv, [UV_ONE_BITS, UV_ONE_BITS]);
    assert_eq!(quad[2].uv, [UV_ONE_BITS, UV_ZERO_BITS]);
    assert_eq!(quad[4].uv, [UV_ZERO_BITS, UV_ZERO_BITS]);
}

#[test]
fn line_quad_runs_from_start_edge_to_end_edge() {
    let sl = bits3(0.0, -0.1, 0.0);
    let sr = bits3(0.0, 0.1, 0.0);
    let er = bits3(5.0, 0.1, 0.0);
    let el = bits3(5.0, -0.1, 0.0);
    let color = [0.25f32.to_bits(); 4];
    let quad = line_quad(sl, sr, er, el, color);
    assert_eq!(quad.len(), 6);
    assert_eq!(quad[0].position, sl);
    assert_eq!(quad[1].position, sr);
    assert_eq!(quad[2].position, er);
    assert_eq!(quad[3].position, er);
    assert_eq!(quad[4].position, el);
    assert_eq!(quad[5].position, sl);
    assert_eq!(quad[0].uv, [UV_ZERO_BITS, UV_ZERO_BITS]);
    assert_eq!(quad[1].uv, [UV_ONE_BITS, UV_ZERO_BITS]);
    assert_eq!(quad[2].uv, [UV_ONE_BITS, UV_ONE_BITS]);
    assert_eq!(quad[4].uv, [UV_ZERO_BITS, UV_ONE_BITS]);
}

#[test]
fn grid_cells_enumerates_row_major_checkerboard() {
    let cells = grid_cells(3);
    assert_eq!(cells.len(), 9);
    // Row-major order.
    assert_eq!((cells[0].x, cells[0].y), (0, 0));
    assert_eq!((cells[1].x, cells[1].y), (1, 0));
    assert_eq!((cells[2].x, cells[2].y), (2, 0));
    assert_eq!((cells[3].x, cells[3].y), (0, 1));
    assert_eq!((cells[8].x, cells[8].y), (2, 2));
    // Every second cell drawn is dimmed, starting with the second.
    for (k, cell) in cells.iter().enumerate() {
        assert_eq!(cell.dim, k % 2 == 1);
    }
}

#[test]
fn grid_cells_empty_grid() {
    assert!(grid_cells(0).is_empty());
}

#[test]
fn shader_version_picks_the_dialect() {
    assert_eq!(shader_version(false), "#version 330");
    assert_eq!(shader_version(true), "#version 300 es");
}

#[test]
fn shader_sources_carry_the_two_stages() {
    let sources = shader_sources();
    assert_eq!(sources[0].0, ShaderStage::Vertex);
    assert_eq!(sources[1].0, ShaderStage::Fragment);
    assert_eq!(sources[0].1, vertex_shader_source());
    assert_eq!(sources[1].1, fragment_shader_source());
    // The vertex stage declares the three attributes of the packed layout
    // and the one uniform; the fragment stage discards fully transparent
    // fragments.
    let vs = sources[0].1;
    assert!(vs.contains("layout(location = 0) in vec3 aPos;"));
    assert!(vs.contains("layout(location = 1) in vec4 aColor;"));
    assert!(vs.contains("layout(location = 2) in vec2 aUv;"));
    assert!(vs.contains("uniform mat4 view_projection;"));
    let fs = sources[1].1;
    assert!(fs.contains("uniform sampler2D tex;"));
    assert!(fs.contains("discard;"));
}
