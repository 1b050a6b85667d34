//! Core of a batched quad renderer: a packed vertex format, a triple-buffered
//! append-only vertex stream with wrap-around, a per-draw-call builder
//! protocol, fixed quad geometry, and a mesh-import path.
//!
//! Device bindings and floating-point camera math live outside this crate;
//! everything here works on plain values (cursor arithmetic, byte layout,
//! 32-bit component encodings) and carries a proved contract.

mod draw;
mod grid;
mod header_scan;
mod ply_import;
mod primitives;
mod shader;
mod stream;
mod vertex;

pub use draw::lemma_exact_fill_reaches_capacity;
pub use draw::lemma_push_into_full_buffer_wraps;
pub use draw::lemma_unwrapped_scope_draws_its_pushes;
pub use draw::push_offset;
pub use draw::push_wraps;
pub use draw::white_texture_texels;
pub use draw::write_range;
pub use draw::DrawBuilder;
pub use draw::DrawCall;

pub use header_scan::check_header_decimals;
pub use header_scan::element_keyword;
pub use header_scan::end_header_keyword;
pub use header_scan::format_keyword;
pub use header_scan::header_decimals_fit;
pub use header_scan::header_scan_from;
pub use header_scan::is_digit_byte;
pub use header_scan::line_digits_fit;
pub use header_scan::line_end;
pub use header_scan::newline_byte;
pub use header_scan::run_end;
pub use header_scan::run_value;
pub use header_scan::runs_fit_from;
pub use header_scan::starts_with_at;

pub use grid::grid_cell_at;
pub use grid::grid_cells;
pub use grid::GridCell;

pub use ply_import::assemble_spec;
pub use ply_import::assemble_triangles;
pub use ply_import::face_resolves;
pub use ply_import::face_vertices;
pub use ply_import::lemma_assemble_len_multiple_of_three;
pub use ply_import::ply_face_recs;
pub use ply_import::ply_parse_ok;
pub use ply_import::ply_vertex_recs;
pub use ply_import::ply_vertices;
pub use ply_import::vertex_rec_complete;
pub use ply_import::vertex_rec_value;
pub use ply_import::PlyFaceRec;
pub use ply_import::PlyVertex;
pub use ply_import::PlyVertexRec;

pub use primitives::floor_quad;
pub use primitives::line_quad;
pub use primitives::quad_seq;
pub use primitives::quad_vertices;
pub use primitives::wall_quad;
pub use primitives::UV_ONE_BITS;
pub use primitives::UV_ZERO_BITS;

pub use shader::fragment_shader_source;
pub use shader::fragment_shader_source_view;
pub use shader::shader_sources;
pub use shader::shader_version;
pub use shader::vertex_shader_source;
pub use shader::vertex_shader_source_view;
pub use shader::ShaderStage;

pub use stream::Glox;
pub use stream::DEFAULT_VERTEX_BUFFER_LEN;
pub use stream::VERTEX_BUFFER_COUNT;

pub use vertex::encode_vertex;
pub use vertex::encode_vertices;
pub use vertex::lemma_vertex_field_offsets;
pub use vertex::u32_le_bytes;
pub use vertex::vertex_bytes;
pub use vertex::vertices_bytes;
pub use vertex::Vertex;
pub use vertex::COLOR_OFFSET;
pub use vertex::POSITION_OFFSET;
pub use vertex::UV_OFFSET;
pub use vertex::VERTEX_STRIDE;
