//! The mesh-import path, run against the real PLY parser, and the verified
//! triangle assembly on plain records.

use glox::{
    assemble_triangles, check_header_decimals, ply_vertices, PlyFaceRec, PlyVertex, PlyVertexRec,
};

fn header(vertex_count: usize, face_count: usize) -> String {
    format!(
        "ply\n\
         format ascii 1.0\n\
         element vertex {}\n\
         property float x\n\
         property float y\n\
         property float z\n\
         property uchar red\n\
         property uchar green\n\
         property uchar blue\n\
         property uchar alpha\n\
         element face {}\n\
         property list uchar uint vertex_indices\n\
         end_header\n",
        vertex_count, face_count
    )
}

#[test]
fn single_triangle_imports_exactly() {
    let source = format!(
        "{}0 0 0 255 0 0 255\n1.5 0 0 0 255 0 255\n0 2.25 0 0 0 255 128\n3 0 1 2\n",
        header(3, 1)
    );
    let vertices = ply_vertices(&source).expect("well-formed triangle should import");
    assert_eq!(vertices.len(), 3);
    assert_eq!(vertices[0].x_bits, 0.0f32.to_bits());
    assert_eq!(vertices[0].red, 255);
    assert_eq!(vertices[0].alpha, 255);
    assert_eq!(vertices[1].x_bits, 1.5f32.to_bits());
    assert_eq!(vertices[1].green, 255);
    assert_eq!(vertices[2].y_bits, 2.25f32.to_bits());
    assert_eq!(vertices[2].blue, 255);
    assert_eq!(vertices[2].alpha, 128);
}

#[test]
fn face_order_and_shared_vertices() {
    let source = format!(
        "{}0 0 0 1 2 3 4\n1 0 0 5 6 7 8\n0 1 0 9 10 11 12\n1 1 0 13 14 15 16\n3 0 1 2\n3 2 1 3\n",
        header(4, 2)
    );
    let vertices = ply_vertices(&source).expect("two triangles should import");
    assert_eq!(vertices.len(), 6);
    // First face 0 1 2, second face 2 1 3, in face order.
    assert_eq!(vertices[0].red, 1);
    assert_eq!(vertices[1].red, 5);
    assert_eq!(vertices[2].red, 9);
    assert_eq!(vertices[3].red, 9);
    assert_eq!(vertices[4].red, 5);
    assert_eq!(vertices[5].red, 13);
}

#[test]
fn non_triangular_face_is_skipped() {
    let source = format!(
        "{}0 0 0 1 1 1 1\n1 0 0 1 1 1 1\n0 1 0 1 1 1 1\n1 1 0 1 1 1 1\n4 0 1 2 3\n3 0 1 2\n",
        header(4, 2)
    );
    let vertices = ply_vertices(&source).expect("quad skipped, triangle kept");
    assert_eq!(vertices.len(), 3);
}

#[test]
fn out_of_range_index_aborts_import() {
    let source = format!("{}0 0 0 1 1 1 1\n1 0 0 1 1 1 1\n0 1 0 1 1 1 1\n3 0 1 7\n", header(3, 1));
    assert_eq!(ply_vertices(&source), Err(()));
}

#[test]
fn missing_alpha_property_aborts_import() {
    let source = "ply\n\
                  format ascii 1.0\n\
                  element vertex 3\n\
                  property float x\n\
                  property float y\n\
                  property float z\n\
                  property uchar red\n\
                  property uchar green\n\
                  property uchar blue\n\
                  element face 1\n\
                  property list uchar uint vertex_indices\n\
                  end_header\n\
                  0 0 0 1 1 1\n\
                  1 0 0 1 1 1\n\
                  0 1 0 1 1 1\n\
                  3 0 1 2\n";
    assert_eq!(ply_vertices(source), Err(()));
}

#[test]
fn face_without_vertex_indices_aborts_import() {
    let source = "ply\n\
                  format ascii 1.0\n\
                  element vertex 3\n\
                  property float x\n\
                  property float y\n\
                  property float z\n\
                  property uchar red\n\
                  property uchar green\n\
                  property uchar blue\n\
                  property uchar alpha\n\
                  element face 1\n\
                  property uchar kind\n\
                  end_header\n\
                  0 0 0 1 1 1 1\n\
                  1 0 0 1 1 1 1\n\
                  0 1 0 1 1 1 1\n\
                  7\n";
    assert_eq!(ply_vertices(source), Err(()));
}

#[test]
fn signed_index_list_is_not_an_index_list() {
    // The list is typed `int`, not `uint`: such a face is skipped, it is
    // not an error.
    let source = "ply\n\
                  format ascii 1.0\n\
                  element vertex 3\n\
                  property float x\n\
                  property float y\n\
                  property float z\n\
                  property uchar red\n\
                  property uchar green\n\
                  property uchar blue\n\
                  property uchar alpha\n\
                  element face 1\n\
                  property list uchar int vertex_indices\n\
                  end_header\n\
                  0 0 0 1 1 1 1\n\
                  1 0 0 1 1 1 1\n\
                  0 1 0 1 1 1 1\n\
                  3 0 1 2\n";
    let vertices = ply_vertices(source).expect("skipped face leaves an empty import");
    assert!(vertices.is_empty());
}

#[test]
fn missing_element_lists_abort_import() {
    // No face element at all.
    let source = "ply\n\
                  format ascii 1.0\n\
                  element vertex 1\n\
                  property float x\n\
                  property float y\n\
                  property float z\n\
                  property uchar red\n\
                  property uchar green\n\
                  property uchar blue\n\
                  property uchar alpha\n\
                  end_header\n\
                  0 0 0 1 1 1 1\n";
    assert_eq!(ply_vertices(source), Err(()));
}

#[test]
fn malformed_document_aborts_import() {
    assert_eq!(ply_vertices("not a ply file"), Err(()));
    assert_eq!(ply_vertices(""), Err(()));
}

#[test]
fn oversized_element_count_aborts_import() {
    // A count beyond 64 bits would abort inside the parser's header
    // grammar; the guard turns it into the normal import error.
    let source = "ply\nformat ascii 1.0\nelement vertex 99999999999999999999\nend_header\n";
    assert_eq!(ply_vertices(source), Err(()));
}

#[test]
fn oversized_format_version_aborts_import() {
    let source = "ply\nformat ascii 99999999999999999999.0\nelement vertex 0\nend_header\n";
    assert_eq!(ply_vertices(source), Err(()));
}

#[test]
fn leading_zeros_in_counts_still_import() {
    // A long digit run whose value is small fits 64 bits: the guard lets it
    // through and the parser reads the count as three.
    let source = format!(
        "ply\n\
         format ascii 1.0\n\
         element vertex 000000000000000000000003\n\
         property float x\n\
         property float y\n\
         property float z\n\
         property uchar red\n\
         property uchar green\n\
         property uchar blue\n\
         property uchar alpha\n\
         element face 1\n\
         property list uchar uint vertex_indices\n\
         end_header\n\
         0 0 0 1 1 1 1\n\
         1 0 0 1 1 1 1\n\
         0 1 0 1 1 1 1\n\
         3 0 1 2\n"
    );
    let vertices = ply_vertices(&source).expect("leading zeros keep the count small");
    assert_eq!(vertices.len(), 3);
}

#[test]
fn huge_digit_runs_in_comments_are_not_guarded() {
    // Only `element` and `format` header lines feed counts to the parser's
    // grammar; a comment may carry any digits.
    let source = format!(
        "ply\n\
         format ascii 1.0\n\
         comment 999999999999999999999999999999\n\
         {}0 0 0 1 1 1 1\n\
         1 0 0 1 1 1 1\n\
         0 1 0 1 1 1 1\n\
         3 0 1 2\n",
        "element vertex 3\n\
         property float x\n\
         property float y\n\
         property float z\n\
         property uchar red\n\
         property uchar green\n\
         property uchar blue\n\
         property uchar alpha\n\
         element face 1\n\
         property list uchar uint vertex_indices\n\
         end_header\n"
    );
    let vertices = ply_vertices(&source).expect("comments are not guarded");
    assert_eq!(vertices.len(), 3);
}

#[test]
fn header_guard_boundary_is_exactly_64_bits() {
    // The largest 64-bit count passes the guard; one more is rejected.
    assert!(check_header_decimals("element vertex 18446744073709551615\nend_header\n"));
    assert!(!check_header_decimals("element vertex 18446744073709551616\nend_header\n"));
    assert!(!check_header_decimals("format ascii 99999999999999999999.0\nend_header\n"));
    // Digit runs after the first end_header line are payload, not header.
    assert!(check_header_decimals("end_header\nelement vertex 99999999999999999999\n"));
    assert!(check_header_decimals(""));
}

#[test]
fn empty_face_list_imports_nothing() {
    let source = format!("{}0 0 0 1 1 1 1\n", header(1, 0));
    let vertices = ply_vertices(&source).expect("no faces, no triangles");
    assert!(vertices.is_empty());
}

fn complete_rec(tag: u8) -> PlyVertexRec {
    PlyVertexRec {
        x: Some(1.0f32.to_bits()),
        y: Some(2.0f32.to_bits()),
        z: Some(3.0f32.to_bits()),
        red: Some(tag),
        green: Some(2),
        blue: Some(3),
        alpha: Some(4),
    }
}

#[test]
fn assemble_keeps_triangles_and_skips_non_lists() {
    let vertex_recs = vec![complete_rec(10), complete_rec(20), complete_rec(30)];
    let face_recs = vec![
        PlyFaceRec::NotIndexList,
        PlyFaceRec::Indices(vec![2, 1, 0]),
        PlyFaceRec::Indices(vec![0, 1]),
    ];
    let out = assemble_triangles(&vertex_recs, &face_recs).expect("one triangle");
    assert_eq!(out.len(), 3);
    assert_eq!(out[0].red, 30);
    assert_eq!(out[1].red, 20);
    assert_eq!(out[2].red, 10);
    assert_eq!(
        out[0],
        PlyVertex {
            x_bits: 1.0f32.to_bits(),
            y_bits: 2.0f32.to_bits(),
            z_bits: 3.0f32.to_bits(),
            red: 30,
            green: 2,
            blue: 3,
            alpha: 4,
        }
    );
}

#[test]
fn assemble_aborts_on_incomplete_vertex() {
    let mut rec = complete_rec(1);
    rec.alpha = None;
    let vertex_recs = vec![complete_rec(0), rec, complete_rec(2)];
    let face_recs = vec![PlyFaceRec::Indices(vec![0, 1, 2])];
    assert_eq!(assemble_triangles(&vertex_recs, &face_recs), Err(()));
}

#[test]
fn assemble_aborts_on_missing_property_even_after_good_faces() {
    let vertex_recs = vec![complete_rec(0), complete_rec(1), complete_rec(2)];
    let face_recs = vec![PlyFaceRec::Indices(vec![0, 1, 2]), PlyFaceRec::Missing];
    assert_eq!(assemble_triangles(&vertex_recs, &face_recs), Err(()));
}
