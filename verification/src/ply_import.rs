//! Mesh import from the PLY triangle-mesh format.
//!
//! The document is parsed, and its elements read, by the ply_rs crate behind
//! a small trusted surface whose outcome is named per source text; the
//! assembly of triangles from the records read is verified, and the import's
//! contract says exactly when it succeeds. A document must carry a `face`
//! and a `vertex` element. Each face
//! whose `vertex_indices` property is a list of exactly three unsigned
//! indices contributes one triangle; a face list of any other length is
//! skipped, as is a `vertex_indices` property of another list type. A face
//! without `vertex_indices`, an index beyond the vertex list, or a vertex
//! missing one of the `x`, `y`, `z`, `red`, `green`, `blue`, `alpha`
//! properties aborts the whole import: the result is everything or nothing.
//!
//! Positions are handed on as the 32-bit component encodings the file
//! carries; color channels stay the file's 0–255 bytes, scaled by the
//! consumer of the mesh. Before any text reaches the parser, the header
//! guard rejects the headers the parser would abort on instead of failing
//! cleanly.

use vstd::prelude::*;
use vstd::string::StringSliceAdditionalSpecFns;

verus! {

/// One imported vertex, repeated per triangle corner: position components as
/// their 32-bit encodings, color channels as the file's 0–255 bytes.
#[derive(Clone, Copy, Debug, PartialEq, Eq)]
pub struct PlyVertex {
    /// x position component.
    pub x_bits: u32,
    /// y position component.
    pub y_bits: u32,
    /// z position component.
    pub z_bits: u32,
    /// Red channel, 0–255.
    pub red: u8,
    /// Green channel, 0–255.
    pub green: u8,
    /// Blue channel, 0–255.
    pub blue: u8,
    /// Alpha channel, 0–255.
    pub alpha: u8,
}

/// What a `vertex` element of the document holds of the properties the
/// import reads; a property of the wrong type counts as absent, as the
/// original format defines them as scalars of these exact types.
#[derive(Clone, Copy, Debug, PartialEq, Eq)]
pub struct PlyVertexRec {
    /// The `x` property, if present as a 32-bit floating scalar.
    pub x: Option<u32>,
    /// The `y` property, if present as a 32-bit floating scalar.
    pub y: Option<u32>,
    /// The `z` property, if present as a 32-bit floating scalar.
    pub z: Option<u32>,
    /// The `red` property, if present as an unsigned byte.
    pub red: Option<u8>,
    /// The `green` property, if present as an unsigned byte.
    pub green: Option<u8>,
    /// The `blue` property, if present as an unsigned byte.
    pub blue: Option<u8>,
    /// The `alpha` property, if present as an unsigned byte.
    pub alpha: Option<u8>,
}

/// What a `face` element of the document holds under `vertex_indices`.
#[derive(Debug, PartialEq, Eq)]
pub enum PlyFaceRec {
    /// The face has no `vertex_indices` property; the import aborts.
    Missing,
    /// The property is there but not a list of unsigned 32-bit indices; the
    /// face is skipped.
    NotIndexList,
    /// The property is a list of unsigned 32-bit indices; the face is a
    /// triangle exactly when there are three of them.
    Indices(Vec<u32>),
}

// ------------------------------------------------------------------
// The trusted surface towards ply_rs.
// ------------------------------------------------------------------

#[verifier::external_type_specification]
#[verifier::external_body]
#[verifier::reject_recursive_types(K)]
#[verifier::reject_recursive_types(V)]
#[verifier::reject_recursive_types(S)]
pub struct ExLinkedHashMap<K, V, S>(linked_hash_map::LinkedHashMap<K, V, S>);

#[verifier::external_type_specification]
#[verifier::external_body]
pub struct ExProperty(ply_rs::ply::Property);

/// Whether the text parses as a PLY document that carries both a `face` and
/// a `vertex` element list. What the parser accepts takes pages to state, so
/// the outcome is named: it is a function of the text's bytes alone, since
/// the parse is deterministic and the document's element maps keep insertion
/// order.
pub uninterp spec fn ply_parse_ok(source: Seq<u8>) -> bool;

/// The vertex records of the text's `vertex` element list, in element order:
/// for each element, the `x`, `y`, `z`, `red`, `green`, `blue` and `alpha`
/// properties as far as they are present with the format's scalar types.
/// Meaningful on texts where `ply_parse_ok` holds.
pub uninterp spec fn ply_vertex_recs(source: Seq<u8>) -> Seq<PlyVertexRec>;

/// The face records of the text's `face` element list, in element order:
/// for each element, what it holds under `vertex_indices`. Meaningful on
/// texts where `ply_parse_ok` holds.
pub uninterp spec fn ply_face_recs(source: Seq<u8>) -> Seq<PlyFaceRec>;

/// Relies on ply_rs's `Parser::read_ply`, and on `LinkedHashMap::get` over
/// the parsed document's payload and elements: parses the text and reads out
/// of every `vertex` and `face` element, via the property readers below,
/// exactly the records the three names above stand for. A text that does not
/// parse, or lacks either element list, comes back as nothing.
///
/// The header guard must have accepted the text first: on an `element` or
/// `format` header line with a decimal run beyond 64 bits the parser's
/// grammar aborts the process instead of failing.
#[verifier::external_body]
fn parse_ply_records(source: &str) -> (r: Option<(Vec<PlyVertexRec>, Vec<PlyFaceRec>)>)
    requires
        crate::header_scan::header_decimals_fit(source.spec_bytes()),
    ensures
        r is Some <==> ply_parse_ok(source.spec_bytes()),
        r matches Some(records) ==> records.0@ == ply_vertex_recs(source.spec_bytes())
            && records.1@ == ply_face_recs(source.spec_bytes()),
{
    let parser = ply_rs::parser::Parser::<ply_rs::ply::DefaultElement>::new();
    let mut reader = std::io::Cursor::new(source);
    let document = match parser.read_ply(&mut reader) {
        Ok(document) => document,
        Err(_) => return None,
    };
    let face_elements = document.payload.get("face")?;
    let vertex_elements = document.payload.get("vertex")?;
    let vertex_records: Vec<PlyVertexRec> = vertex_elements.iter().map(element_vertex_rec).collect();
    let face_records: Vec<PlyFaceRec> = face_elements.iter().map(element_face_rec).collect();
    Some((vertex_records, face_records))
}

/// Relies on `LinkedHashMap::get`, through the property readers below: the
/// record one `vertex` element holds of the seven properties the import
/// reads.
#[verifier::external_body]
fn element_vertex_rec(element: &ply_rs::ply::DefaultElement) -> PlyVertexRec {
    PlyVertexRec {
        x: element_float_bits(element, "x"),
        y: element_float_bits(element, "y"),
        z: element_float_bits(element, "z"),
        red: element_uchar(element, "red"),
        green: element_uchar(element, "green"),
        blue: element_uchar(element, "blue"),
        alpha: element_uchar(element, "alpha"),
    }
}

/// Relies on `LinkedHashMap::get`, through `element_uint_list`: the record
/// one `face` element holds under `vertex_indices`.
#[verifier::external_body]
fn element_face_rec(element: &ply_rs::ply::DefaultElement) -> PlyFaceRec {
    element_uint_list(element, "vertex_indices")
}

/// Relies on `LinkedHashMap::get`: the property an element stores under a
/// key, if it is a 32-bit floating scalar, as the bit pattern the file
/// carries.
#[verifier::external_body]
fn element_float_bits(element: &ply_rs::ply::DefaultElement, key: &str) -> Option<u32> {
    match element.get(key) {
        Some(ply_rs::ply::Property::Float(value)) => Some(value.to_bits()),
        _ => None,
    }
}

/// Relies on `LinkedHashMap::get`: the property an element stores under a
/// key, if it is an unsigned 8-bit scalar.
#[verifier::external_body]
fn element_uchar(element: &ply_rs::ply::DefaultElement, key: &str) -> Option<u8> {
    match element.get(key) {
        Some(ply_rs::ply::Property::UChar(value)) => Some(*value),
        _ => None,
    }
}

/// Relies on `LinkedHashMap::get`: the property an element stores under a
/// key, told apart as absent, a list of unsigned 32-bit indices, or a
/// property of any other type.
#[verifier::external_body]
fn element_uint_list(element: &ply_rs::ply::DefaultElement, key: &str) -> PlyFaceRec {
    match element.get(key) {
        None => PlyFaceRec::Missing,
        Some(ply_rs::ply::Property::ListUInt(indices)) => PlyFaceRec::Indices(indices.clone()),
        Some(_) => PlyFaceRec::NotIndexList,
    }
}

// ------------------------------------------------------------------
// Verified assembly of the triangles.
// ------------------------------------------------------------------

/// Whether a vertex element carries every property the import needs.
pub open spec fn vertex_rec_complete(rec: PlyVertexRec) -> bool {
    &&& rec.x is Some
    &&& rec.y is Some
    &&& rec.z is Some
    &&& rec.red is Some
    &&& rec.green is Some
    &&& rec.blue is Some
    &&& rec.alpha is Some
}

/// The imported vertex a complete vertex element stands for.
pub open spec fn vertex_rec_value(rec: PlyVertexRec) -> PlyVertex
    recommends
        vertex_rec_complete(rec),
{
    PlyVertex {
        x_bits: rec.x->Some_0,
        y_bits: rec.y->Some_0,
        z_bits: rec.z->Some_0,
        red: rec.red->Some_0,
        green: rec.green->Some_0,
        blue: rec.blue->Some_0,
        alpha: rec.alpha->Some_0,
    }
}

/// Whether every index of a face names a vertex of the list and that vertex
/// is complete.
pub open spec fn face_resolves(vertex_recs: Seq<PlyVertexRec>, indices: Seq<u32>) -> bool {
    forall|j: int|
        0 <= j < indices.len() ==> #[trigger] indices[j] < vertex_recs.len()
            && vertex_rec_complete(vertex_recs[indices[j] as int])
}

/// The vertices a resolving face contributes, in the face's order.
pub open spec fn face_vertices(vertex_recs: Seq<PlyVertexRec>, indices: Seq<u32>) -> Seq<
    PlyVertex,
> {
    Seq::new(indices.len(), |j: int| vertex_rec_value(vertex_recs[indices[j] as int]))
}

/// The whole import over the extracted records: each triangular face's three
/// vertices in face order; non-triangles and non-index lists skipped; a
/// missing `vertex_indices`, an out-of-range index or an incomplete vertex
/// is an error — everything or nothing.
pub open spec fn assemble_spec(vertex_recs: Seq<PlyVertexRec>, face_recs: Seq<PlyFaceRec>) -> Result<
    Seq<PlyVertex>,
    (),
>
    decreases face_recs.len(),
{
    if face_recs.len() == 0 {
        Ok(Seq::empty())
    } else {
        match assemble_spec(vertex_recs, face_recs.drop_last()) {
            Err(()) => Err(()),
            Ok(done) => match face_recs.last() {
                PlyFaceRec::Missing => Err(()),
                PlyFaceRec::NotIndexList => Ok(done),
                PlyFaceRec::Indices(indices) => {
                    if indices@.len() != 3 {
                        Ok(done)
                    } else if face_resolves(vertex_recs, indices@) {
                        Ok(done + face_vertices(vertex_recs, indices@))
                    } else {
                        Err(())
                    }
                },
            },
        }
    }
}

/// Once a prefix of the faces aborts the import, the whole list does.
proof fn lemma_assemble_err_extends(
    vertex_recs: Seq<PlyVertexRec>,
    face_recs: Seq<PlyFaceRec>,
    i: int,
)
    requires
        0 <= i <= face_recs.len(),
        assemble_spec(vertex_recs, face_recs.subrange(0, i)) is Err,
    ensures
        assemble_spec(vertex_recs, face_recs) is Err,
    decreases face_recs.len() - i,
{
    if i == face_recs.len() {
        assert(face_recs.subrange(0, i) =~= face_recs);
    } else {
        assert(face_recs.subrange(0, i + 1).drop_last() =~= face_recs.subrange(0, i));
        assert(assemble_spec(vertex_recs, face_recs.subrange(0, i + 1)) is Err);
        lemma_assemble_err_extends(vertex_recs, face_recs, i + 1);
    }
}

/// An import that succeeds yields whole triangles: a multiple of three
/// vertices.
pub proof fn lemma_assemble_len_multiple_of_three(
    vertex_recs: Seq<PlyVertexRec>,
    face_recs: Seq<PlyFaceRec>,
)
    requires
        assemble_spec(vertex_recs, face_recs) is Ok,
    ensures
        assemble_spec(vertex_recs, face_recs)->Ok_0.len() % 3 == 0,
    decreases face_recs.len(),
{
    if face_recs.len() != 0 {
        lemma_assemble_len_multiple_of_three(vertex_recs, face_recs.drop_last());
    }
}

/// Looks one face index up in the vertex records: the imported vertex if the
/// index is in range and the record complete, nothing otherwise.
fn resolve_vertex(vertex_recs: &Vec<PlyVertexRec>, index: u32) -> (r: Option<PlyVertex>)
    ensures
        match r {
            Some(v) => index < vertex_recs@.len() && vertex_rec_complete(
                vertex_recs@[index as int],
            ) && v == vertex_rec_value(vertex_recs@[index as int]),
            None => !(index < vertex_recs@.len() && vertex_rec_complete(
                vertex_recs@[index as int],
            )),
        },
{
    if (index as usize) < vertex_recs.len() {
        let rec = vertex_recs[index as usize];
        match (rec.x, rec.y, rec.z, rec.red, rec.green, rec.blue, rec.alpha) {
            (
                Some(x_bits),
                Some(y_bits),
                Some(z_bits),
                Some(red),
                Some(green),
                Some(blue),
                Some(alpha),
            ) => Some(PlyVertex { x_bits, y_bits, z_bits, red, green, blue, alpha }),
            _ => None,
        }
    } else {
        None
    }
}

/// Assembles the triangles of the extracted records, exactly as
/// `assemble_spec` states: the result is `Ok` if and only if the spec is,
/// and then carries the same vertices in the same order.
pub fn assemble_triangles(
    vertex_recs: &Vec<PlyVertexRec>,
    face_recs: &Vec<PlyFaceRec>,
) -> (r: Result<Vec<PlyVertex>, ()>)
    ensures
        r is Ok <==> assemble_spec(vertex_recs@, face_recs@) is Ok,
        r matches Ok(out) ==> Ok::<Seq<PlyVertex>, ()>(out@) == assemble_spec(
            vertex_recs@,
            face_recs@,
        ),
{
    let mut out: Vec<PlyVertex> = Vec::new();
    let mut i: usize = 0;
    while i < face_recs.len()
        invariant
            i <= face_recs@.len(),
            assemble_spec(vertex_recs@, face_recs@.subrange(0, i as int)) == Ok::<
                Seq<PlyVertex>,
                (),
            >(out@),
        decreases face_recs@.len() - i,
    {
        proof {
            assert(face_recs@.subrange(0, i + 1).drop_last() =~= face_recs@.subrange(0, i as int));
            assert(face_recs@.subrange(0, i + 1).last() == face_recs@[i as int]);
        }
        let ghost prev: Seq<PlyVertex> = out@;
        let step_err: bool = match &face_recs[i] {
            PlyFaceRec::Missing => true,
            PlyFaceRec::NotIndexList => false,
            PlyFaceRec::Indices(indices) => {
                if indices.len() != 3 {
                    false
                } else {
                    let v0 = resolve_vertex(vertex_recs, indices[0]);
                    let v1 = resolve_vertex(vertex_recs, indices[1]);
                    let v2 = resolve_vertex(vertex_recs, indices[2]);
                    match (v0, v1, v2) {
                        (Some(a), Some(b), Some(c)) => {
                            out.push(a);
                            out.push(b);
                            out.push(c);
                            proof {
                                let idx = indices@;
                                assert(face_resolves(vertex_recs@, idx)) by {
                                    assert forall|j: int| 0 <= j < idx.len() implies #[trigger] idx[j]
                                        < vertex_recs@.len() && vertex_rec_complete(
                                        vertex_recs@[idx[j] as int],
                                    ) by {
                                        if j == 0 {
                                        } else if j == 1 {
                                        } else {
                                            assert(j == 2);
                                        }
                                    }
                                }
                                assert(face_vertices(vertex_recs@, idx) =~= seq![a, b, c]);
                                assert(out@ =~= prev + face_vertices(vertex_recs@, idx));
                            }
                            false
                        },
                        _ => {
                            proof {
                                let idx = indices@;
                                assert(!face_resolves(vertex_recs@, idx));
                            }
                            true
                        },
                    }
                }
            },
        };
        if step_err {
            proof {
                assert(assemble_spec(vertex_recs@, face_recs@.subrange(0, i + 1)) is Err);
                lemma_assemble_err_extends(vertex_recs@, face_recs@, i + 1);
            }
            return Err(());
        }
        proof {
            assert(assemble_spec(vertex_recs@, face_recs@.subrange(0, i + 1)) == Ok::<
                Seq<PlyVertex>,
                (),
            >(out@));
        }
        i = i + 1;
    }
    proof {
        assert(face_recs@.subrange(0, face_recs@.len() as int) =~= face_recs@);
    }
    Ok(out)
}

/// Imports a PLY document: rejects up front a header the parser would not
/// fail cleanly on, parses the text, reads the `face` and `vertex` element
/// lists, and assembles one triangle per well-formed triangular face. The
/// import succeeds exactly when the header guard accepts the text, the text
/// parses with both element lists, and `assemble_spec` accepts the records —
/// so it fails exactly on a guarded header, a parse failure, a missing
/// element list, a face without `vertex_indices`, an out-of-range index or
/// an incomplete vertex. Success yields `assemble_spec`'s vertices: whole
/// triangles, and nothing on any fault.
pub fn ply_vertices(source: &str) -> (r: Result<Vec<PlyVertex>, ()>)
    ensures
        (r is Ok) == (crate::header_scan::header_decimals_fit(source.spec_bytes())
            && ply_parse_ok(source.spec_bytes()) && assemble_spec(
            ply_vertex_recs(source.spec_bytes()),
            ply_face_recs(source.spec_bytes()),
        ) is Ok),
        r matches Ok(out) ==> Ok::<Seq<PlyVertex>, ()>(out@) == assemble_spec(
            ply_vertex_recs(source.spec_bytes()),
            ply_face_recs(source.spec_bytes()),
        ),
        r matches Ok(out) ==> out@.len() % 3 == 0,
{
    if !crate::header_scan::check_header_decimals(source) {
        return Err(());
    }
    let records = match parse_ply_records(source) {
        Some(records) => records,
        None => {
            return Err(());
        },
    };
    let (vertex_recs, face_recs) = records;
    match assemble_triangles(&vertex_recs, &face_recs) {
        Ok(out) => {
            proof {
                lemma_assemble_len_multiple_of_three(vertex_recs@, face_recs@);
            }
            Ok(out)
        },
        Err(()) => Err(()),
    }
}

} // verus!
