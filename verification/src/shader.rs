//! The renderer's two-stage shader program: the shading-language version
//! header and the vertex- and fragment-stage sources. The sources spell the
//! other half of the vertex contract: attribute 0 is the position, 1 the
//! color, 2 the texture coordinate; the one uniform is the view-projection
//! matrix; fully transparent fragments are discarded.

use vstd::prelude::*;

verus! {

/// The two stages of the shader program.
#[derive(Clone, Copy, Debug, PartialEq, Eq)]
pub enum ShaderStage {
    /// The vertex stage.
    Vertex,
    /// The fragment stage.
    Fragment,
}

/// The version header prepended to every shader source: the embedded-systems
/// dialect where the platform asks for it, the desktop dialect otherwise.
pub fn shader_version(embedded: bool) -> (r: &'static str)
    ensures
        embedded ==> r@ == "#version 300 es"@,
        !embedded ==> r@ == "#version 330"@,
{
    if embedded {
        "#version 300 es"
    } else {
        "#version 330"
    }
}

/// Source of the vertex stage: consumes the position, color and texture
/// coordinate attributes, applies the view-projection uniform, and hands
/// color and texture coordinate on.
pub fn vertex_shader_source() -> (r: &'static str)
    ensures
        r@ == vertex_shader_source_view(),
{
    "
                layout(location = 0) in vec3 aPos;
                layout(location = 1) in vec4 aColor;
                layout(location = 2) in vec2 aUv;
                out vec4 vertexColor;
                out vec2 uv;
                uniform mat4 view_projection;
                void main() {
                    gl_Position = view_projection * vec4(aPos, 1.0);
                    uv = aUv;
                    vertexColor = aColor;
                }
            "
}

/// Source of the fragment stage: samples the bound texture, multiplies by
/// the interpolated color, and discards fully transparent fragments.
pub fn fragment_shader_source() -> (r: &'static str)
    ensures
        r@ == fragment_shader_source_view(),
{
    "
                precision mediump float;
                uniform sampler2D tex;
                in vec4 vertexColor;
                in vec2 uv;
                out vec4 fragColor;
                void main() {
                    vec4 color = texture(tex, uv) * vertexColor;
                    if (color.a == 0.0) {
                        discard;
                    }
                    fragColor = color;
                }
            "
}

/// The shader sources by stage, in the order the program is assembled:
/// vertex stage first, fragment stage second.
pub fn shader_sources() -> (r: [(ShaderStage, &'static str); 2])
    ensures
        r[0].0 == ShaderStage::Vertex,
        r[0].1@ == vertex_shader_source_view(),
        r[1].0 == ShaderStage::Fragment,
        r[1].1@ == fragment_shader_source_view(),
{
    [(ShaderStage::Vertex, vertex_shader_source()), (
        ShaderStage::Fragment,
        fragment_shader_source(),
    )]
}

/// View of the vertex-stage source.
pub open spec fn vertex_shader_source_view() -> Seq<char> {
    "
                layout(location = 0) in vec3 aPos;
                layout(location = 1) in vec4 aColor;
                layout(location = 2) in vec2 aUv;
                out vec4 vertexColor;
                out vec2 uv;
                uniform mat4 view_projection;
                void main() {
                    gl_Position = view_projection * vec4(aPos, 1.0);
                    uv = aUv;
                    vertexColor = aColor;
                }
            "@
}

/// View of the fragment-stage source.
pub open spec fn fragment_shader_source_view() -> Seq<char> {
    "
                precision mediump float;
                uniform sampler2D tex;
                in vec4 vertexColor;
                in vec2 uv;
                out vec4 fragColor;
                void main() {
                    vec4 color = texture(tex, uv) * vertexColor;
                    if (color.a == 0.0) {
                        discard;
                    }
                    fragColor = color;
                }
            "@
}

} // verus!
