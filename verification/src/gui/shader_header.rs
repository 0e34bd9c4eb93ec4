//! The text that the toolkit puts in front of the source of its shaders.

use crate::gl::program::ShaderType;
use vstd::prelude::*;
use vstd::string::*;

verus! {

/// What every shader starts with: the version of the shading language and
/// the precision of floats and samplers.
pub const COMMON_HEADER: &'static str = "#version 300 es
precision highp float;
precision highp sampler2D;
precision highp samplerCube;
precision highp sampler2DArray;
";

/// What a vertex shader starts with besides.
pub const VERT_HEADER: &'static str = "
void writeGlPosition2D(vec4 pos) {
    gl_Position = pos;
}
";

/// What a fragment shader starts with besides, where it writes colours in
/// sRGB.
pub const FRAG_HEADER_SRGB: &'static str = "
out vec4 outColor;

vec4 srgb(vec4 color) {
  return vec4(pow(color.rgb, vec3(1.0 / 2.2)), color.a);
}

void writeColor2D(vec4 color) {
  outColor = srgb(color);
}
";

/// What a fragment shader starts with besides, where it writes colours as
/// they are.
pub const FRAG_HEADER_NO_SRGB: &'static str = "
out vec4 outColor;

void writeColor2D(vec4 color) {
  outColor = color;
}
";

/// What a shader of the given kind starts with after the common header.
pub open spec fn spec_shader_header(shader_type: ShaderType, convert_to_srgb: bool) -> Seq<char> {
    match shader_type {
        ShaderType::Vertex => VERT_HEADER@,
        ShaderType::Fragment => if convert_to_srgb {
            FRAG_HEADER_SRGB@
        } else {
            FRAG_HEADER_NO_SRGB@
        },
    }
}

/// What a shader of the given kind starts with after the common header.
pub fn get_shader_header(shader_type: ShaderType, convert_to_srgb: bool) -> (r: &'static str)
    ensures
        r@ == spec_shader_header(shader_type, convert_to_srgb),
{
    match shader_type {
        ShaderType::Vertex => VERT_HEADER,
        ShaderType::Fragment => {
            if convert_to_srgb {
                FRAG_HEADER_SRGB
            } else {
                FRAG_HEADER_NO_SRGB
            }
        },
    }
}

/// The source with the common header in front of it.
pub fn add_shader_minimal_header(source: &str) -> (r: String)
    ensures
        r@ == COMMON_HEADER@ + source@,
{
    let mut text = String::from_str(COMMON_HEADER);
    text.append(source);
    text
}

/// The source with the common header and the header of its kind in front of
/// it.
pub fn add_shader_header(shader_type: ShaderType, source: &str, convert_to_srgb: bool) -> (r:
    String)
    ensures
        r@ == COMMON_HEADER@ + spec_shader_header(shader_type, convert_to_srgb) + source@,
{
    let mut text = String::from_str(COMMON_HEADER);
    text.append(get_shader_header(shader_type, convert_to_srgb));
    text.append(source);
    text
}

} // verus!
