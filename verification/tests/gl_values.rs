use gl_gui::gl::context::{debug_message, GlFlag, LogLevel};
use gl_gui::gl::framebuffer::{framebuffer_status_reason, FRAMEBUFFER_COMPLETE};
use gl_gui::gl::mesh::{
    LineLoop, LineStrip, Lines, MeshUsage, Points, Primitive, TriangleFan, TriangleStrip,
    Triangles,
};
use gl_gui::gl::program::ShaderType;
use gl_gui::gl::surface::{ClearBuffer, COLOR_BUFFER_BIT, DEPTH_BUFFER_BIT};
use gl_gui::gl::texture::{
    texture_unit_as_gl, MagFilter, MinFilter, TextureFormat, WrapMode, TEXTURE_2D,
};
use gl_gui::gui::color::Color4;

#[test]
fn mesh_usage_matches_the_driver_constants() {
    assert_eq!(MeshUsage::StaticDraw.as_gl(), glow::STATIC_DRAW);
    assert_eq!(MeshUsage::DynamicDraw.as_gl(), glow::DYNAMIC_DRAW);
    assert_eq!(MeshUsage::StreamDraw.as_gl(), glow::STREAM_DRAW);
}

#[test]
fn primitives_match_the_driver_constants() {
    assert_eq!(Triangles::AS_GL, glow::TRIANGLES);
    assert_eq!(TriangleStrip::AS_GL, glow::TRIANGLE_STRIP);
    assert_eq!(TriangleFan::AS_GL, glow::TRIANGLE_FAN);
    assert_eq!(Lines::AS_GL, glow::LINES);
    assert_eq!(LineStrip::AS_GL, glow::LINE_STRIP);
    assert_eq!(LineLoop::AS_GL, glow::LINE_LOOP);
    assert_eq!(Points::AS_GL, glow::POINTS);
}

#[test]
fn flags_and_shader_kinds_match_the_driver_constants() {
    assert_eq!(GlFlag::DepthTest.as_gl(), glow::DEPTH_TEST);
    assert_eq!(GlFlag::CullFace.as_gl(), glow::CULL_FACE);
    assert_eq!(ShaderType::Vertex.as_gl(), glow::VERTEX_SHADER);
    assert_eq!(ShaderType::Fragment.as_gl(), glow::FRAGMENT_SHADER);
}

#[test]
fn texture_formats_match_the_driver_constants() {
    assert_eq!(TextureFormat::Red.to_gl_internal_format(), glow::R8);
    assert_eq!(TextureFormat::RGB.to_gl_internal_format(), glow::RGB8);
    assert_eq!(TextureFormat::RGBA.to_gl_internal_format(), glow::RGBA8);
    assert_eq!(TextureFormat::SRGB.to_gl_internal_format(), glow::SRGB8);
    assert_eq!(TextureFormat::SRGBA.to_gl_internal_format(), glow::SRGB8_ALPHA8);
    assert_eq!(TextureFormat::Red.to_gl_format(), glow::RED);
    assert_eq!(TextureFormat::RGB.to_gl_format(), glow::RGB);
    assert_eq!(TextureFormat::RGBA.to_gl_format(), glow::RGBA);
    assert_eq!(TextureFormat::SRGB.to_gl_format(), glow::RGB);
    assert_eq!(TextureFormat::SRGBA.to_gl_format(), glow::RGBA);
}

#[test]
fn only_srgb_formats_are_srgb() {
    assert!(!TextureFormat::Red.is_srgb());
    assert!(!TextureFormat::RGB.is_srgb());
    assert!(!TextureFormat::RGBA.is_srgb());
    assert!(TextureFormat::SRGB.is_srgb());
    assert!(TextureFormat::SRGBA.is_srgb());
}

#[test]
fn filters_match_the_driver_constants() {
    assert_eq!(MinFilter::Nearest.as_gl(), glow::NEAREST);
    assert_eq!(MinFilter::Linear.as_gl(), glow::LINEAR);
    assert_eq!(MinFilter::NearestMipmapNearest.as_gl(), glow::NEAREST_MIPMAP_NEAREST);
    assert_eq!(MinFilter::NearestMipmapLinear.as_gl(), glow::NEAREST_MIPMAP_LINEAR);
    assert_eq!(MinFilter::LinearMipmapNearest.as_gl(), glow::LINEAR_MIPMAP_NEAREST);
    assert_eq!(MinFilter::LinearMipmapLinear.as_gl(), glow::LINEAR_MIPMAP_LINEAR);
    assert_eq!(MagFilter::Nearest.as_gl(), glow::NEAREST);
    assert_eq!(MagFilter::Linear.as_gl(), glow::LINEAR);
    assert_eq!(WrapMode::ClampToEdge.as_gl(), glow::CLAMP_TO_EDGE);
    assert_eq!(WrapMode::Repeat.as_gl(), glow::REPEAT);
}

#[test]
fn only_mipmap_filters_read_mipmaps() {
    assert!(!MinFilter::Nearest.has_mipmap());
    assert!(!MinFilter::Linear.has_mipmap());
    assert!(MinFilter::NearestMipmapNearest.has_mipmap());
    assert!(MinFilter::NearestMipmapLinear.has_mipmap());
    assert!(MinFilter::LinearMipmapNearest.has_mipmap());
    assert!(MinFilter::LinearMipmapLinear.has_mipmap());
}

#[test]
fn texture_targets_and_units_match_the_driver_constants() {
    assert_eq!(TEXTURE_2D, glow::TEXTURE_2D);
    assert_eq!(texture_unit_as_gl(0), glow::TEXTURE0);
    assert_eq!(texture_unit_as_gl(5), glow::TEXTURE5);
    assert_eq!(texture_unit_as_gl(31), glow::TEXTURE31);
}

#[test]
fn clear_bits_match_the_driver_constants() {
    assert_eq!(COLOR_BUFFER_BIT, glow::COLOR_BUFFER_BIT);
    assert_eq!(DEPTH_BUFFER_BIT, glow::DEPTH_BUFFER_BIT);
    assert_eq!(ClearBuffer::Color(Color4::black()).as_gl(), glow::COLOR_BUFFER_BIT);
    assert_eq!(ClearBuffer::Depth.as_gl(), glow::DEPTH_BUFFER_BIT);
}

#[test]
fn framebuffer_states_match_the_driver_constants() {
    assert_eq!(FRAMEBUFFER_COMPLETE, glow::FRAMEBUFFER_COMPLETE);
    assert_eq!(framebuffer_status_reason(glow::FRAMEBUFFER_COMPLETE), None);
    assert_eq!(
        framebuffer_status_reason(glow::FRAMEBUFFER_INCOMPLETE_ATTACHMENT),
        Some("incomplete attachment")
    );
    assert_eq!(
        framebuffer_status_reason(glow::FRAMEBUFFER_INCOMPLETE_MISSING_ATTACHMENT),
        Some("incomplete missing attachment")
    );
    assert_eq!(framebuffer_status_reason(glow::FRAMEBUFFER_UNSUPPORTED), Some("unsupported"));
    assert_eq!(framebuffer_status_reason(0), Some("unknown reason"));
}

#[test]
fn debug_messages_name_source_kind_and_severity() {
    assert_eq!(
        debug_message(
            glow::DEBUG_SOURCE_API,
            glow::DEBUG_TYPE_ERROR,
            glow::DEBUG_SEVERITY_HIGH,
            "bad call"
        ),
        Some((LogLevel::Error, "API Error High bad call".to_string()))
    );
    assert_eq!(
        debug_message(
            glow::DEBUG_SOURCE_WINDOW_SYSTEM,
            glow::DEBUG_TYPE_DEPRECATED_BEHAVIOR,
            glow::DEBUG_SEVERITY_MEDIUM,
            "old"
        ),
        Some((LogLevel::Warn, "Window system Deprecated behavior Medium old".to_string()))
    );
    assert_eq!(
        debug_message(
            glow::DEBUG_SOURCE_SHADER_COMPILER,
            glow::DEBUG_TYPE_UNDEFINED_BEHAVIOR,
            glow::DEBUG_SEVERITY_LOW,
            ""
        ),
        Some((LogLevel::Info, "Shader compiler Undefined behavior Low ".to_string()))
    );
    assert_eq!(
        debug_message(
            glow::DEBUG_SOURCE_THIRD_PARTY,
            glow::DEBUG_TYPE_PORTABILITY,
            glow::DEBUG_SEVERITY_LOW,
            "x"
        ),
        Some((LogLevel::Info, "Third party Portability Low x".to_string()))
    );
    assert_eq!(
        debug_message(
            glow::DEBUG_SOURCE_APPLICATION,
            glow::DEBUG_TYPE_PERFORMANCE,
            glow::DEBUG_SEVERITY_LOW,
            "x"
        ),
        Some((LogLevel::Info, "Application Performance Low x".to_string()))
    );
    assert_eq!(
        debug_message(
            glow::DEBUG_SOURCE_OTHER,
            glow::DEBUG_TYPE_OTHER,
            glow::DEBUG_SEVERITY_LOW,
            "x"
        ),
        Some((LogLevel::Info, "Other Other Low x".to_string()))
    );
    assert_eq!(
        debug_message(1, 2, glow::DEBUG_SEVERITY_HIGH, "x"),
        Some((LogLevel::Error, "(Unknown) (Unknown) High x".to_string()))
    );
}

#[test]
fn debug_messages_below_low_are_dropped() {
    assert_eq!(
        debug_message(
            glow::DEBUG_SOURCE_API,
            glow::DEBUG_TYPE_ERROR,
            glow::DEBUG_SEVERITY_NOTIFICATION,
            "note"
        ),
        None
    );
}
