use gl_gui::geom::Vec2;
use gl_gui::gl::program::ShaderType;
use gl_gui::gl::surface::WindowMode;
use gl_gui::glfw::{
    centered_position, create_window_inner, get_glfw, set_window_hints, update_window_mode,
    CursorMode, OpenGlProfileHint, Placement, WindowHint,
};
use gl_gui::gui::event::Extent;
use gl_gui::gui::shader_header::{
    add_shader_header, add_shader_minimal_header, get_shader_header, COMMON_HEADER,
    FRAG_HEADER_NO_SRGB, FRAG_HEADER_SRGB, VERT_HEADER,
};
use gl_gui::screenshot::{default_screenshot_path, screenshot_buffer_len};

#[test]
fn nothing_is_asked_of_a_fresh_window_system() {
    assert!(get_glfw().hints.is_empty());
}

#[test]
fn the_window_hints_are_given_in_order() {
    let mut glfw = get_glfw();
    set_window_hints(&mut glfw, true);
    assert_eq!(
        glfw.hints,
        vec![
            WindowHint::Visible(false),
            WindowHint::OpenGlDebugContext(true),
            WindowHint::Samples(Some(4)),
            WindowHint::Resizable(true),
            WindowHint::ContextVersion(3, 2),
            WindowHint::OpenGlProfile(OpenGlProfileHint::Core),
            WindowHint::OpenGlForwardCompat(true),
        ]
    );
    set_window_hints(&mut glfw, false);
    assert_eq!(glfw.hints.len(), 14);
    assert_eq!(glfw.hints[8], WindowHint::OpenGlDebugContext(false));
}

#[test]
fn a_window_is_centred_on_the_monitor() {
    assert_eq!(
        centered_position(Extent { x: 1920, y: 1080 }, Extent { x: 800, y: 600 }),
        Some(Vec2::new(560, 240))
    );
    assert_eq!(
        centered_position(Extent { x: 801, y: 600 }, Extent { x: 800, y: 600 }),
        Some(Vec2::new(0, 0))
    );
    assert_eq!(
        centered_position(Extent { x: u32::MAX, y: 3 }, Extent { x: 0, y: 0 }),
        Some(Vec2::new(i32::MAX, 1))
    );
    assert_eq!(centered_position(Extent { x: 799, y: 600 }, Extent { x: 800, y: 600 }), None);
    assert_eq!(centered_position(Extent { x: 800, y: 599 }, Extent { x: 800, y: 600 }), None);
}

#[test]
fn update_window_mode_places_the_window() {
    let monitor = Extent { x: 1000, y: 500 };
    assert_eq!(
        update_window_mode(&WindowMode::Fullscreen, monitor),
        Some(Placement { fullscreen: true, pos: Vec2::new(0, 0), size: monitor })
    );
    assert_eq!(
        update_window_mode(&WindowMode::Windowed(Extent { x: 400, y: 300 }, "w".to_string()), monitor),
        Some(Placement {
            fullscreen: false,
            pos: Vec2::new(300, 100),
            size: Extent { x: 400, y: 300 }
        })
    );
    assert_eq!(
        update_window_mode(&WindowMode::Windowed(Extent { x: 1001, y: 300 }, "w".to_string()), monitor),
        None
    );
}

#[test]
fn create_window_inner_plans_the_window() {
    let mut glfw = get_glfw();
    let monitor = Extent { x: 1000, y: 500 };
    let plan = create_window_inner(
        &mut glfw,
        &WindowMode::Windowed(Extent { x: 400, y: 300 }, "Title".to_string()),
        monitor,
        true,
        false,
    )
    .unwrap();
    assert_eq!(glfw.hints.len(), 7);
    assert_eq!(glfw.hints[1], WindowHint::OpenGlDebugContext(false));
    assert_eq!(
        plan.placement,
        Placement { fullscreen: false, pos: Vec2::new(300, 100), size: Extent { x: 400, y: 300 } }
    );
    assert_eq!(plan.title, "Title");
    assert_eq!(plan.cursor_mode, CursorMode::Disabled);

    let full =
        create_window_inner(&mut glfw, &WindowMode::Fullscreen, monitor, false, true).unwrap();
    assert_eq!(glfw.hints.len(), 14);
    assert_eq!(full.placement, Placement { fullscreen: true, pos: Vec2::new(0, 0), size: monitor });
    assert_eq!(full.title, "");
    assert_eq!(full.cursor_mode, CursorMode::Normal);

    assert!(create_window_inner(
        &mut glfw,
        &WindowMode::Windowed(Extent { x: 400, y: 501 }, "Title".to_string()),
        monitor,
        true,
        false,
    )
    .is_none());
}

#[test]
fn the_cursor_mode_follows_the_grab() {
    assert_eq!(CursorMode::for_grab(true), CursorMode::Disabled);
    assert_eq!(CursorMode::for_grab(false), CursorMode::Normal);
}

#[test]
fn the_minimal_header_goes_in_front_of_the_source() {
    assert_eq!(
        add_shader_minimal_header("void main() {}"),
        "#version 300 es\nprecision highp float;\nprecision highp sampler2D;\nprecision highp samplerCube;\nprecision highp sampler2DArray;\nvoid main() {}"
    );
    assert_eq!(add_shader_minimal_header(""), COMMON_HEADER);
}

#[test]
fn the_header_of_a_shader_depends_on_its_kind() {
    assert_eq!(get_shader_header(ShaderType::Vertex, true), VERT_HEADER);
    assert_eq!(get_shader_header(ShaderType::Vertex, false), VERT_HEADER);
    assert_eq!(get_shader_header(ShaderType::Fragment, true), FRAG_HEADER_SRGB);
    assert_eq!(get_shader_header(ShaderType::Fragment, false), FRAG_HEADER_NO_SRGB);
    assert!(VERT_HEADER.contains("writeGlPosition2D"));
    assert!(FRAG_HEADER_SRGB.contains("vec3(1.0 / 2.2)"));
    assert!(!FRAG_HEADER_NO_SRGB.contains("srgb"));
}

#[test]
fn the_full_header_is_common_then_kind_then_source() {
    assert_eq!(
        add_shader_header(ShaderType::Vertex, "void main() {}", true),
        format!("{}{}{}", COMMON_HEADER, VERT_HEADER, "void main() {}")
    );
    assert_eq!(
        add_shader_header(ShaderType::Fragment, "x", false),
        format!("{}{}{}", COMMON_HEADER, FRAG_HEADER_NO_SRGB, "x")
    );
    assert_eq!(
        add_shader_header(ShaderType::Fragment, "x", true),
        format!("{}{}{}", COMMON_HEADER, FRAG_HEADER_SRGB, "x")
    );
}

#[test]
fn the_buffer_of_a_screenshot_holds_every_channel_of_every_pixel() {
    assert_eq!(screenshot_buffer_len(Extent { x: 640, y: 480 }, true), Some(1228800));
    assert_eq!(screenshot_buffer_len(Extent { x: 640, y: 480 }, false), Some(921600));
    assert_eq!(screenshot_buffer_len(Extent { x: 0, y: 480 }, false), Some(0));
    assert_eq!(screenshot_buffer_len(Extent { x: 65536, y: 65536 }, false), None);
    assert_eq!(screenshot_buffer_len(Extent { x: 32768, y: 32768 }, true), None);
    assert_eq!(screenshot_buffer_len(Extent { x: 32768, y: 32768 }, false), Some(3221225472));
}

#[test]
fn a_screenshot_without_a_path_is_named_after_the_time() {
    assert_eq!(
        default_screenshot_path("2020-01-02T03:04:05+00:00"),
        "screenshots/screenshot-2020-01-02T03:04:05+00:00.png"
    );
}
