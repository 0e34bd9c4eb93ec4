use gl_gui::geom::{Rect, Vec2};
use gl_gui::gl::context::{viewport_params, DrawFlags, GlContextCache};
use gl_gui::gl::framebuffer::viewport_for;
use gl_gui::gl::mesh::DrawMode;
use gl_gui::gl::program::{attrib_slots, stride, AttribSlot};
use gl_gui::gl::surface::{clear_plan, ClearBuffer, ClearPlan, WindowMode};
use gl_gui::gl::texture::TEXTURE_2D;
use gl_gui::gui::color::Color4;
use gl_gui::gui::event::Extent;
use gl_gui::ids::{FramebufferId, ProgramId, TextureId};

#[test]
fn a_new_cache_knows_no_binding() {
    let cache = GlContextCache::new();
    assert_eq!(cache.draw_mode, None);
    assert_eq!(cache.bound_program, None);
    assert_eq!(cache.bound_framebuffer, None);
    assert_eq!(cache.bound_read_framebuffer, None);
    assert!(cache.bound_textures.iter().all(|t| t.is_none()));
}

#[test]
fn binding_a_program_twice_tells_the_driver_once() {
    let mut cache = GlContextCache::new();
    let a = ProgramId::new();
    let b = ProgramId::new();
    assert!(cache.bind_program(a));
    assert!(!cache.bind_program(a));
    assert!(cache.bind_program(b));
    assert!(cache.bind_program(a));
    assert_eq!(cache.bound_program, Some(a));
}

#[test]
fn framebuffers_for_drawing_and_reading_are_tracked_apart() {
    let mut cache = GlContextCache::new();
    let a = FramebufferId::new();
    let b = FramebufferId::new();
    assert!(!cache.is_framebuffer_bound(a));
    assert!(cache.bind_framebuffer(a));
    assert!(cache.is_framebuffer_bound(a));
    assert!(!cache.is_framebuffer_bound(b));
    assert!(cache.bind_read_framebuffer(a));
    assert!(!cache.bind_read_framebuffer(a));
    assert!(!cache.bind_framebuffer(a));
    assert!(cache.bind_framebuffer(b));
    assert_eq!(cache.bound_framebuffer, Some(b));
    assert_eq!(cache.bound_read_framebuffer, Some(a));
}

#[test]
fn textures_are_tracked_per_unit() {
    let mut cache = GlContextCache::new();
    let a = TextureId::new();
    let b = TextureId::new();
    assert!(cache.bind_texture(0, TEXTURE_2D, a));
    assert!(!cache.bind_texture(0, TEXTURE_2D, a));
    assert!(cache.bind_texture(31, TEXTURE_2D, a));
    assert!(cache.bind_texture(0, TEXTURE_2D, b));
    assert!(cache.bind_texture(0, TEXTURE_2D + 1, b));
    assert_eq!(cache.bound_textures[0], Some((TEXTURE_2D + 1, b)));
    assert_eq!(cache.bound_textures[31], Some((TEXTURE_2D, a)));
    assert_eq!(cache.bound_textures[1], None);
}

#[test]
fn a_draw_mode_sets_its_switches_once() {
    let mut cache = GlContextCache::new();
    assert_eq!(
        DrawMode::Draw2D.bind(&mut cache),
        Some(DrawFlags { cull_face: false, depth_test: false })
    );
    assert_eq!(DrawMode::Draw2D.bind(&mut cache), None);
    assert_eq!(
        DrawMode::Draw3D { depth: true }.bind(&mut cache),
        Some(DrawFlags { cull_face: true, depth_test: true })
    );
    assert_eq!(
        DrawMode::Draw3D { depth: false }.bind(&mut cache),
        Some(DrawFlags { cull_face: true, depth_test: false })
    );
    assert_eq!(DrawMode::Draw3D { depth: false }.bind(&mut cache), None);
    assert_eq!(cache.draw_mode, Some(DrawMode::Draw3D { depth: false }));
}

#[test]
fn viewport_params_are_start_and_size() {
    let r = Rect::new(Vec2::new(10, 20), Vec2::new(110, 70));
    assert_eq!(viewport_params(&r), Some((10, 20, 100, 50)));
    let wide = Rect::new(Vec2::new(i32::MIN, 0), Vec2::new(i32::MAX, 1));
    assert_eq!(viewport_params(&wide), None);
}

#[test]
fn the_viewport_of_a_surface_starts_at_the_origin() {
    assert_eq!(
        viewport_for(Extent { x: 640, y: 480 }),
        Some(Rect::new(Vec2::new(0, 0), Vec2::new(640, 480)))
    );
    assert_eq!(viewport_for(Extent { x: 0x8000_0000, y: 1 }), None);
    assert_eq!(
        viewport_for(Extent { x: 0x7fff_ffff, y: 0 }),
        Some(Rect::new(Vec2::new(0, 0), Vec2::new(i32::MAX, 0)))
    );
}

#[test]
fn clear_plan_collects_bits_and_the_last_colour() {
    let black = Color4::black();
    let white = Color4::white();
    assert_eq!(
        clear_plan(&[ClearBuffer::Color(black)]),
        ClearPlan { mask: 0x4000, color: Some(black) }
    );
    assert_eq!(clear_plan(&[ClearBuffer::Depth]), ClearPlan { mask: 0x0100, color: None });
    assert_eq!(
        clear_plan(&[ClearBuffer::Color(black), ClearBuffer::Depth, ClearBuffer::Color(white)]),
        ClearPlan { mask: 0x4100, color: Some(white) }
    );
    assert_eq!(
        clear_plan(&[ClearBuffer::Depth, ClearBuffer::Color(white), ClearBuffer::Depth]),
        ClearPlan { mask: 0x4100, color: Some(white) }
    );
}

#[test]
fn clear_buffer_colour_is_that_of_the_colour_buffer() {
    assert_eq!(ClearBuffer::Color(Color4::white()).color(), Some(Color4::white()));
    assert_eq!(ClearBuffer::Depth.color(), None);
}

#[test]
fn window_mode_knows_whether_it_is_a_window() {
    assert!(!WindowMode::Fullscreen.is_windowed());
    assert!(WindowMode::Windowed(Extent { x: 1, y: 1 }, "t".to_string()).is_windowed());
}

#[test]
fn stride_is_the_sum_of_the_sizes() {
    assert_eq!(stride(&[2, 2, 4]), Some(8));
    assert_eq!(stride(&[]), Some(0));
    assert_eq!(stride(&[16, 3]), Some(19));
    assert_eq!(stride(&[i32::MAX, 1]), None);
    assert_eq!(stride(&[i32::MAX, 1, -5]), None);
}

#[test]
fn attributes_follow_each_other_without_a_gap() {
    assert_eq!(
        attrib_slots(&[2, 4]),
        Some(vec![
            AttribSlot { attribute: 0, row: 0, size: 2, stride_bytes: 24, offset_bytes: 0 },
            AttribSlot { attribute: 1, row: 0, size: 4, stride_bytes: 24, offset_bytes: 8 },
        ])
    );
    assert_eq!(attrib_slots(&[]), Some(vec![]));
}

#[test]
fn a_matrix_attribute_takes_four_rows() {
    assert_eq!(
        attrib_slots(&[3, 16, 1]),
        Some(vec![
            AttribSlot { attribute: 0, row: 0, size: 3, stride_bytes: 80, offset_bytes: 0 },
            AttribSlot { attribute: 1, row: 0, size: 4, stride_bytes: 80, offset_bytes: 12 },
            AttribSlot { attribute: 1, row: 1, size: 4, stride_bytes: 80, offset_bytes: 28 },
            AttribSlot { attribute: 1, row: 2, size: 4, stride_bytes: 80, offset_bytes: 44 },
            AttribSlot { attribute: 1, row: 3, size: 4, stride_bytes: 80, offset_bytes: 60 },
            AttribSlot { attribute: 2, row: 0, size: 1, stride_bytes: 80, offset_bytes: 76 },
        ])
    );
}

#[test]
fn attributes_of_unsupported_sizes_are_refused() {
    assert_eq!(attrib_slots(&[5]), None);
    assert_eq!(attrib_slots(&[2, 15]), None);
    assert_eq!(attrib_slots(&[17]), None);
    assert_eq!(attrib_slots(&[-1]), None);
}

#[test]
fn the_cache_can_forget_its_textures() {
    let mut cache = GlContextCache::new();
    let a = TextureId::new();
    let p = ProgramId::new();
    cache.bind_program(p);
    cache.bind_texture(0, TEXTURE_2D, a);
    cache.bind_texture(7, TEXTURE_2D, a);
    cache.clear_bound_textures();
    assert!(cache.bound_textures.iter().all(|t| t.is_none()));
    assert_eq!(cache.bound_program, Some(p));
    assert!(cache.bind_texture(0, TEXTURE_2D, a));
}
