use gl_gui::geom::Vec2;
use gl_gui::gui::event::{Event, Extent, Key, MouseButton};
use gl_gui::gui::main_loop::EventState;

fn key(code: &str) -> Key {
    Key { code: code.to_string(), shift: false, ctrl: false, alt: false, is_modifier: false }
}

#[test]
fn a_new_state_holds_nothing() {
    let state = EventState::new(true);
    assert!(state.pressed_keys.is_empty());
    assert!(state.pressed_mouse_buttons.is_empty());
    assert_eq!(state.cursor_pos, None);
    assert_eq!(state.prev_cursor_pos, None);
    assert!(state.pointer_locked);
    assert!(!EventState::new(false).pointer_locked);
}

#[test]
fn keys_are_held_until_they_go_up() {
    let mut state = EventState::new(false);
    state.apply(&Event::KeyDown(key("KeyA")));
    state.apply(&Event::KeyDown(key("KeyB")));
    state.apply(&Event::KeyDown(key("KeyA")));
    assert_eq!(state.pressed_keys.len(), 2);
    assert!(state.pressed_keys.contains("KeyA"));
    assert!(state.pressed_keys.contains("KeyB"));
    state.apply(&Event::KeyUp(key("KeyA")));
    assert_eq!(state.pressed_keys.len(), 1);
    assert!(!state.pressed_keys.contains("KeyA"));
    assert!(state.pressed_keys.contains("KeyB"));
    state.apply(&Event::KeyUp(key("KeyC")));
    assert_eq!(state.pressed_keys.len(), 1);
}

#[test]
fn mouse_buttons_are_held_until_they_go_up() {
    let mut state = EventState::new(false);
    state.apply(&Event::MouseDown(MouseButton::Left, Vec2::new(1, 1)));
    state.apply(&Event::MouseDown(MouseButton::Right, Vec2::new(1, 1)));
    assert!(state.pressed_mouse_buttons.contains(&MouseButton::Left));
    assert!(state.pressed_mouse_buttons.contains(&MouseButton::Right));
    state.apply(&Event::MouseUp(MouseButton::Left, Vec2::new(1, 1)));
    assert!(!state.pressed_mouse_buttons.contains(&MouseButton::Left));
    assert!(state.pressed_mouse_buttons.contains(&MouseButton::Right));
    assert_eq!(state.cursor_pos, None);
}

#[test]
fn losing_the_focus_releases_everything() {
    let mut state = EventState::new(false);
    state.apply(&Event::KeyDown(key("KeyA")));
    state.apply(&Event::MouseDown(MouseButton::Middle, Vec2::new(1, 1)));
    state.apply(&Event::FocusLost);
    assert!(state.pressed_keys.is_empty());
    assert!(state.pressed_mouse_buttons.is_empty());
}

#[test]
fn leaving_the_window_releases_the_buttons_only() {
    let mut state = EventState::new(false);
    state.apply(&Event::KeyDown(key("KeyA")));
    state.apply(&Event::MouseDown(MouseButton::Middle, Vec2::new(1, 1)));
    state.apply(&Event::MouseLeave);
    assert!(state.pressed_keys.contains("KeyA"));
    assert!(state.pressed_mouse_buttons.is_empty());
}

#[test]
fn a_move_keeps_the_position_before_it() {
    let mut state = EventState::new(false);
    state.apply(&Event::MouseMove { pos: Vec2::new(3, 4), movement: Vec2::new(0, 0) });
    assert_eq!(state.cursor_pos, Some(Vec2::new(3, 4)));
    assert_eq!(state.prev_cursor_pos, None);
    state.apply(&Event::MouseMove { pos: Vec2::new(8, 9), movement: Vec2::new(5, 5) });
    assert_eq!(state.cursor_pos, Some(Vec2::new(8, 9)));
    assert_eq!(state.prev_cursor_pos, Some(Vec2::new(3, 4)));
}

#[test]
fn the_pointer_lock_follows_its_events() {
    let mut state = EventState::new(false);
    state.apply(&Event::PointerLocked);
    assert!(state.pointer_locked);
    state.apply(&Event::PointerUnlocked);
    assert!(!state.pointer_locked);
}

#[test]
fn other_events_leave_the_state_alone() {
    let mut state = EventState::new(true);
    state.apply(&Event::KeyDown(key("KeyA")));
    state.apply(&Event::CharEntered('a'));
    state.apply(&Event::MouseEnter);
    state.apply(&Event::FocusGained);
    state.apply(&Event::WindowResized(Extent { x: 1, y: 2 }));
    state.apply(&Event::Scroll(1));
    assert_eq!(state.pressed_keys.len(), 1);
    assert!(state.pressed_mouse_buttons.is_empty());
    assert_eq!(state.cursor_pos, None);
    assert!(state.pointer_locked);
}

#[test]
fn moves_are_dropped_while_the_window_is_resized() {
    let mut state = EventState::new(false);
    let moved = Event::MouseMove { pos: Vec2::new(3, 4), movement: Vec2::new(1, 1) };
    assert!(!state.process(&moved, true));
    assert_eq!(state.cursor_pos, None);
    assert!(state.process(&moved, false));
    assert_eq!(state.cursor_pos, Some(Vec2::new(3, 4)));
    assert!(state.process(&Event::KeyDown(key("KeyA")), true));
    assert!(state.pressed_keys.contains("KeyA"));
}
