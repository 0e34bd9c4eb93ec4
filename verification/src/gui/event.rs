//! Input events in the form in which the toolkit hands them to widgets, and
//! how they are made from what the window system reports.

use crate::geom::{in_i32, Vec2};
use vstd::prelude::*;

verus! {

/// A size in pixels, as the window system reports it.
#[derive(Clone, Copy, Debug, PartialEq, Eq, Structural)]
pub struct Extent {
    pub x: u32,
    pub y: u32,
}

/// The name of a key, as the `code` of a browser's keyboard event gives it.
pub type Keycode = String;

/// A key together with the modifiers that were held when it was used.
#[derive(Debug, PartialEq, Eq)]
pub struct Key {
    /// The name of the key, as the `code` of a browser's keyboard event
    /// gives it. On the desktop the key tokens of GLFW are mapped to these
    /// names.
    pub code: String,
    pub shift: bool,
    pub ctrl: bool,
    pub alt: bool,
    pub is_modifier: bool,
}

impl Clone for Key {
    fn clone(&self) -> (r: Key)
        ensures
            r == *self,
    {
        Key {
            code: self.code.clone(),
            shift: self.shift,
            ctrl: self.ctrl,
            alt: self.alt,
            is_modifier: self.is_modifier,
        }
    }
}

/// A button of the mouse.
#[derive(Copy, Clone, Debug, Hash, PartialEq, Eq, Structural)]
pub enum MouseButton {
    Left,
    Right,
    Middle,
    Back,
    Forward,
}

/// An input event.
#[derive(Debug, PartialEq, Eq)]
pub enum Event {
    KeyDown(Key),
    KeyUp(Key),
    CharEntered(char),
    MouseDown(MouseButton, Vec2),
    MouseUp(MouseButton, Vec2),
    MouseMove { pos: Vec2, movement: Vec2 },
    MouseEnter,
    MouseLeave,
    FocusGained,
    FocusLost,
    /// The window has the given size from now on.
    WindowResized(Extent),
    PointerLocked,
    PointerUnlocked,
    /// The wheel was turned by one step: `1` or `-1`.
    Scroll(i32),
}

impl Clone for Event {
    fn clone(&self) -> (r: Event)
        ensures
            r == *self,
    {
        match self {
            Event::KeyDown(key) => Event::KeyDown(key.clone()),
            Event::KeyUp(key) => Event::KeyUp(key.clone()),
            Event::CharEntered(c) => Event::CharEntered(*c),
            Event::MouseDown(button, pos) => Event::MouseDown(*button, *pos),
            Event::MouseUp(button, pos) => Event::MouseUp(*button, *pos),
            Event::MouseMove { pos, movement } => Event::MouseMove {
                pos: *pos,
                movement: *movement,
            },
            Event::MouseEnter => Event::MouseEnter,
            Event::MouseLeave => Event::MouseLeave,
            Event::FocusGained => Event::FocusGained,
            Event::FocusLost => Event::FocusLost,
            Event::WindowResized(size) => Event::WindowResized(*size),
            Event::PointerLocked => Event::PointerLocked,
            Event::PointerUnlocked => Event::PointerUnlocked,
            Event::Scroll(step) => Event::Scroll(*step),
        }
    }
}

/// The character of the decimal digit `d`.
pub open spec fn digit_char(d: int) -> char {
    (48 + d) as u8 as char
}

/// The name under which the toolkit knows the GLFW key token `key`, or `None`
/// for a key that it does not report.
///
/// Letters are named `KeyA` to `KeyZ`, the digits of the main block `Digit0`
/// to `Digit9`, the function keys `F1` to `F12`, the digits of the number pad
/// `Numpad0` to `Numpad9`. The other keys have a name each.
pub open spec fn glfw_key_name(key: int) -> Option<Seq<char>> {
    if 65 <= key <= 90 {
        Some("Key"@.push(key as u8 as char))
    } else if 48 <= key <= 57 {
        Some("Digit"@.push(digit_char(key - 48)))
    } else if 290 <= key <= 298 {
        Some("F"@.push(digit_char(key - 289)))
    } else if 299 <= key <= 301 {
        Some("F1"@.push(digit_char(key - 299)))
    } else if 320 <= key <= 329 {
        Some("Numpad"@.push(digit_char(key - 320)))
    } else {
        glfw_named_key(key)
    }
}

/// The names of the keys that are neither a letter, a digit nor a function
/// key.
pub open spec fn glfw_named_key(key: int) -> Option<Seq<char>> {
    if key == 32 {
        Some("Space"@)
    } else if key == 39 {
        Some("Quote"@)
    } else if key == 44 {
        Some("Comma"@)
    } else if key == 45 {
        Some("Minus"@)
    } else if key == 46 {
        Some("Period"@)
    } else if key == 47 {
        Some("Slash"@)
    } else if key == 59 {
        Some("Semicolon"@)
    } else if key == 61 {
        Some("Equal"@)
    } else if key == 91 {
        Some("BracketLeft"@)
    } else if key == 92 {
        Some("Backslash"@)
    } else if key == 93 {
        Some("BracketRight"@)
    } else if key == 96 {
        Some("Backquote"@)
    } else if key == 256 {
        Some("Escape"@)
    } else if key == 257 {
        Some("Enter"@)
    } else if key == 258 {
        Some("Tab"@)
    } else if key == 259 {
        Some("Backspace"@)
    } else if key == 260 {
        Some("Insert"@)
    } else if key == 261 {
        Some("Delete"@)
    } else if key == 262 {
        Some("ArrowRight"@)
    } else if key == 263 {
        Some("ArrowLeft"@)
    } else if key == 264 {
        Some("ArrowDown"@)
    } else if key == 265 {
        Some("ArrowUp"@)
    } else if key == 266 {
        Some("PageUp"@)
    } else if key == 267 {
        Some("PageDown"@)
    } else if key == 268 {
        Some("Home"@)
    } else if key == 269 {
        Some("End"@)
    } else if key == 280 {
        Some("CapsLock"@)
    } else if key == 281 {
        Some("ScrollLock"@)
    } else if key == 282 {
        Some("NumLock"@)
    } else {
        None
    }
}

/// The bit of the shift key in the modifiers of GLFW.
pub const GLFW_MOD_SHIFT: i32 = 0x0001;

/// The bit of the control key in the modifiers of GLFW.
pub const GLFW_MOD_CONTROL: i32 = 0x0002;

/// The bit of the alt key in the modifiers of GLFW.
pub const GLFW_MOD_ALT: i32 = 0x0004;

fn letter_key_name(key: i32) -> (r: Option<&'static str>)
    requires
        65 <= key <= 90,
    ensures
        r matches Some(name) && Some(name@) == glfw_key_name(key as int),
{
    proof {
        reveal_strlit("Key");
            reveal_strlit("KeyA");
            reveal_strlit("KeyB");
            reveal_strlit("KeyC");
            reveal_strlit("KeyD");
            reveal_strlit("KeyE");
            reveal_strlit("KeyF");
            reveal_strlit("KeyG");
            reveal_strlit("KeyH");
            reveal_strlit("KeyI");
            reveal_strlit("KeyJ");
            reveal_strlit("KeyK");
            reveal_strlit("KeyL");
            reveal_strlit("KeyM");
            reveal_strlit("KeyN");
            reveal_strlit("KeyO");
            reveal_strlit("KeyP");
            reveal_strlit("KeyQ");
            reveal_strlit("KeyR");
            reveal_strlit("KeyS");
            reveal_strlit("KeyT");
            reveal_strlit("KeyU");
            reveal_strlit("KeyV");
            reveal_strlit("KeyW");
            reveal_strlit("KeyX");
            reveal_strlit("KeyY");
            reveal_strlit("KeyZ");
    }
    let r = match key {
        65 => Some("KeyA"),
        66 => Some("KeyB"),
        67 => Some("KeyC"),
        68 => Some("KeyD"),
        69 => Some("KeyE"),
        70 => Some("KeyF"),
        71 => Some("KeyG"),
        72 => Some("KeyH"),
        73 => Some("KeyI"),
        74 => Some("KeyJ"),
        75 => Some("KeyK"),
        76 => Some("KeyL"),
        77 => Some("KeyM"),
        78 => Some("KeyN"),
        79 => Some("KeyO"),
        80 => Some("KeyP"),
        81 => Some("KeyQ"),
        82 => Some("KeyR"),
        83 => Some("KeyS"),
        84 => Some("KeyT"),
        85 => Some("KeyU"),
        86 => Some("KeyV"),
        87 => Some("KeyW"),
        88 => Some("KeyX"),
        89 => Some("KeyY"),
        _ => Some("KeyZ"),
    };
    assert(r.unwrap()@ =~= "Key"@.push(key as u8 as char));
    r
}

fn digit_key_name(key: i32) -> (r: Option<&'static str>)
    requires
        48 <= key <= 57,
    ensures
        r matches Some(name) && Some(name@) == glfw_key_name(key as int),
{
    proof {
        reveal_strlit("Digit");
            reveal_strlit("Digit0");
            reveal_strlit("Digit1");
            reveal_strlit("Digit2");
            reveal_strlit("Digit3");
            reveal_strlit("Digit4");
            reveal_strlit("Digit5");
            reveal_strlit("Digit6");
            reveal_strlit("Digit7");
            reveal_strlit("Digit8");
            reveal_strlit("Digit9");
    }
    let r = match key {
        48 => Some("Digit0"),
        49 => Some("Digit1"),
        50 => Some("Digit2"),
        51 => Some("Digit3"),
        52 => Some("Digit4"),
        53 => Some("Digit5"),
        54 => Some("Digit6"),
        55 => Some("Digit7"),
        56 => Some("Digit8"),
        _ => Some("Digit9"),
    };
    assert(r.unwrap()@ =~= "Digit"@.push(digit_char(key - 48)));
    r
}

fn function_key_name(key: i32) -> (r: Option<&'static str>)
    requires
        290 <= key <= 301,
    ensures
        r matches Some(name) && Some(name@) == glfw_key_name(key as int),
{
    proof {
        reveal_strlit("F");
            reveal_strlit("F1");
            reveal_strlit("F2");
            reveal_strlit("F3");
            reveal_strlit("F4");
            reveal_strlit("F5");
            reveal_strlit("F6");
            reveal_strlit("F7");
            reveal_strlit("F8");
            reveal_strlit("F9");
            reveal_strlit("F10");
            reveal_strlit("F11");
            reveal_strlit("F12");
    }
    let r = match key {
        290 => Some("F1"),
        291 => Some("F2"),
        292 => Some("F3"),
        293 => Some("F4"),
        294 => Some("F5"),
        295 => Some("F6"),
        296 => Some("F7"),
        297 => Some("F8"),
        298 => Some("F9"),
        299 => Some("F10"),
        300 => Some("F11"),
        _ => Some("F12"),
    };
    if key <= 298 {
        assert(r.unwrap()@ =~= "F"@.push(digit_char(key - 289)));
    } else {
        assert(r.unwrap()@ =~= "F1"@.push(digit_char(key - 299)));
    }
    r
}

fn numpad_key_name(key: i32) -> (r: Option<&'static str>)
    requires
        320 <= key <= 329,
    ensures
        r matches Some(name) && Some(name@) == glfw_key_name(key as int),
{
    proof {
        reveal_strlit("Numpad");
            reveal_strlit("Numpad0");
            reveal_strlit("Numpad1");
            reveal_strlit("Numpad2");
            reveal_strlit("Numpad3");
            reveal_strlit("Numpad4");
            reveal_strlit("Numpad5");
            reveal_strlit("Numpad6");
            reveal_strlit("Numpad7");
            reveal_strlit("Numpad8");
            reveal_strlit("Numpad9");
    }
    let r = match key {
        320 => Some("Numpad0"),
        321 => Some("Numpad1"),
        322 => Some("Numpad2"),
        323 => Some("Numpad3"),
        324 => Some("Numpad4"),
        325 => Some("Numpad5"),
        326 => Some("Numpad6"),
        327 => Some("Numpad7"),
        328 => Some("Numpad8"),
        _ => Some("Numpad9"),
    };
    assert(r.unwrap()@ =~= "Numpad"@.push(digit_char(key - 320)));
    r
}

fn named_key_name(key: i32) -> (r: Option<&'static str>)
    ensures
        r.is_some() == glfw_named_key(key as int).is_some(),
        r matches Some(name) ==> Some(name@) == glfw_named_key(key as int),
{
    match key {
        32 => Some("Space"),
        39 => Some("Quote"),
        44 => Some("Comma"),
        45 => Some("Minus"),
        46 => Some("Period"),
        47 => Some("Slash"),
        59 => Some("Semicolon"),
        61 => Some("Equal"),
        91 => Some("BracketLeft"),
        92 => Some("Backslash"),
        93 => Some("BracketRight"),
        96 => Some("Backquote"),
        256 => Some("Escape"),
        257 => Some("Enter"),
        258 => Some("Tab"),
        259 => Some("Backspace"),
        260 => Some("Insert"),
        261 => Some("Delete"),
        262 => Some("ArrowRight"),
        263 => Some("ArrowLeft"),
        264 => Some("ArrowDown"),
        265 => Some("ArrowUp"),
        266 => Some("PageUp"),
        267 => Some("PageDown"),
        268 => Some("Home"),
        269 => Some("End"),
        280 => Some("CapsLock"),
        281 => Some("ScrollLock"),
        282 => Some("NumLock"),
        _ => None,
    }
}

/// The name under which the toolkit knows a GLFW key token.
pub fn glfw_key_code(key: i32) -> (r: Option<&'static str>)
    ensures
        r.is_some() == glfw_key_name(key as int).is_some(),
        r matches Some(name) ==> Some(name@) == glfw_key_name(key as int),
{
    if 65 <= key && key <= 90 {
        letter_key_name(key)
    } else if 48 <= key && key <= 57 {
        digit_key_name(key)
    } else if 290 <= key && key <= 301 {
        function_key_name(key)
    } else if 320 <= key && key <= 329 {
        numpad_key_name(key)
    } else {
        named_key_name(key)
    }
}

impl Key {
    /// Whether `k` is what `from_glfw` gives for the key token and modifiers.
    pub open spec fn spec_is_from_glfw(k: Key, key: i32, modifiers: i32) -> bool {
        &&& Some(k.code@) == glfw_key_name(key as int)
        &&& k.shift == (modifiers & GLFW_MOD_SHIFT != 0)
        &&& k.ctrl == (modifiers & GLFW_MOD_CONTROL != 0)
        &&& k.alt == (modifiers & GLFW_MOD_ALT != 0)
        &&& !k.is_modifier
    }

    /// The key for a key of GLFW, given by its key token and the bits of the
    /// modifiers that were held.
    ///
    /// The result is `None` for a key without a name in `glfw_key_name`. That
    /// includes the shift, control and alt keys themselves, so a key that is
    /// reported is never a modifier.
    pub fn from_glfw(key: i32, modifiers: i32) -> (r: Option<Key>)
        ensures
            r.is_some() == glfw_key_name(key as int).is_some(),
            r matches Some(k) ==> Key::spec_is_from_glfw(k, key, modifiers),
    {
        match glfw_key_code(key) {
            Some(code) => Some(
                Key {
                    code: code.to_owned(),
                    shift: modifiers & GLFW_MOD_SHIFT != 0,
                    ctrl: modifiers & GLFW_MOD_CONTROL != 0,
                    alt: modifiers & GLFW_MOD_ALT != 0,
                    is_modifier: key == 340 || key == 341 || key == 342 || key == 344 || key
                        == 345 || key == 346,
                },
            ),
            None => None,
        }
    }
}

impl MouseButton {
    /// The button with the given number in GLFW: the first three are the
    /// left, the right and the middle button.
    pub open spec fn spec_from_glfw(button: i32) -> Option<MouseButton> {
        if button == 0 {
            Some(MouseButton::Left)
        } else if button == 1 {
            Some(MouseButton::Right)
        } else if button == 2 {
            Some(MouseButton::Middle)
        } else {
            None
        }
    }

    /// The button for a mouse button of GLFW, given by its number.
    pub fn from_glfw(button: i32) -> (r: Option<MouseButton>)
        ensures
            r == MouseButton::spec_from_glfw(button),
    {
        match button {
            0 => Some(MouseButton::Left),
            1 => Some(MouseButton::Right),
            2 => Some(MouseButton::Middle),
            _ => None,
        }
    }

    /// The button for the `button` of a browser's mouse event.
    pub fn from_js(js_button: i16) -> (r: Option<MouseButton>)
        ensures
            r == (if js_button == 0 {
                Some(MouseButton::Left)
            } else if js_button == 1 {
                Some(MouseButton::Middle)
            } else if js_button == 2 {
                Some(MouseButton::Right)
            } else if js_button == 3 {
                Some(MouseButton::Back)
            } else if js_button == 4 {
                Some(MouseButton::Forward)
            } else {
                None
            }),
    {
        match js_button {
            0 => Some(MouseButton::Left),
            1 => Some(MouseButton::Middle),
            2 => Some(MouseButton::Right),
            3 => Some(MouseButton::Back),
            4 => Some(MouseButton::Forward),
            _ => None,
        }
    }
}

/// What the window system of the desktop reports, reduced to the values that
/// the toolkit reads.
#[derive(Clone, Copy, Debug, PartialEq, Eq, Structural)]
pub enum WindowEvent {
    /// A mouse button, by its number, was pressed or released.
    MouseButton { button: i32, released: bool },
    /// The cursor moved to the given position.
    CursorPos(Vec2),
    /// A key, by its key token, was pressed, repeated or released.
    Key { key: i32, released: bool, modifiers: i32 },
    /// The cursor entered (`true`) or left the window.
    CursorEnter(bool),
    /// The framebuffer has the given width and height from now on.
    FramebufferSize(i32, i32),
    /// The wheel was turned; the value is the sign of the vertical offset.
    Scroll(i8),
    /// The window gained (`true`) or lost the input focus.
    Focus(bool),
    /// Anything else.
    Other,
}

/// The event of the toolkit for what the window system reports.
///
/// `cursor_pos` is where the cursor is now, which is where a mouse button is
/// taken to have been used. `prev_cursor_pos` is where the cursor was when it
/// last moved, if it ever did; a move sets it, and the first move only sets it.
///
/// The movement of the cursor must fit in an `i32` on both axes.
pub fn event_from_glfw(
    event: &WindowEvent,
    cursor_pos: Vec2,
    prev_cursor_pos: &mut Option<Vec2>,
) -> (r: Option<Event>)
    requires
        match (*event, *old(prev_cursor_pos)) {
            (WindowEvent::CursorPos(p), Some(q)) => in_i32(p.x - q.x) && in_i32(p.y - q.y),
            _ => true,
        },
    ensures
        *final(prev_cursor_pos) == (match *event {
            WindowEvent::CursorPos(p) => Some(p),
            _ => *old(prev_cursor_pos),
        }),
        match *event {
            WindowEvent::MouseButton { button, released } => match MouseButton::spec_from_glfw(
                button,
            ) {
                Some(b) => r == Some(
                    if released {
                        Event::MouseUp(b, cursor_pos)
                    } else {
                        Event::MouseDown(b, cursor_pos)
                    },
                ),
                None => r.is_none(),
            },
            WindowEvent::CursorPos(p) => match *old(prev_cursor_pos) {
                Some(q) => r == Some(
                    Event::MouseMove { pos: p, movement: Vec2 {
                        x: (p.x - q.x) as i32,
                        y: (p.y - q.y) as i32,
                    } },
                ),
                None => r.is_none(),
            },
            WindowEvent::Key { key, released, modifiers } => match r {
                Some(Event::KeyUp(k)) => released && Key::spec_is_from_glfw(k, key, modifiers),
                Some(Event::KeyDown(k)) => !released && Key::spec_is_from_glfw(
                    k,
                    key,
                    modifiers,
                ),
                Some(_) => false,
                None => glfw_key_name(key as int).is_none(),
            },
            WindowEvent::CursorEnter(entered) => r == Some(
                if entered {
                    Event::MouseEnter
                } else {
                    Event::MouseLeave
                },
            ),
            WindowEvent::FramebufferSize(width, height) => r == Some(
                Event::WindowResized(Extent { x: width as u32, y: height as u32 }),
            ),
            WindowEvent::Scroll(sign) => r == Some(Event::Scroll(-(sign as int) as i32)),
            WindowEvent::Focus(gained) => r == Some(
                if gained {
                    Event::FocusGained
                } else {
                    Event::FocusLost
                },
            ),
            WindowEvent::Other => r.is_none(),
        },
{
    match *event {
        WindowEvent::MouseButton { button, released } => {
            match MouseButton::from_glfw(button) {
                Some(b) => if released {
                    Some(Event::MouseUp(b, cursor_pos))
                } else {
                    Some(Event::MouseDown(b, cursor_pos))
                },
                None => None,
            }
        },
        WindowEvent::CursorPos(p) => {
            let res = match *prev_cursor_pos {
                Some(q) => Some(
                    Event::MouseMove { pos: p, movement: Vec2 { x: p.x - q.x, y: p.y - q.y } },
                ),
                None => None,
            };
            *prev_cursor_pos = Some(p);
            res
        },
        WindowEvent::Key { key, released, modifiers } => {
            match Key::from_glfw(key, modifiers) {
                Some(k) => if released {
                    Some(Event::KeyUp(k))
                } else {
                    Some(Event::KeyDown(k))
                },
                None => None,
            }
        },
        WindowEvent::CursorEnter(true) => Some(Event::MouseEnter),
        WindowEvent::CursorEnter(false) => Some(Event::MouseLeave),
        WindowEvent::FramebufferSize(width, height) => Some(
            Event::WindowResized(Extent { x: width as u32, y: height as u32 }),
        ),
        WindowEvent::Scroll(sign) => {
            let step: i32 = sign as i32;
            Some(Event::Scroll(-step))
        },
        WindowEvent::Focus(true) => Some(Event::FocusGained),
        WindowEvent::Focus(false) => Some(Event::FocusLost),
        WindowEvent::Other => None,
    }
}

} // verus!
