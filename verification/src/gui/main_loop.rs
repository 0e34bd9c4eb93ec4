//! The state of the input devices, kept up to date from the events of a
//! frame.

use crate::collections::{
    button_set_clear, button_set_insert, button_set_new, button_set_remove, key_set_clear,
    key_set_contents, key_set_insert, key_set_new, key_set_remove,
};
use crate::geom::Vec2;
use crate::gui::event::{Event, Keycode, MouseButton};
use fxhash::FxHashSet;
use vstd::prelude::*;

verus! {

/// What is known of the input devices at one moment.
pub struct EventState {
    /// The names of all keys that are held down.
    pub pressed_keys: FxHashSet<Keycode>,
    /// All mouse buttons that are held down.
    pub pressed_mouse_buttons: FxHashSet<MouseButton>,
    /// Where the cursor is, once it has moved.
    pub cursor_pos: Option<Vec2>,
    /// Where the cursor was before it last moved.
    pub prev_cursor_pos: Option<Vec2>,
    /// Whether the pointer is locked to the window.
    pub pointer_locked: bool,
}

/// The contents of an `EventState`.
pub ghost struct EventStateView {
    pub pressed_keys: Set<Seq<char>>,
    pub pressed_mouse_buttons: Set<MouseButton>,
    pub cursor_pos: Option<Vec2>,
    pub prev_cursor_pos: Option<Vec2>,
    pub pointer_locked: bool,
}

impl EventStateView {
    /// The state after `event`, seen from this state.
    ///
    /// A key or button that goes down is held from then on, until it goes up.
    /// When the window loses the focus nothing is held any more; when the
    /// cursor leaves the window no button is. A move of the cursor makes the
    /// position so far the previous one.
    pub open spec fn after(self, event: Event) -> EventStateView {
        match event {
            Event::KeyDown(key) => EventStateView {
                pressed_keys: self.pressed_keys.insert(key.code@),
                ..self
            },
            Event::KeyUp(key) => EventStateView {
                pressed_keys: self.pressed_keys.remove(key.code@),
                ..self
            },
            Event::FocusLost => EventStateView {
                pressed_keys: Set::empty(),
                pressed_mouse_buttons: Set::empty(),
                ..self
            },
            Event::MouseDown(button, _) => EventStateView {
                pressed_mouse_buttons: self.pressed_mouse_buttons.insert(button),
                ..self
            },
            Event::MouseUp(button, _) => EventStateView {
                pressed_mouse_buttons: self.pressed_mouse_buttons.remove(button),
                ..self
            },
            Event::MouseLeave => EventStateView { pressed_mouse_buttons: Set::empty(), ..self },
            Event::PointerLocked => EventStateView { pointer_locked: true, ..self },
            Event::PointerUnlocked => EventStateView { pointer_locked: false, ..self },
            Event::MouseMove { pos, movement } => EventStateView {
                prev_cursor_pos: self.cursor_pos,
                cursor_pos: Some(pos),
                ..self
            },
            _ => self,
        }
    }
}

impl View for EventState {
    type V = EventStateView;

    open spec fn view(&self) -> EventStateView {
        EventStateView {
            pressed_keys: key_set_contents(self.pressed_keys),
            pressed_mouse_buttons: self.pressed_mouse_buttons@,
            cursor_pos: self.cursor_pos,
            prev_cursor_pos: self.prev_cursor_pos,
            pointer_locked: self.pointer_locked,
        }
    }
}

impl EventState {
    /// The state before any event: nothing is held, and the cursor has not
    /// been seen.
    pub fn new(pointer_locked: bool) -> (s: EventState)
        ensures
            s@ == (EventStateView {
                pressed_keys: Set::empty(),
                pressed_mouse_buttons: Set::empty(),
                cursor_pos: None,
                prev_cursor_pos: None,
                pointer_locked,
            }),
    {
        EventState {
            pressed_keys: key_set_new(),
            pressed_mouse_buttons: button_set_new(),
            cursor_pos: None,
            prev_cursor_pos: None,
            pointer_locked,
        }
    }

    /// Brings the state up to date with `event`.
    pub fn apply(&mut self, event: &Event)
        ensures
            final(self)@ == old(self)@.after(*event),
    {
        match event {
            Event::KeyDown(key) => {
                key_set_insert(&mut self.pressed_keys, key.code.clone());
            },
            Event::KeyUp(key) => {
                key_set_remove(&mut self.pressed_keys, key.code.as_str());
            },
            Event::FocusLost => {
                key_set_clear(&mut self.pressed_keys);
                button_set_clear(&mut self.pressed_mouse_buttons);
            },
            Event::MouseDown(button, _) => {
                button_set_insert(&mut self.pressed_mouse_buttons, *button);
            },
            Event::MouseUp(button, _) => {
                button_set_remove(&mut self.pressed_mouse_buttons, *button);
            },
            Event::MouseLeave => {
                button_set_clear(&mut self.pressed_mouse_buttons);
            },
            Event::PointerLocked => {
                self.pointer_locked = true;
            },
            Event::PointerUnlocked => {
                self.pointer_locked = false;
            },
            Event::MouseMove { pos, movement } => {
                self.prev_cursor_pos = self.cursor_pos;
                self.cursor_pos = Some(*pos);
            },
            _ => {},
        }
    }

    /// Takes in one event of a frame and says whether it is passed on.
    ///
    /// While the window is being resized, a move of the cursor carries a large
    /// offset without meaning: it is dropped, and the state stays as it is.
    /// Every other event is passed on, and the state is brought up to date
    /// with it.
    pub fn process(&mut self, event: &Event, window_resized: bool) -> (passed_on: bool)
        ensures
            passed_on == !(window_resized && event is MouseMove),
            final(self)@ == (if passed_on {
                old(self)@.after(*event)
            } else {
                old(self)@
            }),
    {
        if window_resized {
            if let Event::MouseMove { pos, movement } = event {
                return false;
            }
        }
        self.apply(event);
        true
    }
}

} // verus!
