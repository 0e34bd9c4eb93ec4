//! What the toolkit asks of the window system of the desktop: the hints for
//! the window it is about to open, and where the window goes.

use crate::geom::Vec2;
use crate::gl::surface::WindowMode;
use crate::gui::event::Extent;
use vstd::prelude::*;

verus! {

/// The profile of OpenGL that a window is to offer.
#[derive(Copy, Clone, Debug, PartialEq, Eq, Structural)]
pub enum OpenGlProfileHint {
    Any,
    Core,
    Compat,
}

/// A wish for the next window that is opened.
#[derive(Copy, Clone, Debug, PartialEq, Eq, Structural)]
pub enum WindowHint {
    Visible(bool),
    OpenGlDebugContext(bool),
    Samples(Option<u32>),
    Resizable(bool),
    ContextVersion(u32, u32),
    OpenGlProfile(OpenGlProfileHint),
    OpenGlForwardCompat(bool),
}

/// What the window system has been asked for so far: the hints for the next
/// window, in the order in which they were given.
pub struct Glfw {
    pub hints: Vec<WindowHint>,
}

/// The hints that the toolkit gives for its window: hidden until it is set
/// up, four samples per pixel, resizable, and a forward-compatible core
/// profile of OpenGL 3.2, with a debug context where asked for.
pub open spec fn toolkit_hints(debug_context: bool) -> Seq<WindowHint> {
    seq![
        WindowHint::Visible(false),
        WindowHint::OpenGlDebugContext(debug_context),
        WindowHint::Samples(Some(4u32)),
        WindowHint::Resizable(true),
        WindowHint::ContextVersion(3, 2),
        WindowHint::OpenGlProfile(OpenGlProfileHint::Core),
        WindowHint::OpenGlForwardCompat(true),
    ]
}

/// The window system before anything was asked of it.
pub fn get_glfw() -> (glfw: Glfw)
    ensures
        glfw.hints@ == Seq::<WindowHint>::empty(),
{
    Glfw { hints: Vec::new() }
}

/// Gives the hints for the window of the toolkit.
pub fn set_window_hints(glfw: &mut Glfw, debug_context: bool)
    ensures
        final(glfw).hints@ == old(glfw).hints@ + toolkit_hints(debug_context),
{
    glfw.hints.push(WindowHint::Visible(false));
    glfw.hints.push(WindowHint::OpenGlDebugContext(debug_context));
    glfw.hints.push(WindowHint::Samples(Some(4)));
    glfw.hints.push(WindowHint::Resizable(true));
    glfw.hints.push(WindowHint::ContextVersion(3, 2));
    glfw.hints.push(WindowHint::OpenGlProfile(OpenGlProfileHint::Core));
    glfw.hints.push(WindowHint::OpenGlForwardCompat(true));
    assert(glfw.hints@ =~= old(glfw).hints@ + toolkit_hints(debug_context));
}

/// Whether the cursor is shown and free, or hidden and held by the window.
#[derive(Copy, Clone, Debug, PartialEq, Eq, Structural)]
pub enum CursorMode {
    Normal,
    Disabled,
}

impl CursorMode {
    /// The mode for a window that does, or does not, grab the cursor.
    pub fn for_grab(grab_cursor: bool) -> (r: CursorMode)
        ensures
            r == (if grab_cursor {
                CursorMode::Disabled
            } else {
                CursorMode::Normal
            }),
    {
        if grab_cursor {
            CursorMode::Disabled
        } else {
            CursorMode::Normal
        }
    }
}

/// Where a window of the given size goes on a monitor, so that it is centred.
pub open spec fn spec_centered(monitor: Extent, size: Extent) -> Option<Vec2> {
    if size.x <= monitor.x && size.y <= monitor.y {
        Some(
            Vec2 { x: ((monitor.x - size.x) / 2) as i32, y: ((monitor.y - size.y) / 2) as i32 },
        )
    } else {
        None
    }
}

/// Where a window of the given size goes on a monitor, so that it is
/// centred. `None` if the window is larger than the monitor.
pub fn centered_position(monitor: Extent, size: Extent) -> (r: Option<Vec2>)
    ensures
        r == spec_centered(monitor, size),
{
    if size.x <= monitor.x && size.y <= monitor.y {
        Some(
            Vec2 { x: ((monitor.x - size.x) / 2) as i32, y: ((monitor.y - size.y) / 2) as i32 },
        )
    } else {
        None
    }
}

/// How the window of the toolkit lies on the monitor.
#[derive(Copy, Clone, Debug, PartialEq, Eq, Structural)]
pub struct Placement {
    /// Whether the window takes the whole monitor.
    pub fullscreen: bool,
    /// Where the window starts on the monitor.
    pub pos: Vec2,
    /// The size of the window.
    pub size: Extent,
}

/// How a window in the given mode lies on a monitor of the given size: over
/// all of it, or centred on it with the size of the mode.
pub open spec fn spec_placement(window_mode: WindowMode, monitor: Extent) -> Option<Placement> {
    match window_mode {
        WindowMode::Fullscreen => Some(Placement { fullscreen: true, pos: Vec2 { x: 0, y: 0 }, size: monitor }),
        WindowMode::Windowed(size, _) => match spec_centered(monitor, size) {
            Some(pos) => Some(Placement { fullscreen: false, pos, size }),
            None => None,
        },
    }
}

/// What the toolkit asks for when it opens its window.
pub struct WindowPlan {
    pub placement: Placement,
    /// The title of the window; a window over the whole monitor has none.
    pub title: String,
    pub cursor_mode: CursorMode,
}

/// Plans the window of the toolkit on a monitor of the given size: gives the
/// hints for it and says how it lies, what it is called and what becomes of
/// the cursor. `None` if the window is larger than the monitor.
pub fn create_window_inner(
    glfw: &mut Glfw,
    window_mode: &WindowMode,
    monitor: Extent,
    grab_cursor: bool,
    debug_context: bool,
) -> (r: Option<WindowPlan>)
    ensures
        final(glfw).hints@ == old(glfw).hints@ + toolkit_hints(debug_context),
        r.is_some() == spec_placement(*window_mode, monitor).is_some(),
        r matches Some(plan) ==> {
            &&& Some(plan.placement) == spec_placement(*window_mode, monitor)
            &&& plan.cursor_mode == (if grab_cursor {
                CursorMode::Disabled
            } else {
                CursorMode::Normal
            })
            &&& plan.title@ == (match *window_mode {
                WindowMode::Fullscreen => Seq::<char>::empty(),
                WindowMode::Windowed(_, title) => title@,
            })
        },
{
    set_window_hints(glfw, debug_context);
    let placement = match update_window_mode(window_mode, monitor) {
        Some(placement) => placement,
        None => {
            return None;
        },
    };
    let title = match window_mode {
        WindowMode::Fullscreen => String::new(),
        WindowMode::Windowed(_, title) => title.clone(),
    };
    Some(WindowPlan { placement, title, cursor_mode: CursorMode::for_grab(grab_cursor) })
}

/// How a window lies on a monitor of the given size after a change to the
/// given mode. `None` if the window is larger than the monitor.
pub fn update_window_mode(window_mode: &WindowMode, monitor: Extent) -> (r: Option<Placement>)
    ensures
        r == spec_placement(*window_mode, monitor),
{
    match window_mode {
        WindowMode::Fullscreen => Some(Placement { fullscreen: true, pos: Vec2 { x: 0, y: 0 }, size: monitor }),
        WindowMode::Windowed(size, _) => match centered_position(monitor, *size) {
            Some(pos) => Some(Placement { fullscreen: false, pos, size: *size }),
            None => None,
        },
    }
}

} // verus!
