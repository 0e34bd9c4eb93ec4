//! Framebuffers: their viewport and the states that the driver reports.

use crate::geom::{Rect, Vec2};
use crate::gui::event::Extent;
use vstd::prelude::*;

verus! {

/// The state of a framebuffer that is ready for use,
/// `GL_FRAMEBUFFER_COMPLETE`.
pub const FRAMEBUFFER_COMPLETE: u32 = 0x8CD5;

/// Why a framebuffer in the given state cannot be used.
pub open spec fn incomplete_reason(status: u32) -> Seq<char> {
    if status == 0x8CD6 {
        "incomplete attachment"@
    } else if status == 0x8CD7 {
        "incomplete missing attachment"@
    } else if status == 0x8CDD {
        "unsupported"@
    } else {
        "unknown reason"@
    }
}

/// Why a framebuffer in the state that the driver reports cannot be used, or
/// `None` if it is complete.
pub fn framebuffer_status_reason(status: u32) -> (r: Option<&'static str>)
    ensures
        r.is_some() == (status != FRAMEBUFFER_COMPLETE),
        r matches Some(reason) ==> reason@ == incomplete_reason(status),
{
    match status {
        0x8CD5 => None,
        0x8CD6 => Some("incomplete attachment"),
        0x8CD7 => Some("incomplete missing attachment"),
        0x8CDD => Some("unsupported"),
        _ => Some("unknown reason"),
    }
}

/// The viewport that covers a surface of the given size: from the origin to
/// the size. `None` if the size does not fit in signed coordinates.
pub fn viewport_for(size: Extent) -> (r: Option<Rect>)
    ensures
        r == (if size.x <= i32::MAX && size.y <= i32::MAX {
            Some(
                Rect {
                    start: Vec2 { x: 0, y: 0 },
                    end: Vec2 { x: size.x as i32, y: size.y as i32 },
                },
            )
        } else {
            None
        }),
{
    if size.x <= 0x7fff_ffff && size.y <= 0x7fff_ffff {
        Some(
            Rect { start: Vec2 { x: 0, y: 0 }, end: Vec2 { x: size.x as i32, y: size.y as i32 } },
        )
    } else {
        None
    }
}

} // verus!
