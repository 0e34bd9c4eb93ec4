//! What can be drawn on: which buffers of a surface are cleared, and the
//! mode of the window.

use crate::gui::color::Color4;
use crate::gui::event::Extent;
use vstd::prelude::*;

verus! {

/// The bit of the colour buffer in the mask of a clear,
/// `GL_COLOR_BUFFER_BIT`.
pub const COLOR_BUFFER_BIT: u32 = 0x4000;

/// The bit of the depth buffer in the mask of a clear,
/// `GL_DEPTH_BUFFER_BIT`.
pub const DEPTH_BUFFER_BIT: u32 = 0x0100;

/// A buffer of a surface that is to be cleared.
#[derive(Copy, Clone, Debug, PartialEq, Eq, Structural)]
pub enum ClearBuffer {
    /// The colour buffer, which is filled with the given colour.
    Color(Color4),
    /// The depth buffer.
    Depth,
}

impl ClearBuffer {
    /// The bit of the buffer in the mask of a clear.
    pub fn as_gl(&self) -> (r: u32)
        ensures
            r == (match self {
                ClearBuffer::Color(_) => COLOR_BUFFER_BIT,
                ClearBuffer::Depth => DEPTH_BUFFER_BIT,
            }),
    {
        match self {
            ClearBuffer::Color(_) => COLOR_BUFFER_BIT,
            ClearBuffer::Depth => DEPTH_BUFFER_BIT,
        }
    }

    /// The colour that the buffer is filled with, for the colour buffer.
    pub fn color(&self) -> (r: Option<Color4>)
        ensures
            r == (match self {
                ClearBuffer::Color(c) => Some(*c),
                ClearBuffer::Depth => None,
            }),
    {
        match self {
            ClearBuffer::Color(c) => Some(*c),
            ClearBuffer::Depth => None,
        }
    }
}

/// What the driver is asked for to clear buffers.
#[derive(Copy, Clone, Debug, PartialEq, Eq, Structural)]
pub struct ClearPlan {
    /// The bits of the buffers to clear.
    pub mask: u32,
    /// The colour to clear the colour buffer with, if it is cleared.
    pub color: Option<Color4>,
}

/// The colour of the last colour buffer among the first `k` buffers.
pub open spec fn last_clear_color(buffers: Seq<ClearBuffer>, k: nat) -> Option<Color4>
    decreases k,
{
    if k == 0 || k > buffers.len() {
        None
    } else {
        match buffers[k - 1] {
            ClearBuffer::Color(c) => Some(c),
            ClearBuffer::Depth => last_clear_color(buffers, (k - 1) as nat),
        }
    }
}

/// The mask for a clear of the colour buffer, the depth buffer, both or
/// neither.
pub open spec fn clear_mask(color: bool, depth: bool) -> u32 {
    if color && depth {
        0x4100
    } else if color {
        0x4000
    } else if depth {
        0x0100
    } else {
        0
    }
}

/// What the driver is asked for to clear the given buffers: the mask holds
/// the bit of each buffer that is named, and the colour is that of the colour
/// buffer that is named last.
pub fn clear_plan(buffers: &[ClearBuffer]) -> (plan: ClearPlan)
    requires
        buffers@.len() > 0,
    ensures
        plan.mask == clear_mask(
            exists|i: int| 0 <= i < buffers@.len() && buffers@[i] is Color,
            exists|i: int| 0 <= i < buffers@.len() && buffers@[i] is Depth,
        ),
        plan.color == last_clear_color(buffers@, buffers@.len()),
{
    let mut bits: u32 = 0;
    let mut color: Option<Color4> = None;
    let mut i: usize = 0;
    let ghost mut seen_color = false;
    let ghost mut seen_depth = false;
    while i < buffers.len()
        invariant
            i <= buffers@.len(),
            seen_color == exists|j: int| 0 <= j < i && buffers@[j] is Color,
            seen_depth == exists|j: int| 0 <= j < i && buffers@[j] is Depth,
            bits == clear_mask(seen_color, seen_depth),
            color == last_clear_color(buffers@, i as nat),
        decreases buffers@.len() - i,
    {
        assert(0u32 | 0x4000u32 == 0x4000u32) by (bit_vector);
        assert(0x0100u32 | 0x4000u32 == 0x4100u32) by (bit_vector);
        assert(0x4000u32 | 0x4000u32 == 0x4000u32) by (bit_vector);
        assert(0x4100u32 | 0x4000u32 == 0x4100u32) by (bit_vector);
        assert(0u32 | 0x0100u32 == 0x0100u32) by (bit_vector);
        assert(0x0100u32 | 0x0100u32 == 0x0100u32) by (bit_vector);
        assert(0x4000u32 | 0x0100u32 == 0x4100u32) by (bit_vector);
        assert(0x4100u32 | 0x0100u32 == 0x4100u32) by (bit_vector);
        bits = bits | buffers[i].as_gl();
        if let Some(c) = buffers[i].color() {
            color = Some(c);
        }
        proof {
            if buffers@[i as int] is Color {
                seen_color = true;
            } else {
                seen_depth = true;
            }
        }
        i = i + 1;
    }
    ClearPlan { mask: bits, color }
}

/// Whether the toolkit takes the whole screen or a window of a given size
/// and title.
pub enum WindowMode {
    Fullscreen,
    Windowed(Extent, String),
}

impl Clone for WindowMode {
    fn clone(&self) -> (r: WindowMode)
        ensures
            r == *self,
    {
        match self {
            WindowMode::Fullscreen => WindowMode::Fullscreen,
            WindowMode::Windowed(size, title) => WindowMode::Windowed(*size, title.clone()),
        }
    }
}

impl WindowMode {
    /// Whether the mode is a window.
    pub fn is_windowed(&self) -> (r: bool)
        ensures
            r == (*self is Windowed),
    {
        match self {
            WindowMode::Windowed(_, _) => true,
            WindowMode::Fullscreen => false,
        }
    }
}

} // verus!
