//! What a screenshot needs besides the pixels: the size of its buffer and
//! the name of its file.

use crate::gui::event::Extent;
use vstd::prelude::*;
use vstd::string::*;

verus! {

/// The number of bytes of a pixel with, or without, an alpha channel.
pub open spec fn bytes_per_pixel(include_alpha: bool) -> int {
    if include_alpha {
        4
    } else {
        3
    }
}

/// The number of bytes of the pixels of a surface of the given size: width
/// times height times the bytes of a pixel. `None` if that does not fit in a
/// `u32`.
pub fn screenshot_buffer_len(size: Extent, include_alpha: bool) -> (r: Option<usize>)
    ensures
        r.is_some() == (size.x * size.y * bytes_per_pixel(include_alpha) <= u32::MAX),
        r matches Some(len) ==> len == size.x * size.y * bytes_per_pixel(include_alpha),
{
    let channels: u32 = if include_alpha {
        4
    } else {
        3
    };
    match size.x.checked_mul(size.y) {
        Some(pixels) => match pixels.checked_mul(channels) {
            Some(bytes) => Some(bytes as usize),
            None => None,
        },
        None => {
            assert(size.x * size.y * bytes_per_pixel(include_alpha) > u32::MAX)
                by (nonlinear_arith)
                requires
                    size.x * size.y > u32::MAX,
                    bytes_per_pixel(include_alpha) >= 3,
            ;
            None
        },
    }
}

/// The path of a screenshot that was taken at the given time and was given
/// no path: `screenshots/screenshot-`, the time, `.png`.
pub fn default_screenshot_path(time: &str) -> (r: String)
    ensures
        r@ == "screenshots/screenshot-"@ + time@ + ".png"@,
{
    let mut path = String::from_str("screenshots/screenshot-");
    path.append(time);
    path.append(".png");
    path
}

} // verus!
