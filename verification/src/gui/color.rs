//! Colours, as the toolkit carries them from the application to the drawing
//! code.

use vstd::prelude::*;

verus! {

/// The bit pattern of the 32-bit float `0.0`.
pub const F32_ZERO: u32 = 0x0000_0000;

/// The bit pattern of the 32-bit float `1.0`.
pub const F32_ONE: u32 = 0x3F80_0000;

/// An RGBA colour in a linear colour space.
///
/// Each channel is a 32-bit float, held as its bit pattern: the toolkit
/// passes colours on and never computes with them.
#[derive(Clone, Copy, Debug, PartialEq, Eq, Structural)]
pub struct Color4 {
    pub r: u32,
    pub g: u32,
    pub b: u32,
    pub a: u32,
}

impl Color4 {
    /// Opaque black.
    pub open spec fn spec_black() -> Color4 {
        Color4 { r: F32_ZERO, g: F32_ZERO, b: F32_ZERO, a: F32_ONE }
    }

    /// Opaque black.
    #[verifier::when_used_as_spec(spec_black)]
    pub fn black() -> (c: Color4)
        ensures
            c == (Color4 { r: F32_ZERO, g: F32_ZERO, b: F32_ZERO, a: F32_ONE }),
    {
        Color4 { r: F32_ZERO, g: F32_ZERO, b: F32_ZERO, a: F32_ONE }
    }

    /// Opaque white.
    pub fn white() -> (c: Color4)
        ensures
            c == (Color4 { r: F32_ONE, g: F32_ONE, b: F32_ONE, a: F32_ONE }),
    {
        Color4 { r: F32_ONE, g: F32_ONE, b: F32_ONE, a: F32_ONE }
    }

    /// Black without any opacity.
    pub fn transparent() -> (c: Color4)
        ensures
            c == (Color4 { r: F32_ZERO, g: F32_ZERO, b: F32_ZERO, a: F32_ZERO }),
    {
        Color4 { r: F32_ZERO, g: F32_ZERO, b: F32_ZERO, a: F32_ZERO }
    }

    /// The four channels in the order red, green, blue, alpha, as they are
    /// written into the data of a mesh.
    pub fn to_array(self) -> (a: [u32; 4])
        ensures
            a@ == seq![self.r, self.g, self.b, self.a],
    {
        let a = [self.r, self.g, self.b, self.a];
        assert(a@ =~= seq![self.r, self.g, self.b, self.a]);
        a
    }
}

} // verus!
