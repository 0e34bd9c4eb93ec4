//! The formats and sampling modes of textures.

use vstd::prelude::*;

verus! {

/// The format in which a texture holds its pixels.
#[derive(Copy, Clone, Debug, PartialEq, Eq, Structural)]
pub enum TextureFormat {
    Red,
    RGB,
    RGBA,
    SRGB,
    SRGBA,
}

impl TextureFormat {
    /// The format in which the driver stores the texture: `GL_R8`,
    /// `GL_RGB8`, `GL_RGBA8`, `GL_SRGB8` or `GL_SRGB8_ALPHA8`.
    pub open spec fn spec_to_gl_internal_format(self) -> u32 {
        match self {
            TextureFormat::Red => 0x8229,
            TextureFormat::RGB => 0x8051,
            TextureFormat::RGBA => 0x8058,
            TextureFormat::SRGB => 0x8C41,
            TextureFormat::SRGBA => 0x8C43,
        }
    }

    /// The layout of the pixels that are handed to the driver: `GL_RED`,
    /// `GL_RGB` or `GL_RGBA`. An sRGB format takes its pixels in the layout
    /// of its linear counterpart.
    pub open spec fn spec_to_gl_format(self) -> u32 {
        match self {
            TextureFormat::Red => 0x1903,
            TextureFormat::RGB | TextureFormat::SRGB => 0x1907,
            TextureFormat::RGBA | TextureFormat::SRGBA => 0x1908,
        }
    }

    /// The format in which the driver stores the texture.
    pub fn to_gl_internal_format(self) -> (r: u32)
        ensures
            r == self.spec_to_gl_internal_format(),
    {
        match self {
            TextureFormat::Red => 0x8229,
            TextureFormat::RGB => 0x8051,
            TextureFormat::RGBA => 0x8058,
            TextureFormat::SRGB => 0x8C41,
            TextureFormat::SRGBA => 0x8C43,
        }
    }

    /// The layout of the pixels that are handed to the driver.
    pub fn to_gl_format(self) -> (r: u32)
        ensures
            r == self.spec_to_gl_format(),
    {
        match self {
            TextureFormat::Red => 0x1903,
            TextureFormat::RGB => 0x1907,
            TextureFormat::RGBA => 0x1908,
            TextureFormat::SRGB => 0x1907,
            TextureFormat::SRGBA => 0x1908,
        }
    }

    /// Whether the texture holds its colours in sRGB.
    pub fn is_srgb(self) -> (r: bool)
        ensures
            r == (self == TextureFormat::SRGB || self == TextureFormat::SRGBA),
    {
        match self {
            TextureFormat::SRGB => true,
            TextureFormat::SRGBA => true,
            _ => false,
        }
    }
}

/// How a texture is sampled where it is shown smaller than it is.
#[derive(Copy, Clone, Debug, PartialEq, Eq, Structural)]
pub enum MinFilter {
    Nearest,
    Linear,
    NearestMipmapNearest,
    NearestMipmapLinear,
    LinearMipmapNearest,
    LinearMipmapLinear,
}

impl MinFilter {
    /// The value that names the filter to the driver.
    pub open spec fn spec_as_gl(self) -> u32 {
        match self {
            MinFilter::Nearest => 0x2600,
            MinFilter::Linear => 0x2601,
            MinFilter::NearestMipmapNearest => 0x2700,
            MinFilter::NearestMipmapLinear => 0x2702,
            MinFilter::LinearMipmapNearest => 0x2701,
            MinFilter::LinearMipmapLinear => 0x2703,
        }
    }

    /// The value that names the filter to the driver.
    pub fn as_gl(self) -> (r: u32)
        ensures
            r == self.spec_as_gl(),
    {
        match self {
            MinFilter::Nearest => 0x2600,
            MinFilter::Linear => 0x2601,
            MinFilter::NearestMipmapNearest => 0x2700,
            MinFilter::NearestMipmapLinear => 0x2702,
            MinFilter::LinearMipmapNearest => 0x2701,
            MinFilter::LinearMipmapLinear => 0x2703,
        }
    }

    /// Whether the filter reads mipmaps, which then have to be generated.
    pub fn has_mipmap(self) -> (r: bool)
        ensures
            r == !(self == MinFilter::Nearest || self == MinFilter::Linear),
    {
        match self {
            MinFilter::Nearest => false,
            MinFilter::Linear => false,
            _ => true,
        }
    }
}

/// How a texture is sampled where it is shown larger than it is.
#[derive(Copy, Clone, Debug, PartialEq, Eq, Structural)]
pub enum MagFilter {
    Nearest,
    Linear,
}

impl MagFilter {
    /// The value that names the filter to the driver: `GL_NEAREST` or
    /// `GL_LINEAR`.
    pub fn as_gl(self) -> (r: u32)
        ensures
            r == (match self {
                MagFilter::Nearest => 0x2600u32,
                MagFilter::Linear => 0x2601u32,
            }),
    {
        match self {
            MagFilter::Nearest => 0x2600,
            MagFilter::Linear => 0x2601,
        }
    }
}

/// How a texture is sampled outside its area.
#[derive(Copy, Clone, Debug, PartialEq, Eq, Structural)]
pub enum WrapMode {
    ClampToEdge,
    Repeat,
}

impl WrapMode {
    /// The value that names the mode to the driver: `GL_CLAMP_TO_EDGE` or
    /// `GL_REPEAT`.
    pub fn as_gl(self) -> (r: u32)
        ensures
            r == (match self {
                WrapMode::ClampToEdge => 0x812Fu32,
                WrapMode::Repeat => 0x2901u32,
            }),
    {
        match self {
            WrapMode::ClampToEdge => 0x812F,
            WrapMode::Repeat => 0x2901,
        }
    }
}

/// The target of two-dimensional textures, `GL_TEXTURE_2D`.
pub const TEXTURE_2D: u32 = 0x0DE1;

/// The value that names the texture unit `unit` to the driver: `GL_TEXTURE0`
/// and the units after it.
pub fn texture_unit_as_gl(unit: u32) -> (r: u32)
    requires
        unit < 32,
    ensures
        r == 0x84C0 + unit,
{
    0x84C0 + unit
}

} // verus!
