//! The state of the driver as far as the toolkit keeps track of it, so that
//! it does not ask the driver for a binding that is already in place.

use crate::geom::{in_i32, Rect};
use crate::gl::mesh::DrawMode;
use crate::ids::{FramebufferId, ProgramId, TextureId};
use vstd::prelude::*;
use vstd::string::*;

verus! {

/// The number of texture units that the cache keeps track of.
pub const TEXTURE_UNITS: usize = 32;

/// What is bound in the driver, as far as the toolkit has bound it. `None`
/// stands for a binding that is not known.
pub struct GlContextCache {
    pub draw_mode: Option<DrawMode>,
    pub bound_program: Option<ProgramId>,
    pub bound_framebuffer: Option<FramebufferId>,
    pub bound_read_framebuffer: Option<FramebufferId>,
    /// For each texture unit, the target and the texture bound to it.
    pub bound_textures: [Option<(u32, TextureId)>; 32],
}

/// A switch of the driver.
#[derive(Copy, Clone, Debug, PartialEq, Eq, Structural)]
pub enum GlFlag {
    DepthTest,
    CullFace,
}

impl GlFlag {
    /// The value that names the switch to the driver: `GL_DEPTH_TEST` or
    /// `GL_CULL_FACE`.
    pub fn as_gl(self) -> (r: u32)
        ensures
            r == (match self {
                GlFlag::DepthTest => 0x0B71u32,
                GlFlag::CullFace => 0x0B44u32,
            }),
    {
        match self {
            GlFlag::DepthTest => 0x0B71,
            GlFlag::CullFace => 0x0B44,
        }
    }
}

/// The switches that a draw mode asks for.
#[derive(Copy, Clone, Debug, PartialEq, Eq, Structural)]
pub struct DrawFlags {
    pub cull_face: bool,
    pub depth_test: bool,
}

impl DrawMode {
    /// The switches that the draw mode asks for: flat drawing culls no faces
    /// and tests no depth; drawing in space culls back faces and tests depth
    /// where asked to.
    pub open spec fn spec_flags(self) -> DrawFlags {
        match self {
            DrawMode::Draw2D => DrawFlags { cull_face: false, depth_test: false },
            DrawMode::Draw3D { depth } => DrawFlags { cull_face: true, depth_test: depth },
        }
    }

    /// Makes this the draw mode of the driver. Returns the switches to set,
    /// or `None` if the mode is in place already.
    pub fn bind(self, cache: &mut GlContextCache) -> (r: Option<DrawFlags>)
        ensures
            r == (if old(cache).draw_mode == Some(self) {
                None
            } else {
                Some(self.spec_flags())
            }),
            *final(cache) == (GlContextCache { draw_mode: Some(self), ..*old(cache) }),
    {
        let bound = match cache.draw_mode {
            Some(mode) => mode == self,
            None => false,
        };
        if bound {
            None
        } else {
            cache.draw_mode = Some(self);
            Some(
                match self {
                    DrawMode::Draw2D => DrawFlags { cull_face: false, depth_test: false },
                    DrawMode::Draw3D { depth } => DrawFlags { cull_face: true, depth_test: depth },
                },
            )
        }
    }
}

impl GlContextCache {
    /// A cache that knows of no binding.
    pub fn new() -> (c: GlContextCache)
        ensures
            c.draw_mode.is_none(),
            c.bound_program.is_none(),
            c.bound_framebuffer.is_none(),
            c.bound_read_framebuffer.is_none(),
            forall|i: int| 0 <= i < 32 ==> c.bound_textures@[i].is_none(),
    {
        GlContextCache {
            draw_mode: None,
            bound_program: None,
            bound_framebuffer: None,
            bound_read_framebuffer: None,
            bound_textures: [None;32],
        }
    }

    /// Notes that the program is in use. Returns whether the driver has to
    /// be told, which it has unless the program was in use already.
    pub fn bind_program(&mut self, id: ProgramId) -> (changed: bool)
        ensures
            changed == (old(self).bound_program != Some(id)),
            *final(self) == (GlContextCache { bound_program: Some(id), ..*old(self) }),
    {
        let bound = match self.bound_program {
            Some(cur) => cur == id,
            None => false,
        };
        self.bound_program = Some(id);
        !bound
    }

    /// Notes that the framebuffer is bound for drawing. Returns whether the
    /// driver has to be told.
    pub fn bind_framebuffer(&mut self, id: FramebufferId) -> (changed: bool)
        ensures
            changed == (old(self).bound_framebuffer != Some(id)),
            *final(self) == (GlContextCache { bound_framebuffer: Some(id), ..*old(self) }),
    {
        let bound = match self.bound_framebuffer {
            Some(cur) => cur == id,
            None => false,
        };
        self.bound_framebuffer = Some(id);
        !bound
    }

    /// Notes that the framebuffer is bound for reading. Returns whether the
    /// driver has to be told.
    pub fn bind_read_framebuffer(&mut self, id: FramebufferId) -> (changed: bool)
        ensures
            changed == (old(self).bound_read_framebuffer != Some(id)),
            *final(self) == (GlContextCache { bound_read_framebuffer: Some(id), ..*old(self) }),
    {
        let bound = match self.bound_read_framebuffer {
            Some(cur) => cur == id,
            None => false,
        };
        self.bound_read_framebuffer = Some(id);
        !bound
    }

    /// Whether the framebuffer is the one bound for drawing.
    pub fn is_framebuffer_bound(&self, id: FramebufferId) -> (r: bool)
        ensures
            r == (self.bound_framebuffer == Some(id)),
    {
        match self.bound_framebuffer {
            Some(cur) => cur == id,
            None => false,
        }
    }

    /// Forgets which textures are bound, after a texture was bound behind
    /// the back of the cache.
    pub fn clear_bound_textures(&mut self)
        ensures
            forall|i: int| 0 <= i < 32 ==> final(self).bound_textures@[i].is_none(),
            *final(self) == (GlContextCache {
                bound_textures: final(self).bound_textures,
                ..*old(self)
            }),
    {
        self.bound_textures = [None;32];
    }

    /// Notes that the texture is bound to `target` in the given texture
    /// unit. Returns whether the driver has to be told.
    pub fn bind_texture(&mut self, texture_unit: u32, target: u32, id: TextureId) -> (changed:
        bool)
        requires
            texture_unit < TEXTURE_UNITS,
        ensures
            changed == (old(self).bound_textures@[texture_unit as int] != Some((target, id))),
            final(self).bound_textures@ == old(self).bound_textures@.update(
                texture_unit as int,
                Some((target, id)),
            ),
            *final(self) == (GlContextCache {
                bound_textures: final(self).bound_textures,
                ..*old(self)
            }),
    {
        let unit = texture_unit as usize;
        let bound = match self.bound_textures[unit] {
            Some((cur_target, cur)) => cur_target == target && cur == id,
            None => false,
        };
        self.bound_textures[unit] = Some((target, id));
        !bound
    }
}

/// The arguments of the driver's viewport call for the rectangle: where it
/// starts, its width and its height. `None` if the size does not fit.
pub fn viewport_params(viewport: &Rect) -> (r: Option<(i32, i32, i32, i32)>)
    ensures
        r.is_some() == (in_i32(viewport.spec_width()) && in_i32(viewport.spec_height())),
        r matches Some(p) ==> p.0 == viewport.start.x && p.1 == viewport.start.y && p.2
            == viewport.spec_width() && p.3 == viewport.spec_height(),
{
    match viewport.size() {
        Some(size) => Some((viewport.start.x, viewport.start.y, size.x, size.y)),
        None => None,
    }
}

/// How much a message of the driver matters.
#[derive(Copy, Clone, Debug, PartialEq, Eq, Structural)]
pub enum LogLevel {
    Error,
    Warn,
    Info,
}

/// The name of the source of a message of the driver.
pub open spec fn debug_source_name(source: u32) -> Seq<char> {
    if source == 0x8246 {
        "API"@
    } else if source == 0x8247 {
        "Window system"@
    } else if source == 0x8248 {
        "Shader compiler"@
    } else if source == 0x8249 {
        "Third party"@
    } else if source == 0x824A {
        "Application"@
    } else if source == 0x824B {
        "Other"@
    } else {
        "(Unknown)"@
    }
}

/// The name of the kind of a message of the driver.
pub open spec fn debug_type_name(typ: u32) -> Seq<char> {
    if typ == 0x824C {
        "Error"@
    } else if typ == 0x824D {
        "Deprecated behavior"@
    } else if typ == 0x824E {
        "Undefined behavior"@
    } else if typ == 0x824F {
        "Portability"@
    } else if typ == 0x8250 {
        "Performance"@
    } else if typ == 0x8251 {
        "Other"@
    } else {
        "(Unknown)"@
    }
}

/// The level and the name of a severity of the driver, or `None` for a
/// severity below low, whose messages are dropped.
pub open spec fn debug_severity(severity: u32) -> Option<(LogLevel, Seq<char>)> {
    if severity == 0x9146 {
        Some((LogLevel::Error, "High"@))
    } else if severity == 0x9147 {
        Some((LogLevel::Warn, "Medium"@))
    } else if severity == 0x9148 {
        Some((LogLevel::Info, "Low"@))
    } else {
        None
    }
}

fn source_name(source: u32) -> (r: &'static str)
    ensures
        r@ == debug_source_name(source),
{
    match source {
        0x8246 => "API",
        0x8247 => "Window system",
        0x8248 => "Shader compiler",
        0x8249 => "Third party",
        0x824A => "Application",
        0x824B => "Other",
        _ => "(Unknown)",
    }
}

fn kind_name(typ: u32) -> (r: &'static str)
    ensures
        r@ == debug_type_name(typ),
{
    match typ {
        0x824C => "Error",
        0x824D => "Deprecated behavior",
        0x824E => "Undefined behavior",
        0x824F => "Portability",
        0x8250 => "Performance",
        0x8251 => "Other",
        _ => "(Unknown)",
    }
}

/// What is logged for a message of the driver, and at which level: the names
/// of its source, its kind and its severity and the message itself, with a
/// space between each two. `None` for a message whose severity is below low.
pub fn debug_message(source: u32, typ: u32, severity: u32, message: &str) -> (r: Option<
    (LogLevel, String),
>)
    ensures
        r.is_some() == debug_severity(severity).is_some(),
        r matches Some((level, text)) ==> {
            &&& level == debug_severity(severity).unwrap().0
            &&& text@ == debug_source_name(source) + " "@ + debug_type_name(typ) + " "@
                + debug_severity(severity).unwrap().1 + " "@ + message@
        },
{
    let (level, severity_name) = match severity {
        0x9146 => (LogLevel::Error, "High"),
        0x9147 => (LogLevel::Warn, "Medium"),
        0x9148 => (LogLevel::Info, "Low"),
        _ => {
            return None;
        },
    };
    let mut text = String::from_str(source_name(source));
    text.append(" ");
    text.append(kind_name(typ));
    text.append(" ");
    text.append(severity_name);
    text.append(" ");
    text.append(message);
    Some((level, text))
}

} // verus!
