//! Bookkeeping for the typed layer over OpenGL: the values that are handed to
//! the driver, the binding-state cache, and the builder of mesh data.

pub mod context;
pub mod framebuffer;
pub mod mesh;
pub mod program;
pub mod surface;
pub mod texture;
pub mod uniforms;
