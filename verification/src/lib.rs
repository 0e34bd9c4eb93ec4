//! Layout, event routing and bookkeeping for a small OpenGL GUI toolkit.
//!
//! The crate holds the parts of the toolkit that are plain computation: the
//! widget tree with its two layout passes, the routing of input events to
//! components, focus handling, the bookkeeping of the binding-state cache,
//! mesh index generation and the packing of glyphs into an atlas. Talking to
//! the graphics driver, the window system and the font rasteriser is left to
//! the caller.

pub mod collections;
pub mod geom;
pub mod gl;
pub mod glfw;
pub mod gui;
pub mod ids;
pub mod screenshot;
pub mod strings;
