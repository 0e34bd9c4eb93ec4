//! Process-wide unique identifiers for widgets and graphics objects.

use vstd::prelude::*;

verus! {

/// Marks the identifiers of widgets.
#[derive(Clone, Copy, Debug, PartialEq, Eq, Hash)]
pub struct WidgetId_(());

/// Marks the identifiers of programs.
#[derive(Clone, Copy, Debug, PartialEq, Eq, Hash)]
pub struct ProgramId_(());

/// Marks the identifiers of framebuffers.
#[derive(Clone, Copy, Debug, PartialEq, Eq, Hash)]
pub struct FramebufferId_(());

/// Marks the identifiers of textures.
#[derive(Clone, Copy, Debug, PartialEq, Eq, Hash)]
pub struct TextureId_(());

/// Draws the next value of the counter that `uid::Id::<T>::new` keeps for the
/// marker type `T`, and returns it as the integer that `uid::Id::get` gives.
///
/// Nothing is claimed of the value. The counter hands out each value once per
/// process and marker type, which cannot be said of a single call. The call
/// panics once the counter has run through every `usize`.
#[verifier::external_body]
fn next_id<T>() -> (raw: usize) {
    uid::Id::<T>::new().get()
}

/// Identifies a widget. Two widgets of one tree must not share an identifier.
#[derive(Clone, Copy, Debug, PartialEq, Eq, Hash, Structural)]
pub struct WidgetId {
    pub raw: usize,
}

impl WidgetId {
    /// A fresh identifier.
    pub fn new() -> WidgetId {
        WidgetId { raw: next_id::<WidgetId_>() }
    }
}

/// Identifies a shader program in the binding cache.
#[derive(Clone, Copy, Debug, PartialEq, Eq, Hash, Structural)]
pub struct ProgramId {
    pub raw: usize,
}

impl ProgramId {
    /// A fresh identifier.
    pub fn new() -> ProgramId {
        ProgramId { raw: next_id::<ProgramId_>() }
    }
}

/// Identifies a framebuffer, or the screen, in the binding cache.
#[derive(Clone, Copy, Debug, PartialEq, Eq, Hash, Structural)]
pub struct FramebufferId {
    pub raw: usize,
}

impl FramebufferId {
    /// A fresh identifier.
    pub fn new() -> FramebufferId {
        FramebufferId { raw: next_id::<FramebufferId_>() }
    }
}

/// Identifies a texture in the binding cache.
#[derive(Clone, Copy, Debug, PartialEq, Eq, Hash, Structural)]
pub struct TextureId {
    pub raw: usize,
}

impl TextureId {
    /// A fresh identifier.
    pub fn new() -> TextureId {
        TextureId { raw: next_id::<TextureId_>() }
    }
}

} // verus!
