//! Values that stand for a program without uniforms.

use vstd::prelude::*;

verus! {

/// The uniforms of a program that has none.
#[derive(Clone, Copy, Debug, PartialEq, Eq, Structural)]
pub struct EmptyUniforms {}

/// The locations of the uniforms of a program that has none.
#[derive(Clone, Copy, Debug, PartialEq, Eq, Structural)]
pub struct EmptyUniformsGl {}

} // verus!
