//! The smallest possible surface for drawing: a list of meshes, each with
//! the primitive it is constructed of.

use vstd::prelude::*;

verus! {

/// The primitive topology a mesh is constructed of.
#[derive(Clone, Copy, Debug, PartialEq, Eq, Structural)]
pub enum Primitive {
    Points,
    Lines,
    Triangles,
}

} // verus!
