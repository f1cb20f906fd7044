//! Pieces of the Wavefront OBJ format.
use vstd::prelude::*;

verus! {

/// One corner of an OBJ face: positions in the vertex, texture-coordinate
/// and normal lists.
#[derive(Debug, Clone, Copy, PartialEq, Eq, Structural)]
pub struct FaceElement {
    pub vertex: usize,
    pub tex_coord: usize,
    pub normal: usize,
}

} // verus!
