//! Post-processing options, combined with bitwise or.
use vstd::prelude::*;

verus! {

/// No post-processing.
pub const NONE: u32 = 0;

/// Weld bit-identical vertices and give unindexed meshes an index array.
pub const GENERATE_INDICES: u32 = 1;

/// Reconstruct normals of meshes that have none.
pub const GENERATE_NORMALS: u32 = 2;

} // verus!
