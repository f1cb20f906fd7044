//! Import of glTF 2.0 scene descriptions into a flat, renderer-agnostic scene.
//!
//! Floating-point data is carried through the library as raw IEEE-754 bit
//! patterns: vertex data decoded from buffers as single-precision bits (`u32`),
//! numbers read from the JSON document as double-precision bits (`u64`).
//! Every comparison the library makes on such data is bit-exact.
//!
//! The pipeline: `gltf::Gltf::from_text` parses the document,
//! `Gltf::buffer_paths` names the files its buffers live in,
//! `Gltf::to_scene` assembles the output scene from their bytes, and
//! `postprocess::post_process` welds vertices where asked to.
use vstd::prelude::*;

pub mod error;
pub mod fields;
pub mod gltf;
pub mod json;
pub mod load_flags;
pub mod math;
pub mod obj;
pub mod postprocess;
pub mod refs;
pub mod resolve;
pub mod scene;
pub mod text;
pub mod utils;

pub use error::{ImportError, ImportErrorType};
pub use math::{Mat4, Vec2, Vec3, Vec4};
pub use scene::{AlphaMode, Image, ImageDataType, Material, Mesh, Scene, Vertex};

verus! {

} // verus!
