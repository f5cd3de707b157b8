//! A scene-graph resolution and mesh-flattening pipeline.
//!
//! The library ingests an already-decoded scene description (a node
//! hierarchy with meshes, materials, skins and animations) and produces a
//! single flattened representation: one global vertex buffer, one global
//! index buffer, per-part metadata, per-vertex skinning data and scene
//! bounding information.
//!
//! Every 32-bit floating-point quantity is carried as its IEEE-754 bit
//! pattern in a `u32`; the `fp` module provides the scalar arithmetic.

use vstd::prelude::*;

pub mod fp;
pub mod math;
pub mod format;
pub mod desc;
pub mod texture;
pub mod material;
pub mod primitive;
pub mod mesh;
pub mod node;
pub mod model;
pub mod animation;
pub mod flatten;
pub mod scene;
pub mod data;

verus! {

/// Index into one of the source document's object lists.
pub type GltfIndex = usize;

/// Fatal import failures: structural defects of the source description
/// and data-quality defects of the produced buffers.  Any of these
/// aborts the whole import with no partial output.
#[derive(Clone, PartialEq, Eq, Structural, Debug)]
pub enum GltfError {
    /// A primitive carries no position attribute.
    MissingPositions { mesh_index: usize, primitive_index: usize },
    /// A primitive's topology is anything but triangles.
    UnsupportedMode { mesh_index: usize, primitive_index: usize },
    /// The requested scene does not exist.
    SceneIndexOutOfRange { given: usize, count: usize },
    /// A cross-reference of the source description points outside the
    /// list it indexes, or the node graph is not a forest.
    InvalidReference,
    /// Flattening produced no vertices or no indices.
    EmptyMesh,
    /// A buffer outgrew the 32-bit index space.
    CapacityExceeded,
}

/// Recovered conditions, reported instead of failing the import.
#[derive(Clone, PartialEq, Eq, Structural, Debug)]
pub enum GltfDiagnostic {
    /// An animation channel targeted a node that does not exist; the
    /// channel was dropped.
    ChannelTargetNotFound { animation_index: usize, node_index: usize },
    /// An animation lost all its channels and was dropped entirely.
    AnimationDropped { animation_index: usize },
    /// A channel targeting morph-target weights was ignored.
    MorphTargetChannel { animation_index: usize },
    /// Texture-coordinate sets beyond the first were ignored.
    ExtraTexCoordSetsIgnored { mesh_index: usize, primitive_index: usize, count: usize },
    /// Joint/weight sets beyond the fourth were ignored.
    ExtraJointSetsIgnored { mesh_index: usize, primitive_index: usize, count: usize },
    /// A vertex of an animated model has no skinning influence.
    UnskinnedVertexInAnimatedModel { vertex_index: usize },
}

/// Import results carry a fatal error or the value.
pub type GltfResult<T> = Result<T, GltfError>;

/// Options recognized by the import pipeline.
///
/// `generate_tex_coords` is the fallback UV pair (as f32 bit patterns)
/// assigned to every vertex of a primitive that carries no UV set.
pub struct GltfOptions {
    pub scene_index: Option<usize>,
    pub load_animations: bool,
    pub regenerate_tangents: bool,
    pub generate_tex_coords: (u32, u32),
    pub flip_v_coord: bool,
}

} // verus!
