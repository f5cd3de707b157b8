//! The engine-facing output records: flattened streams, per-part
//! metadata and per-vertex skinning data.

use vstd::prelude::*;
use crate::math::{Vector2, Vector3, Vector4, Matrix4};

verus! {

#[derive(Clone, Copy, PartialEq, Eq, Structural, Debug)]
pub enum AlphaMode {
    Opaque,
    Mask,
    Blend,
}

/// How a part moves at runtime.
#[derive(Clone, Copy, PartialEq, Eq, Structural, Debug)]
pub enum AnimationType {
    NotAnimated,
    Skinned,
    Rigid,
    Mesh,
}

/// Most joint influences a vertex can carry: four sets of four.
pub const MAX_BONE_INFLUENCES: usize = 16;

/// Per-vertex skinning record.  `bone_count` is the effective influence
/// count; `weights` and `bone_ids` always hold `MAX_BONE_INFLUENCES`
/// slots, and slots at or beyond `bone_count` are not read downstream.
#[derive(Clone, Debug)]
pub struct SkinningData {
    pub bone_count: u32,
    pub weights: Vec<u32>,
    pub bone_ids: Vec<u32>,
}

/// The flattened, engine-ready streams.
pub struct MeshData {
    pub skinning_data: Vec<SkinningData>,
    pub positions: Vec<Vector3>,
    pub tex_coords: Vec<Vector2>,
    pub normals: Vec<Vector3>,
    pub tangents: Vec<Vector3>,
    pub bitangents: Vec<Vector3>,
    pub colors: Vec<Vector4>,
    pub indices: Vec<u32>,
}

impl MeshData {
    pub fn new_empty() -> (r: MeshData)
        ensures
            r.skinning_data@.len() == 0,
            r.positions@.len() == 0,
            r.tex_coords@.len() == 0,
            r.normals@.len() == 0,
            r.tangents@.len() == 0,
            r.bitangents@.len() == 0,
            r.colors@.len() == 0,
            r.indices@.len() == 0,
    {
        MeshData {
            skinning_data: Vec::new(),
            positions: Vec::new(),
            tex_coords: Vec::new(),
            normals: Vec::new(),
            tangents: Vec::new(),
            bitangents: Vec::new(),
            colors: Vec::new(),
            indices: Vec::new(),
        }
    }
}

/// A contiguous index-buffer range attributable to one node+primitive
/// pair after flattening.
#[derive(Clone, Debug)]
pub struct MeshAssetPart {
    pub index_start: u32,
    pub index_count: u32,
    pub material_index: Option<u32>,
    pub node_index: Option<u32>,
    pub base_transform: Matrix4,
    pub name: Option<String>,
    pub animation_type: AnimationType,
}

#[derive(Debug, Default)]
pub struct MeshAsset {}

} // verus!
