//! The decoder-facing description of a scene.
//!
//! The binary/JSON decoder is an external collaborator: it hands the
//! pipeline plain values only.  These types mirror what the source
//! format exposes — nodes with decomposed transforms, meshes with
//! accessor-resolved attribute streams, materials, animations with
//! samplers and channels, skins and scenes.  All scalars are IEEE-754
//! bit patterns.

use vstd::prelude::*;
use crate::math::{Vector2, Vector3, Vector4, Matrix4};

verus! {

/// Topology of a primitive, as declared by the source.
#[derive(Clone, Copy, PartialEq, Eq, Structural, Debug)]
pub enum PrimitiveMode {
    Points,
    Lines,
    LineLoop,
    LineStrip,
    Triangles,
    TriangleStrip,
    TriangleFan,
}

/// Four joint indices of one vertex, one joint set.
#[derive(Clone, Copy, PartialEq, Eq, Structural, Debug)]
pub struct Joints4 {
    pub j0: u16,
    pub j1: u16,
    pub j2: u16,
    pub j3: u16,
}

impl Joints4 {
    pub fn zero() -> (r: Joints4)
        ensures
            r == (Joints4 { j0: 0, j1: 0, j2: 0, j3: 0 }),
    {
        Joints4 { j0: 0, j1: 0, j2: 0, j3: 0 }
    }
}

/// One primitive's accessor-resolved attribute streams.  A stream that
/// the source does not provide is `None`; the lists that are present
/// run in source vertex order and are indexed by the explicit index
/// stream, when there is one.
pub struct PrimitiveDesc {
    pub mode: PrimitiveMode,
    pub material: Option<usize>,
    /// Explicit triangle indices; absent means sequential indexing.
    pub indices: Option<Vec<u32>>,
    pub positions: Option<Vec<Vector3>>,
    pub normals: Option<Vec<Vector3>>,
    /// Source tangents carry a fourth handedness component.
    pub tangents: Option<Vec<Vector4>>,
    pub tex_coords0: Option<Vec<Vector2>>,
    pub colors0: Option<Vec<Vector4>>,
    pub joints0: Option<Vec<Joints4>>,
    pub joints1: Option<Vec<Joints4>>,
    pub joints2: Option<Vec<Joints4>>,
    pub joints3: Option<Vec<Joints4>>,
    pub weights0: Option<Vec<Vector4>>,
    pub weights1: Option<Vec<Vector4>>,
    pub weights2: Option<Vec<Vector4>>,
    pub weights3: Option<Vec<Vector4>>,
    /// The primitive's declared bounds.
    pub bounds_min: Vector3,
    pub bounds_max: Vector3,
    /// How many texture-coordinate sets beyond the first the source
    /// carries; they are ignored and reported.
    pub extra_tex_coord_sets: usize,
    /// How many joint/weight sets beyond the fourth the source carries.
    pub extra_joint_sets: usize,
}

pub struct MeshDesc {
    pub name: Option<String>,
    pub primitives: Vec<PrimitiveDesc>,
}

/// A node with its transform decomposed into translation, rotation and
/// scale.  The rotation quaternion keeps the source component order
/// `[x, y, z, w]`.
pub struct NodeDesc {
    pub name: Option<String>,
    pub translation: Vector3,
    pub rotation_xyzw: Vector4,
    pub scale: Vector3,
    pub mesh: Option<usize>,
    pub skin: Option<usize>,
    pub children: Vec<usize>,
}

#[derive(Clone, Copy, PartialEq, Eq, Structural, Debug)]
pub enum TargetProperty {
    Translation,
    Rotation,
    Scale,
    MorphTargetWeights,
}

/// Sampler output values as the source stores them.
pub enum SamplerOutputs {
    Scalars(Vec<u32>),
    Vec3s(Vec<Vector3>),
    Vec4s(Vec<Vector4>),
}

#[derive(Clone, Copy, PartialEq, Eq, Structural, Debug)]
pub enum InterpolationDesc {
    Linear,
    Step,
    CatmullRomSpline,
    CubicSpline,
}

pub struct SamplerDesc {
    pub interpolation: InterpolationDesc,
    /// Input timestamps.
    pub inputs: Vec<u32>,
    pub outputs: SamplerOutputs,
}

pub struct ChannelDesc {
    pub target_node: usize,
    pub property: TargetProperty,
    pub sampler: usize,
}

pub struct AnimationDesc {
    pub name: Option<String>,
    pub samplers: Vec<SamplerDesc>,
    pub channels: Vec<ChannelDesc>,
}

pub struct SkinDesc {
    pub name: Option<String>,
    pub skeleton: Option<usize>,
    pub joints: Vec<usize>,
    pub inverse_bind_matrices: Option<Vec<Matrix4>>,
}

/// The `halcyonUrl` user property of a material's extras, when the
/// source carries one: its `type` and `value` strings.
pub struct MaterialUrlDesc {
    pub url_type: String,
    pub url_value: String,
}

pub struct MaterialDesc {
    /// `None` marks the default material.
    pub index: Option<usize>,
    pub name: Option<String>,
    pub url: Option<MaterialUrlDesc>,
    pub base_color_factor: Vector4,
    pub base_color_texture: Option<(usize, u32)>,
    pub metallic_factor: u32,
    pub roughness_factor: u32,
    pub metallic_roughness_texture: Option<(usize, u32)>,
    pub normal_scale: Option<u32>,
    pub normal_texture: Option<(usize, u32)>,
    pub occlusion_strength: Option<u32>,
    pub occlusion_texture: Option<(usize, u32)>,
    pub emissive_factor: Vector3,
    pub emissive_texture: Option<(usize, u32)>,
    pub alpha_cutoff: u32,
    pub alpha_mode: crate::format::AlphaMode,
    pub double_sided: bool,
}

pub struct TextureDesc {
    pub name: Option<String>,
}

pub struct SceneDesc {
    pub name: Option<String>,
    pub nodes: Vec<usize>,
}

/// Everything the decoder exposes of one source document.
pub struct DocumentDesc {
    pub nodes: Vec<NodeDesc>,
    pub meshes: Vec<MeshDesc>,
    pub materials: Vec<MaterialDesc>,
    pub textures: Vec<TextureDesc>,
    pub animations: Vec<AnimationDesc>,
    pub skins: Vec<SkinDesc>,
    pub scenes: Vec<SceneDesc>,
}

} // verus!
