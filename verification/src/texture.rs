//! Textures, resolved once by source index.

use vstd::prelude::*;
use crate::GltfIndex;
use crate::desc::TextureDesc;

verus! {

#[derive(Debug)]
pub struct GltfSampler {}

#[derive(Debug)]
pub struct GltfTexture {
    pub index: GltfIndex,
    pub name: Option<String>,
    pub sampler: GltfSampler,
}

impl GltfTexture {
    /// Carry a decoded texture description over, keeping its source
    /// index.
    pub fn from_gltf(texture_ref: &TextureDesc, index: GltfIndex) -> (r: GltfTexture)
        ensures
            r.index == index,
            r.name == texture_ref.name,
    {
        let texture_name: Option<String> = match &texture_ref.name {
            Some(name) => Some(name.clone()),
            None => None,
        };
        GltfTexture { index, name: texture_name, sampler: GltfSampler {  } }
    }
}

} // verus!
