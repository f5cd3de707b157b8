//! Materials: PBR factors carried through as bit patterns, and the
//! content URI derived from the source's user properties.

use vstd::prelude::*;
use crate::{GltfIndex, GltfResult};
use crate::desc::{MaterialDesc, MaterialUrlDesc};
use crate::format::AlphaMode;
use crate::math::{Vector3, Vector4};

verus! {

#[derive(Debug)]
pub struct GltfMaterial {
    pub index: Option<GltfIndex>,
    pub name: Option<String>,

    pub material_uri: String,

    pub base_color_factor: Vector4,
    pub base_color_texture: Option<(GltfIndex, u32)>,

    pub metallic_factor: u32,
    pub roughness_factor: u32,
    pub metallic_roughness_texture: Option<(GltfIndex, u32)>,

    pub normal_scale: Option<u32>,
    pub normal_texture: Option<(GltfIndex, u32)>,

    pub occlusion_strength: Option<u32>,
    pub occlusion_texture: Option<(GltfIndex, u32)>,

    pub emissive_factor: Vector3,
    pub emissive_texture: Option<(GltfIndex, u32)>,

    pub alpha_cutoff: u32,
    pub alpha_mode: AlphaMode,

    pub double_sided: bool,
}

/// The content URI a material advertises: built from the `halcyonUrl`
/// user property when its type tag is the FBX string type, empty
/// otherwise.
pub open spec fn spec_material_uri(url: Option<MaterialUrlDesc>) -> Seq<char> {
    match url {
        Some(u) => if u.url_type@ == "eFbxString"@ {
            "Content/"@ + u.url_value@ + ".hcy-material:Material"@
        } else {
            Seq::<char>::empty()
        },
        None => Seq::<char>::empty(),
    }
}

/// Build the content URI of a `halcyonUrl` user property.
fn material_uri_of(url: &MaterialUrlDesc) -> (r: String)
    ensures
        r@ == spec_material_uri(Some(*url)),
{
    let key: String = String::from_str("eFbxString");
    if url.url_type == key {
        let mut uri: String = String::from_str("Content/");
        uri.append(url.url_value.as_str());
        uri.append(".hcy-material:Material");
        proof {
            assert(uri@ =~= "Content/"@ + url.url_value@ + ".hcy-material:Material"@);
        }
        uri
    } else {
        let empty: String = String::from_str("");
        proof {
            reveal_strlit("");
            assert(empty@ =~= Seq::<char>::empty());
        }
        empty
    }
}

/// A resolved material carries every factor of its description
/// unchanged, with the content URI derived from the user properties.
pub open spec fn material_from_desc(m: GltfMaterial, d: MaterialDesc) -> bool {
    &&& m.index == d.index
    &&& m.name == d.name
    &&& m.material_uri@ == spec_material_uri(d.url)
    &&& m.base_color_factor == d.base_color_factor
    &&& m.base_color_texture == d.base_color_texture
    &&& m.metallic_factor == d.metallic_factor
    &&& m.roughness_factor == d.roughness_factor
    &&& m.metallic_roughness_texture == d.metallic_roughness_texture
    &&& m.normal_scale == d.normal_scale
    &&& m.normal_texture == d.normal_texture
    &&& m.occlusion_strength == d.occlusion_strength
    &&& m.occlusion_texture == d.occlusion_texture
    &&& m.emissive_factor == d.emissive_factor
    &&& m.emissive_texture == d.emissive_texture
    &&& m.alpha_cutoff == d.alpha_cutoff
    &&& m.alpha_mode == d.alpha_mode
    &&& m.double_sided == d.double_sided
}

impl GltfMaterial {
    /// Resolve one material description: every factor is carried over
    /// unchanged and the content URI is derived from the user
    /// properties.  Resolution never fails.
    pub fn from_gltf(material_ref: &MaterialDesc) -> (r: GltfResult<GltfMaterial>)
        ensures
            match r {
                Ok(m) => material_from_desc(m, *material_ref),
                Err(_) => false,
            },
    {
        let material_uri: String = match &material_ref.url {
            Some(url) => material_uri_of(url),
            None => String::from_str(""),
        };
        proof {
            reveal_strlit("");
            if material_ref.url is None {
                assert(material_uri@ =~= spec_material_uri(material_ref.url));
            }
        }
        let name: Option<String> = match &material_ref.name {
            Some(n) => Some(n.clone()),
            None => None,
        };
        Ok(GltfMaterial {
            index: material_ref.index,
            name,
            material_uri,
            base_color_factor: material_ref.base_color_factor,
            base_color_texture: material_ref.base_color_texture,
            metallic_factor: material_ref.metallic_factor,
            roughness_factor: material_ref.roughness_factor,
            metallic_roughness_texture: material_ref.metallic_roughness_texture,
            normal_scale: material_ref.normal_scale,
            normal_texture: material_ref.normal_texture,
            occlusion_strength: material_ref.occlusion_strength,
            occlusion_texture: material_ref.occlusion_texture,
            emissive_factor: material_ref.emissive_factor,
            emissive_texture: material_ref.emissive_texture,
            alpha_cutoff: material_ref.alpha_cutoff,
            alpha_mode: material_ref.alpha_mode,
            double_sided: material_ref.double_sided,
        })
    }
}

} // verus!
