//! Resolution details: traversal order, skins, samplers and textures.

use gltf_flatten::GltfOptions;
use gltf_flatten::desc::{DocumentDesc, NodeDesc, SceneDesc, SkinDesc, SamplerDesc,
    SamplerOutputs, InterpolationDesc, TextureDesc};
use gltf_flatten::math::{Vector3, Vector4, Matrix4};
use gltf_flatten::model::GltfModel;
use gltf_flatten::node::GltfNode;
use gltf_flatten::animation::{GltfSkin, GltfAnimationSampler, GltfInterpolationType};
use gltf_flatten::texture::GltfTexture;

fn b(x: f32) -> u32 {
    x.to_bits()
}

fn v3(x: f32, y: f32, z: f32) -> Vector3 {
    Vector3 { x: b(x), y: b(y), z: b(z) }
}

fn v4(x: f32, y: f32, z: f32, w: f32) -> Vector4 {
    Vector4 { x: b(x), y: b(y), z: b(z), w: b(w) }
}

fn options() -> GltfOptions {
    GltfOptions {
        scene_index: None,
        load_animations: true,
        regenerate_tangents: false,
        generate_tex_coords: (b(0.0), b(0.0)),
        flip_v_coord: false,
    }
}

fn node(translation: Vector3, children: Vec<usize>) -> NodeDesc {
    NodeDesc {
        name: None,
        translation,
        rotation_xyzw: v4(0.0, 0.0, 0.0, 1.0),
        scale: v3(1.0, 1.0, 1.0),
        mesh: None,
        skin: None,
        children,
    }
}

#[test]
fn linear_nodes_follow_preorder() {
    // Source order 0 -> {2 -> {1}, 3}; pre-order is 0, 2, 1, 3.
    let doc = DocumentDesc {
        nodes: vec![
            node(v3(0.0, 0.0, 0.0), vec![2, 3]),
            node(v3(1.0, 0.0, 0.0), vec![]),
            node(v3(2.0, 0.0, 0.0), vec![1]),
            node(v3(3.0, 0.0, 0.0), vec![]),
        ],
        meshes: vec![],
        materials: vec![],
        textures: vec![],
        animations: vec![],
        skins: vec![],
        scenes: vec![SceneDesc { name: None, nodes: vec![0] }],
    };
    let model = GltfModel::from_gltf(&doc, &options()).unwrap();
    let source_order: Vec<usize> = model
        .linear_nodes
        .iter()
        .map(|&a| model.nodes[a].node_index)
        .collect();
    assert_eq!(source_order, vec![0, 2, 1, 3]);
    // Parents sit below children in the arena.
    for (i, n) in model.nodes.iter().enumerate() {
        if let Some(p) = n.parent {
            assert!(p < i);
        }
    }
}

#[test]
fn deep_chain_accumulates_translations() {
    // Three stacked translations along X: the leaf's world offset is
    // their exact sum.
    let doc = DocumentDesc {
        nodes: vec![
            node(v3(1.0, 0.0, 0.0), vec![1]),
            node(v3(2.0, 0.0, 0.0), vec![2]),
            node(v3(4.0, 0.0, 0.0), vec![]),
        ],
        meshes: vec![],
        materials: vec![],
        textures: vec![],
        animations: vec![],
        skins: vec![],
        scenes: vec![SceneDesc { name: None, nodes: vec![0] }],
    };
    let model = GltfModel::from_gltf(&doc, &options()).unwrap();
    let world = GltfNode::get_matrix(&model.nodes, 2);
    assert_eq!(world.m03, b(7.0));
    assert_eq!(world.m13, b(0.0));
    assert_eq!(world.m00, b(1.0));
}

#[test]
fn cyclic_child_links_are_rejected() {
    // A node that names itself as a child is not a forest.
    let doc = DocumentDesc {
        nodes: vec![node(v3(0.0, 0.0, 0.0), vec![0])],
        meshes: vec![],
        materials: vec![],
        textures: vec![],
        animations: vec![],
        skins: vec![],
        scenes: vec![SceneDesc { name: None, nodes: vec![0] }],
    };
    assert!(GltfModel::from_gltf(&doc, &options()).is_err());
}

#[test]
fn skin_without_matrices_is_identity_filled() {
    let desc = SkinDesc {
        name: Some("rig".to_string()),
        skeleton: Some(4),
        joints: vec![1, 2, 5],
        inverse_bind_matrices: None,
    };
    let skin = GltfSkin::from_gltf(&desc, 0);
    assert_eq!(skin.joints.len(), 3);
    assert_eq!(skin.joints[2].node_index, 5);
    assert!(skin.joints[2].global_index.is_none());
    assert_eq!(skin.skeleton_root, Some(4));
    assert_eq!(skin.inv_bind_matrices.len(), 3);
    for m in &skin.inv_bind_matrices {
        assert_eq!(*m, Matrix4::identity());
    }
}

#[test]
fn skin_keeps_given_matrices() {
    let mut custom = Matrix4::identity();
    custom.m03 = b(9.0);
    let desc = SkinDesc {
        name: None,
        skeleton: None,
        joints: vec![0],
        inverse_bind_matrices: Some(vec![custom]),
    };
    let skin = GltfSkin::from_gltf(&desc, 1);
    assert_eq!(skin.inv_bind_matrices.len(), 1);
    assert_eq!(skin.inv_bind_matrices[0].m03, b(9.0));
}

#[test]
fn sampler_outputs_are_widened() {
    let scalar = GltfAnimationSampler::from_gltf(&SamplerDesc {
        interpolation: InterpolationDesc::CubicSpline,
        inputs: vec![b(0.0)],
        outputs: SamplerOutputs::Scalars(vec![b(0.5)]),
    });
    assert_eq!(scalar.interpolation_type, GltfInterpolationType::CubicSpline);
    assert_eq!(scalar.outputs[0], v4(0.5, 0.5, 0.5, 0.5));

    let vec3 = GltfAnimationSampler::from_gltf(&SamplerDesc {
        interpolation: InterpolationDesc::Linear,
        inputs: vec![b(0.0)],
        outputs: SamplerOutputs::Vec3s(vec![v3(1.0, 2.0, 3.0)]),
    });
    assert_eq!(vec3.outputs[0], v4(1.0, 2.0, 3.0, 0.0));

    let vec4 = GltfAnimationSampler::from_gltf(&SamplerDesc {
        interpolation: InterpolationDesc::Step,
        inputs: vec![b(0.0), b(1.0)],
        outputs: SamplerOutputs::Vec4s(vec![v4(1.0, 2.0, 3.0, 4.0), v4(0.0, 0.0, 0.0, 1.0)]),
    });
    assert_eq!(vec4.outputs.len(), 2);
    assert_eq!(vec4.outputs[1], v4(0.0, 0.0, 0.0, 1.0));
    assert_eq!(vec4.inputs, vec![b(0.0), b(1.0)]);
}

#[test]
fn textures_keep_index_and_name() {
    let t = GltfTexture::from_gltf(&TextureDesc { name: Some("bark".to_string()) }, 7);
    assert_eq!(t.index, 7);
    assert_eq!(t.name.as_deref(), Some("bark"));
}

#[test]
fn quaternion_component_order_is_remapped() {
    // A quarter turn about Z arrives as [x, y, z, w] = [0, 0, h, h];
    // the stored quaternion puts w first.
    let h = (0.5f32).sqrt();
    let doc = DocumentDesc {
        nodes: vec![NodeDesc {
            name: None,
            translation: v3(0.0, 0.0, 0.0),
            rotation_xyzw: v4(0.0, 0.0, h, h),
            scale: v3(1.0, 1.0, 1.0),
            mesh: None,
            skin: None,
            children: vec![],
        }],
        meshes: vec![],
        materials: vec![],
        textures: vec![],
        animations: vec![],
        skins: vec![],
        scenes: vec![SceneDesc { name: None, nodes: vec![0] }],
    };
    let model = GltfModel::from_gltf(&doc, &options()).unwrap();
    let q = model.nodes[0].rotation;
    // w and z carry the half-angle terms; x and y stay zero.
    assert!((f32::from_bits(q.w) - h).abs() < 1.0e-6);
    assert!((f32::from_bits(q.z) - h).abs() < 1.0e-6);
    assert_eq!(q.x, b(0.0));
    assert_eq!(q.y, b(0.0));
}
