//! End-to-end behaviour of the resolution and flattening pipeline.

use gltf_flatten::{GltfError, GltfDiagnostic, GltfOptions};
use gltf_flatten::desc::{DocumentDesc, NodeDesc, MeshDesc, PrimitiveDesc, PrimitiveMode,
    SceneDesc, AnimationDesc, SamplerDesc, SamplerOutputs, InterpolationDesc, ChannelDesc,
    TargetProperty, Joints4};
use gltf_flatten::math::{Vector2, Vector3, Vector4, Dimensions, Matrix4};
use gltf_flatten::model::{GltfModel, GltfVertex};
use gltf_flatten::node::GltfNode;
use gltf_flatten::mesh::GltfMesh;
use gltf_flatten::primitive::GltfPrimitive;
use gltf_flatten::flatten::{flatten_transforms, build_parts, build_mesh_data, load_model};
use gltf_flatten::scene::{GltfScene, select_scene};
use gltf_flatten::format::AnimationType;
use gltf_flatten::animation::GltfAnimationChannel;

fn b(x: f32) -> u32 {
    x.to_bits()
}

fn v2(x: f32, y: f32) -> Vector2 {
    Vector2 { x: b(x), y: b(y) }
}

fn v3(x: f32, y: f32, z: f32) -> Vector3 {
    Vector3 { x: b(x), y: b(y), z: b(z) }
}

fn v4(x: f32, y: f32, z: f32, w: f32) -> Vector4 {
    Vector4 { x: b(x), y: b(y), z: b(z), w: b(w) }
}

fn options() -> GltfOptions {
    GltfOptions {
        scene_index: None,
        load_animations: true,
        regenerate_tangents: false,
        generate_tex_coords: (b(0.0), b(0.0)),
        flip_v_coord: false,
    }
}

fn identity_node(children: Vec<usize>, mesh: Option<usize>) -> NodeDesc {
    NodeDesc {
        name: None,
        translation: v3(0.0, 0.0, 0.0),
        rotation_xyzw: v4(0.0, 0.0, 0.0, 1.0),
        scale: v3(1.0, 1.0, 1.0),
        mesh,
        skin: None,
        children,
    }
}

fn tri_prim() -> PrimitiveDesc {
    PrimitiveDesc {
        mode: PrimitiveMode::Triangles,
        material: None,
        indices: None,
        positions: Some(vec![v3(0.0, 0.0, 0.0), v3(1.0, 0.0, 0.0), v3(0.0, 1.0, 0.0)]),
        normals: None,
        tangents: None,
        tex_coords0: None,
        colors0: None,
        joints0: None,
        joints1: None,
        joints2: None,
        joints3: None,
        weights0: None,
        weights1: None,
        weights2: None,
        weights3: None,
        bounds_min: v3(0.0, 0.0, 0.0),
        bounds_max: v3(1.0, 1.0, 0.0),
        extra_tex_coord_sets: 0,
        extra_joint_sets: 0,
    }
}

fn empty_doc() -> DocumentDesc {
    DocumentDesc {
        nodes: vec![],
        meshes: vec![],
        materials: vec![],
        textures: vec![],
        animations: vec![],
        skins: vec![],
        scenes: vec![],
    }
}

fn f(bits: u32) -> f32 {
    f32::from_bits(bits)
}

#[test]
fn world_matrix_is_root_to_leaf_product() {
    // Parent rotates 90 degrees about Z, child translates along X.
    let h = (0.5f32).sqrt();
    let mut doc = empty_doc();
    doc.nodes.push(NodeDesc {
        rotation_xyzw: v4(0.0, 0.0, h, h),
        ..identity_node(vec![1], None)
    });
    doc.nodes.push(NodeDesc {
        translation: v3(1.0, 0.0, 0.0),
        ..identity_node(vec![], None)
    });
    doc.scenes.push(SceneDesc { name: None, nodes: vec![0] });
    let model = GltfModel::from_gltf(&doc, &options()).unwrap();
    assert_eq!(model.nodes.len(), 2);

    let world = GltfNode::get_matrix(&model.nodes, 1);
    let forward = model.nodes[0].local_matrix().matmul(&model.nodes[1].local_matrix());
    assert_eq!(world, forward);

    // The composed translation is the child offset rotated by the
    // parent: very nearly the Y axis.
    assert!(f(world.m03).abs() < 1.0e-6);
    assert!((f(world.m13) - 1.0).abs() < 1.0e-6);

    // Reversing the multiplication order gives a detectably different
    // matrix: the offset stays on the X axis.
    let reversed = model.nodes[1].local_matrix().matmul(&model.nodes[0].local_matrix());
    assert_ne!(world, reversed);
    assert!((f(reversed.m03) - 1.0).abs() < 1.0e-6);
}

#[test]
fn missing_normals_become_flat_normals() {
    let mut doc = empty_doc();
    doc.meshes.push(MeshDesc { name: None, primitives: vec![tri_prim()] });
    doc.nodes.push(identity_node(vec![], Some(0)));
    doc.scenes.push(SceneDesc { name: None, nodes: vec![0] });
    let model = GltfModel::from_gltf(&doc, &options()).unwrap();
    let prim = &model.meshes[0].primitives[0];
    assert_eq!(prim.normals.len(), 3);
    for n in &prim.normals {
        assert_eq!(*n, v3(0.0, 0.0, 1.0));
    }
}

#[test]
fn shared_source_mesh_is_built_once() {
    let mut doc = empty_doc();
    doc.meshes.push(MeshDesc { name: None, primitives: vec![tri_prim()] });
    doc.nodes.push(identity_node(vec![], Some(0)));
    doc.nodes.push(identity_node(vec![], Some(0)));
    doc.scenes.push(SceneDesc { name: None, nodes: vec![0, 1] });
    let model = GltfModel::from_gltf(&doc, &options()).unwrap();
    assert_eq!(model.meshes.len(), 1);
    assert_eq!(model.nodes[0].mesh, Some(0));
    assert_eq!(model.nodes[1].mesh, model.nodes[0].mesh);
}

#[test]
fn orphan_channel_drops_animation() {
    let mut doc = empty_doc();
    doc.nodes.push(identity_node(vec![], None));
    doc.scenes.push(SceneDesc { name: None, nodes: vec![0] });
    doc.animations.push(AnimationDesc {
        name: None,
        samplers: vec![
            SamplerDesc {
                interpolation: InterpolationDesc::Linear,
                inputs: vec![b(0.0), b(1.0)],
                outputs: SamplerOutputs::Vec3s(vec![v3(0.0, 0.0, 0.0), v3(1.0, 0.0, 0.0)]),
            },
        ],
        channels: vec![
            ChannelDesc { target_node: 99, property: TargetProperty::Translation, sampler: 0 },
        ],
    });
    let model = GltfModel::from_gltf(&doc, &options()).unwrap();
    assert!(model.animations.is_empty());
    assert!(model.diagnostics.iter().any(|d| matches!(
        d,
        GltfDiagnostic::ChannelTargetNotFound { animation_index: 0, node_index: 99 }
    )));
    assert!(model.diagnostics.iter().any(|d| matches!(
        d,
        GltfDiagnostic::AnimationDropped { animation_index: 0 }
    )));
}

#[test]
fn resolved_channel_keeps_animation_and_time_range() {
    let mut doc = empty_doc();
    doc.nodes.push(identity_node(vec![], None));
    doc.scenes.push(SceneDesc { name: None, nodes: vec![0] });
    doc.animations.push(AnimationDesc {
        name: None,
        samplers: vec![
            SamplerDesc {
                interpolation: InterpolationDesc::Linear,
                inputs: vec![b(0.5), b(2.0)],
                outputs: SamplerOutputs::Scalars(vec![b(0.0), b(1.0)]),
            },
            SamplerDesc {
                interpolation: InterpolationDesc::Step,
                inputs: vec![b(0.25), b(1.0)],
                outputs: SamplerOutputs::Vec3s(vec![v3(0.0, 0.0, 0.0), v3(1.0, 0.0, 0.0)]),
            },
        ],
        channels: vec![
            ChannelDesc { target_node: 0, property: TargetProperty::Translation, sampler: 1 },
        ],
    });
    let model = GltfModel::from_gltf(&doc, &options()).unwrap();
    assert_eq!(model.animations.len(), 1);
    let anim = &model.animations[0];
    assert_eq!(anim.channels.len(), 1);
    assert!(anim.channels[0].translation_sampler.is_some());
    assert!(anim.channels[0].rotation_sampler.is_none());
    assert_eq!(anim.start, b(0.25));
    assert_eq!(anim.end, b(2.0));
    assert_eq!(anim.node_to_channel, vec![(0usize, 0usize)]);
}

#[test]
fn empty_scene_keeps_dimension_sentinels() {
    let mut doc = empty_doc();
    doc.nodes.push(identity_node(vec![], None));
    doc.scenes.push(SceneDesc { name: None, nodes: vec![0] });
    let model = GltfModel::from_gltf(&doc, &options()).unwrap();
    assert!(!model.has_geometry);
    assert_eq!(model.dimensions.min, v3(f32::INFINITY, f32::INFINITY, f32::INFINITY));
    assert_eq!(
        model.dimensions.max,
        v3(f32::NEG_INFINITY, f32::NEG_INFINITY, f32::NEG_INFINITY)
    );
    let scene = GltfScene::from_gltf(&doc.scenes[0], &model).unwrap();
    assert_eq!(scene.dimensions.min, model.dimensions.min);
    assert_eq!(scene.dimensions.max, model.dimensions.max);
}

#[test]
fn geometry_moves_scene_dimensions_off_the_sentinels() {
    let mut doc = empty_doc();
    doc.meshes.push(MeshDesc { name: None, primitives: vec![tri_prim()] });
    doc.nodes.push(identity_node(vec![], Some(0)));
    doc.scenes.push(SceneDesc { name: None, nodes: vec![0] });
    let model = GltfModel::from_gltf(&doc, &options()).unwrap();
    assert!(model.has_geometry);
    assert_eq!(model.dimensions.min, v3(0.0, 0.0, 0.0));
    assert_eq!(model.dimensions.max, v3(1.0, 1.0, 0.0));
}

#[test]
fn identity_transform_flatten_keeps_positions() {
    let mut doc = empty_doc();
    doc.meshes.push(MeshDesc { name: None, primitives: vec![tri_prim()] });
    doc.nodes.push(identity_node(vec![], Some(0)));
    doc.scenes.push(SceneDesc { name: None, nodes: vec![0] });
    let mut model = GltfModel::from_gltf(&doc, &options()).unwrap();
    let raw: Vec<Vector3> = model.vertex_buffer.iter().map(|v| v.position).collect();
    let (mesh_data, parts, part_map) = load_model(&mut model).unwrap();
    assert_eq!(mesh_data.positions, raw);
    assert_eq!(mesh_data.positions, vec![v3(0.0, 0.0, 0.0), v3(1.0, 0.0, 0.0), v3(0.0, 1.0, 0.0)]);
    assert_eq!(mesh_data.indices, vec![0, 1, 2]);
    assert_eq!(parts.len(), 1);
    assert_eq!(parts[0].index_start, 0);
    assert_eq!(parts[0].index_count, 3);
    assert!(matches!(parts[0].animation_type, AnimationType::NotAnimated));
    assert_eq!(part_map.len(), 1);
    assert_eq!(part_map[0].0, "UNNAMED");
    assert_eq!(part_map[0].1, vec![0u32]);
}

fn plain_vertex(pos: Vector3) -> GltfVertex {
    GltfVertex {
        position: pos,
        normal: v3(0.0, 0.0, 1.0),
        uv0: v2(0.0, 0.0),
        color0: v4(0.0, 0.0, 0.0, 1.0),
        joint0: Joints4 { j0: 0, j1: 0, j2: 0, j3: 0 },
        joint1: Joints4 { j0: 0, j1: 0, j2: 0, j3: 0 },
        joint2: Joints4 { j0: 0, j1: 0, j2: 0, j3: 0 },
        joint3: Joints4 { j0: 0, j1: 0, j2: 0, j3: 0 },
        weight0: v4(0.0, 0.0, 0.0, 0.0),
        weight1: v4(0.0, 0.0, 0.0, 0.0),
        weight2: v4(0.0, 0.0, 0.0, 0.0),
        weight3: v4(0.0, 0.0, 0.0, 0.0),
        tangent: v3(0.0, 0.0, 0.0),
        bitangent: v3(0.0, 0.0, 0.0),
        influence_count: 0,
        skin_index: -1,
    }
}

fn bare_prim(index_start: u32, index_count: u32, vertex_start: u32) -> GltfPrimitive {
    GltfPrimitive {
        mode: PrimitiveMode::Triangles,
        mesh_index: 0,
        primitive_index: 0,
        material_index: None,
        dimensions: Dimensions::new(v3(0.0, 0.0, 0.0), v3(1.0, 1.0, 1.0)),
        faces: None,
        positions: vec![],
        normals: vec![],
        tangents: vec![],
        needs_tangents: false,
        color0: None,
        uv0: vec![],
        joints0: None,
        joints1: None,
        joints2: None,
        joints3: None,
        weights0: None,
        weights1: None,
        weights2: None,
        weights3: None,
        index_start,
        index_count,
        vertex_start,
    }
}

fn bare_node(mesh: Option<usize>, translation: Vector3) -> GltfNode {
    GltfNode {
        node_index: 0,
        joint_index: None,
        parent: None,
        children: vec![],
        name: None,
        mesh,
        skin_index: None,
        translation,
        scale: v3(1.0, 1.0, 1.0),
        rotation: gltf_flatten::math::Quaternion { w: b(1.0), x: b(0.0), y: b(0.0), z: b(0.0) },
    }
}

#[test]
fn shared_vertex_is_transformed_exactly_once() {
    // Two primitives of one mesh both reference global vertex 5; the
    // node translates by one along X.  Vertex 5 must move once.
    let vb: Vec<GltfVertex> = vec![
        plain_vertex(v3(0.0, 0.0, 0.0)),
        plain_vertex(v3(0.25, 0.0, 0.0)),
        plain_vertex(v3(0.5, 0.0, 0.0)),
        plain_vertex(v3(0.75, 0.0, 0.0)),
        plain_vertex(v3(4.0, 4.0, 4.0)),
        plain_vertex(v3(0.5, 0.25, 0.0)),
    ];
    let model_mesh = GltfMesh {
        index: 0,
        primitives: vec![bare_prim(0, 3, 0), bare_prim(3, 3, 0)],
        name: None,
    };
    let mut model = GltfModel {
        nodes: vec![bare_node(Some(0), v3(1.0, 0.0, 0.0))],
        root_nodes: vec![0],
        linear_nodes: vec![0],
        meshes: vec![model_mesh],
        textures: vec![],
        materials: vec![],
        animations: vec![],
        skins: vec![],
        dimensions: Dimensions::default(),
        has_geometry: true,
        index_buffer: vec![0, 1, 5, 2, 3, 5],
        vertex_buffer: vb,
        diagnostics: vec![],
    };
    flatten_transforms(&mut model);
    // The shared vertex moved by exactly one translation.
    assert_eq!(model.vertex_buffer[5].position, v3(1.5, 0.25, 0.0));
    // The unreferenced vertex did not move at all.
    assert_eq!(model.vertex_buffer[4].position, v3(4.0, 4.0, 4.0));
    // Every referenced vertex moved once.
    assert_eq!(model.vertex_buffer[0].position, v3(1.0, 0.0, 0.0));
    assert_eq!(model.vertex_buffer[3].position, v3(1.75, 0.0, 0.0));
}

fn animated_model(vertices: Vec<GltfVertex>) -> GltfModel {
    GltfModel {
        nodes: vec![bare_node(None, v3(0.0, 0.0, 0.0))],
        root_nodes: vec![0],
        linear_nodes: vec![0],
        meshes: vec![],
        textures: vec![],
        materials: vec![],
        animations: vec![gltf_flatten::animation::GltfAnimation {
            index: 0,
            name: None,
            samplers: vec![],
            channels: vec![GltfAnimationChannel {
                node: 0,
                rotation_sampler: None,
                translation_sampler: None,
                scale_sampler: None,
            }],
            node_to_channel: vec![(0, 0)],
            start: b(0.0),
            end: b(1.0),
        }],
        skins: vec![],
        dimensions: Dimensions::default(),
        has_geometry: false,
        index_buffer: vec![0, 0, 0],
        vertex_buffer: vertices,
        diagnostics: vec![],
    }
}

#[test]
fn rebalanced_weights_sum_to_one() {
    let mut v = plain_vertex(v3(0.0, 0.0, 0.0));
    v.joint0 = Joints4 { j0: 3, j1: 7, j2: 11, j3: 0 };
    v.weight0 = v4(0.2, 0.3, 0.1, 0.0);
    v.influence_count = 4;
    let mut model = animated_model(vec![v]);
    let md = build_mesh_data(&mut model).unwrap();
    let skin = &md.skinning_data[0];
    assert_eq!(skin.bone_count, 3);
    assert_eq!(skin.bone_ids[0], 3);
    assert_eq!(skin.bone_ids[1], 7);
    assert_eq!(skin.bone_ids[2], 11);
    let total: f32 = (0..3).map(|i| f(skin.weights[i])).sum();
    assert!((total - 1.0).abs() < 1.0e-6, "sum {}", total);
}

#[test]
fn zero_weight_vertex_is_not_divided() {
    let mut v = plain_vertex(v3(0.0, 0.0, 0.0));
    v.influence_count = 4;
    let mut model = animated_model(vec![v]);
    let md = build_mesh_data(&mut model).unwrap();
    let skin = &md.skinning_data[0];
    assert_eq!(skin.bone_count, 0);
    for w in &skin.weights {
        assert!(f(*w).is_finite());
        assert_eq!(f(*w), 0.0);
    }
    assert!(model.diagnostics.iter().any(|d| matches!(
        d,
        GltfDiagnostic::UnskinnedVertexInAnimatedModel { vertex_index: 0 }
    )));
}

#[test]
fn skinned_and_rigid_parts_are_classified() {
    let mut v = plain_vertex(v3(0.0, 0.0, 0.0));
    v.influence_count = 0;
    let mut model = animated_model(vec![v]);
    let mesh = GltfMesh { index: 0, primitives: vec![bare_prim(0, 3, 0)], name: None };
    model.meshes.push(mesh);
    model.nodes[0].mesh = Some(0);
    model.nodes.push(bare_node(Some(0), v3(0.0, 0.0, 0.0)));
    model.nodes[1].skin_index = Some(0);
    model.linear_nodes.push(1);
    let (parts, _) = build_parts(&model);
    assert_eq!(parts.len(), 2);
    assert!(matches!(parts[0].animation_type, AnimationType::Rigid));
    assert!(matches!(parts[1].animation_type, AnimationType::Skinned));
}

#[test]
fn scene_index_out_of_range_is_fatal() {
    let doc = empty_doc();
    let r = select_scene(&doc, &options());
    assert_eq!(r, Err(GltfError::SceneIndexOutOfRange { given: 0, count: 0 }));
    let mut opts = options();
    opts.scene_index = Some(3);
    let mut doc2 = empty_doc();
    doc2.scenes.push(SceneDesc { name: None, nodes: vec![] });
    assert_eq!(
        select_scene(&doc2, &opts),
        Err(GltfError::SceneIndexOutOfRange { given: 3, count: 1 })
    );
    assert_eq!(select_scene(&doc2, &options()), Ok(0));
}

#[test]
fn structural_primitive_errors() {
    let mut model = GltfModel::new_empty();
    let mut points = tri_prim();
    points.mode = PrimitiveMode::Points;
    assert!(matches!(
        GltfPrimitive::from_gltf(&points, 2, 7, &mut model, &options()),
        Err(GltfError::UnsupportedMode { mesh_index: 7, primitive_index: 2 })
    ));
    let mut missing = tri_prim();
    missing.positions = None;
    assert!(matches!(
        GltfPrimitive::from_gltf(&missing, 1, 4, &mut model, &options()),
        Err(GltfError::MissingPositions { mesh_index: 4, primitive_index: 1 })
    ));
    let mut bad = tri_prim();
    bad.indices = Some(vec![0, 1, 7]);
    assert!(matches!(
        GltfPrimitive::from_gltf(&bad, 0, 0, &mut model, &options()),
        Err(GltfError::InvalidReference)
    ));
    assert!(model.vertex_buffer.is_empty());
}

#[test]
fn empty_buffers_are_a_fatal_empty_mesh() {
    let mut model = GltfModel::new_empty();
    assert!(matches!(build_mesh_data(&mut model), Err(GltfError::EmptyMesh)));
}

#[test]
fn uv_fallback_and_flip_apply_uniformly() {
    let mut opts = options();
    opts.generate_tex_coords = (b(0.25), b(0.75));
    opts.flip_v_coord = true;
    let mut doc = empty_doc();
    doc.meshes.push(MeshDesc { name: None, primitives: vec![tri_prim()] });
    doc.nodes.push(identity_node(vec![], Some(0)));
    doc.scenes.push(SceneDesc { name: None, nodes: vec![0] });
    let model = GltfModel::from_gltf(&doc, &opts).unwrap();
    let prim = &model.meshes[0].primitives[0];
    assert_eq!(prim.uv0.len(), 3);
    for uv in &prim.uv0 {
        assert_eq!(*uv, v2(0.25, 1.0 - 0.75));
    }
}

#[test]
fn explicit_indices_reorder_attributes() {
    let mut prim = tri_prim();
    prim.indices = Some(vec![2, 1, 0]);
    prim.normals = Some(vec![v3(1.0, 0.0, 0.0), v3(0.0, 1.0, 0.0), v3(0.0, 0.0, 1.0)]);
    let mut doc = empty_doc();
    doc.meshes.push(MeshDesc { name: None, primitives: vec![prim] });
    doc.nodes.push(identity_node(vec![], Some(0)));
    doc.scenes.push(SceneDesc { name: None, nodes: vec![0] });
    let model = GltfModel::from_gltf(&doc, &options()).unwrap();
    let p = &model.meshes[0].primitives[0];
    assert_eq!(p.positions, vec![v3(0.0, 1.0, 0.0), v3(1.0, 0.0, 0.0), v3(0.0, 0.0, 0.0)]);
    assert_eq!(p.normals, vec![v3(0.0, 0.0, 1.0), v3(0.0, 1.0, 0.0), v3(1.0, 0.0, 0.0)]);
    assert_eq!(model.vertex_buffer.len(), 3);
    assert_eq!(model.vertex_buffer[0].position, v3(0.0, 1.0, 0.0));
    assert_eq!(model.index_buffer, vec![0, 1, 2]);
}

#[test]
fn two_properties_merge_into_one_channel() {
    let mut doc = empty_doc();
    doc.nodes.push(identity_node(vec![], None));
    doc.scenes.push(SceneDesc { name: None, nodes: vec![0] });
    doc.animations.push(AnimationDesc {
        name: None,
        samplers: vec![
            SamplerDesc {
                interpolation: InterpolationDesc::Linear,
                inputs: vec![b(0.0), b(1.0)],
                outputs: SamplerOutputs::Vec3s(vec![v3(0.0, 0.0, 0.0), v3(1.0, 0.0, 0.0)]),
            },
            SamplerDesc {
                interpolation: InterpolationDesc::Step,
                inputs: vec![b(0.0), b(1.0)],
                outputs: SamplerOutputs::Vec4s(vec![v4(0.0, 0.0, 0.0, 1.0), v4(0.0, 0.0, 1.0, 0.0)]),
            },
        ],
        channels: vec![
            ChannelDesc { target_node: 0, property: TargetProperty::Translation, sampler: 0 },
            ChannelDesc { target_node: 0, property: TargetProperty::Rotation, sampler: 1 },
        ],
    });
    let model = GltfModel::from_gltf(&doc, &options()).unwrap();
    assert_eq!(model.animations.len(), 1);
    let anim = &model.animations[0];
    // One merged channel per node: the second property joined the first
    // record instead of replacing it.
    assert_eq!(anim.channels.len(), 1);
    let ch = &anim.channels[0];
    assert!(ch.translation_sampler.is_some());
    assert!(ch.rotation_sampler.is_some());
    assert!(ch.scale_sampler.is_none());
    assert_eq!(ch.translation_sampler.as_ref().unwrap().inputs, vec![b(0.0), b(1.0)]);
}

#[test]
fn latest_channel_wins_per_property() {
    let mut doc = empty_doc();
    doc.nodes.push(identity_node(vec![], None));
    doc.scenes.push(SceneDesc { name: None, nodes: vec![0] });
    doc.animations.push(AnimationDesc {
        name: None,
        samplers: vec![
            SamplerDesc {
                interpolation: InterpolationDesc::Linear,
                inputs: vec![b(0.0)],
                outputs: SamplerOutputs::Vec3s(vec![v3(1.0, 0.0, 0.0)]),
            },
            SamplerDesc {
                interpolation: InterpolationDesc::Linear,
                inputs: vec![b(7.0)],
                outputs: SamplerOutputs::Vec3s(vec![v3(0.0, 7.0, 0.0)]),
            },
        ],
        channels: vec![
            ChannelDesc { target_node: 0, property: TargetProperty::Translation, sampler: 0 },
            ChannelDesc { target_node: 0, property: TargetProperty::Translation, sampler: 1 },
        ],
    });
    let model = GltfModel::from_gltf(&doc, &options()).unwrap();
    let ch = &model.animations[0].channels[0];
    assert_eq!(ch.translation_sampler.as_ref().unwrap().inputs, vec![b(7.0)]);
}

#[test]
fn morph_channel_only_reports() {
    let mut doc = empty_doc();
    doc.nodes.push(identity_node(vec![], None));
    doc.scenes.push(SceneDesc { name: None, nodes: vec![0] });
    doc.animations.push(AnimationDesc {
        name: None,
        samplers: vec![
            SamplerDesc {
                interpolation: InterpolationDesc::Linear,
                inputs: vec![b(0.0)],
                outputs: SamplerOutputs::Scalars(vec![b(0.5)]),
            },
        ],
        channels: vec![
            ChannelDesc {
                target_node: 0,
                property: TargetProperty::MorphTargetWeights,
                sampler: 0,
            },
        ],
    });
    let model = GltfModel::from_gltf(&doc, &options()).unwrap();
    // Never fatal; the node's record was opened but no slot assigned.
    assert_eq!(model.animations.len(), 1);
    let ch = &model.animations[0].channels[0];
    assert!(ch.translation_sampler.is_none());
    assert!(ch.rotation_sampler.is_none());
    assert!(ch.scale_sampler.is_none());
    assert!(model.diagnostics.iter().any(|d| matches!(
        d,
        GltfDiagnostic::MorphTargetChannel { animation_index: 0 }
    )));
}

#[test]
fn regenerated_tangents_start_zero_filled() {
    let mut opts = options();
    opts.regenerate_tangents = true;
    let mut doc = empty_doc();
    doc.meshes.push(MeshDesc { name: None, primitives: vec![tri_prim()] });
    doc.nodes.push(identity_node(vec![], Some(0)));
    doc.scenes.push(SceneDesc { name: None, nodes: vec![0] });
    let model = GltfModel::from_gltf(&doc, &opts).unwrap();
    let prim = &model.meshes[0].primitives[0];
    assert!(prim.needs_tangents);
    // The reconciled streams all share one length.
    assert_eq!(prim.positions.len(), 3);
    assert_eq!(prim.normals.len(), 3);
    assert_eq!(prim.tangents.len(), 3);
    assert_eq!(prim.uv0.len(), 3);
    for t in &prim.tangents {
        assert_eq!(*t, v3(0.0, 0.0, 0.0));
    }
}

#[test]
fn overlong_streams_are_matched_to_positions() {
    let mut prim = tri_prim();
    prim.normals = Some(vec![
        v3(1.0, 0.0, 0.0),
        v3(0.0, 1.0, 0.0),
        v3(0.0, 0.0, 1.0),
        v3(9.0, 9.0, 9.0),
    ]);
    let mut doc = empty_doc();
    doc.meshes.push(MeshDesc { name: None, primitives: vec![prim] });
    doc.nodes.push(identity_node(vec![], Some(0)));
    doc.scenes.push(SceneDesc { name: None, nodes: vec![0] });
    let model = GltfModel::from_gltf(&doc, &options()).unwrap();
    let p = &model.meshes[0].primitives[0];
    assert_eq!(p.normals.len(), 3);
    assert_eq!(p.normals[2], v3(0.0, 0.0, 1.0));
}

#[test]
fn dimension_bounds_include_translation() {
    let mut doc = empty_doc();
    doc.meshes.push(MeshDesc { name: None, primitives: vec![tri_prim()] });
    doc.nodes.push(NodeDesc {
        translation: v3(1.0, 2.0, 3.0),
        ..identity_node(vec![], Some(0))
    });
    doc.scenes.push(SceneDesc { name: None, nodes: vec![0] });
    let model = GltfModel::from_gltf(&doc, &options()).unwrap();
    // Bounds are positions: the world translation moves them.
    assert_eq!(model.dimensions.min, v3(1.0, 2.0, 3.0));
    assert_eq!(model.dimensions.max, v3(2.0, 3.0, 3.0));
}

#[test]
fn primitive_error_aborts_whole_import() {
    let mut bad = tri_prim();
    bad.mode = PrimitiveMode::Points;
    let mut doc = empty_doc();
    doc.meshes.push(MeshDesc { name: None, primitives: vec![bad] });
    doc.nodes.push(identity_node(vec![], Some(0)));
    doc.scenes.push(SceneDesc { name: None, nodes: vec![0] });
    assert!(matches!(
        GltfModel::from_gltf(&doc, &options()),
        Err(GltfError::UnsupportedMode { mesh_index: 0, primitive_index: 0 })
    ));
}
