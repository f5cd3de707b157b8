//! The static flattening pass: bake each mesh-bearing node's world
//! matrix into the shared vertex buffer exactly once per global vertex
//! index, and record one part per node+primitive pair.

use vstd::prelude::*;
use crate::{GltfError, GltfResult, GltfDiagnostic};
use crate::format::{MeshData, MeshAssetPart, SkinningData, AnimationType, MAX_BONE_INFLUENCES};
use crate::model::{GltfModel, GltfVertex, model_wf, mesh_ranges_wf, prim_range_wf};
use crate::node::{GltfNode, spec_world_matrix, chain_trs_identity};
use crate::math::{Vector3, Vector4, Matrix4, mat4_identity, spec_mat4_mul_v4, spec_v4_normalize,
    v3_plain};
use crate::fp::F32_ONE;
use crate::primitive::GltfPrimitive;

verus! {

/// A vertex after baking: position moved by the matrix with an implied
/// unit homogeneous coordinate, normal moved the same way and then
/// normalized as a four-vector; everything else kept.
pub open spec fn spec_transformed_vertex(v: GltfVertex, m: Matrix4) -> GltfVertex {
    let pos4 = spec_mat4_mul_v4(
        m,
        Vector4 { x: v.position.x, y: v.position.y, z: v.position.z, w: F32_ONE },
    );
    let nor4 = spec_v4_normalize(
        spec_mat4_mul_v4(m, Vector4 { x: v.normal.x, y: v.normal.y, z: v.normal.z, w: F32_ONE }),
    );
    GltfVertex {
        position: Vector3 { x: pos4.x, y: pos4.y, z: pos4.z },
        normal: Vector3 { x: nor4.x, y: nor4.y, z: nor4.z },
        ..v
    }
}

/// Some position of `[start, limit)` in the index buffer names the
/// global vertex `v`.
pub open spec fn range_touches(ib: Seq<u32>, start: int, limit: int, v: int) -> bool {
    exists|pos: int| start <= pos < limit && ib[pos] == v
}

/// The part of a primitive's range the triangle walk reads: whole
/// triples only, a trailing partial triple is not touched.
pub open spec fn prim_limit(p: GltfPrimitive) -> int {
    p.index_start + 3 * ((p.index_count as int) / 3)
}

/// One of the primitives, over its triple-limited range, touches `v`.
pub open spec fn prims_touch(ib: Seq<u32>, prims: Seq<GltfPrimitive>, v: int) -> bool {
    exists|k: int|
        0 <= k < prims.len() && range_touches(
            ib,
            prims[k].index_start as int,
            prim_limit(prims[k]),
            v,
        )
}

/// The node carries a mesh and one of its primitives touches `v`.
pub open spec fn node_touches(m: GltfModel, a: int, v: int) -> bool {
    match m.nodes@[a].mesh {
        Some(h) => prims_touch(m.index_buffer@, m.meshes@[h as int].primitives@, v),
        None => false,
    }
}

/// The first node of the linear list, among the first `upto`, that
/// touches the global vertex `v`: the node whose world matrix bakes the
/// vertex.
pub open spec fn first_toucher(m: GltfModel, upto: int, v: int) -> Option<usize>
    decreases upto,
{
    if upto <= 0 {
        None
    } else {
        match first_toucher(m, upto - 1, v) {
            Some(a) => Some(a),
            None => {
                let a = m.linear_nodes@[upto - 1];
                if a < m.nodes@.len() && node_touches(m, a as int, v) {
                    Some(a)
                } else {
                    None
                }
            },
        }
    }
}

/// Bake one vertex.  Under the identity matrix a plain position comes
/// back bit for bit.
fn transform_one_vertex(v: &GltfVertex, matrix: &Matrix4) -> (r: GltfVertex)
    ensures
        r == spec_transformed_vertex(*v, *matrix),
        *matrix == mat4_identity() && v3_plain(v.position) ==> r.position == v.position,
{
    let pos4 = matrix.mul_v4(
        &Vector4 { x: v.position.x, y: v.position.y, z: v.position.z, w: F32_ONE },
    );
    let nor4 = matrix.mul_v4(
        &Vector4 { x: v.normal.x, y: v.normal.y, z: v.normal.z, w: F32_ONE },
    ).normalize();
    GltfVertex {
        position: Vector3 { x: pos4.x, y: pos4.y, z: pos4.z },
        normal: Vector3 { x: nor4.x, y: nor4.y, z: nor4.z },
        uv0: v.uv0,
        color0: v.color0,
        joint0: v.joint0,
        joint1: v.joint1,
        joint2: v.joint2,
        joint3: v.joint3,
        weight0: v.weight0,
        weight1: v.weight1,
        weight2: v.weight2,
        weight3: v.weight3,
        tangent: v.tangent,
        bitangent: v.bitangent,
        influence_count: v.influence_count,
        skin_index: v.skin_index,
    }
}

/// Bake every not-yet-baked vertex referenced by one contiguous index
/// range, marking each as baked.
#[verifier::loop_isolation(false)]
fn transform_range(
    vb: &mut Vec<GltfVertex>,
    transformed: &mut Vec<bool>,
    ib: &Vec<u32>,
    start: usize,
    limit: usize,
    matrix: &Matrix4,
)
    requires
        start <= limit <= ib@.len(),
        forall|k: int| 0 <= k < ib@.len() ==> ib@[k] < old(vb)@.len(),
        old(transformed)@.len() == old(vb)@.len(),
    ensures
        final(vb)@.len() == old(vb)@.len(),
        final(transformed)@.len() == old(transformed)@.len(),
        forall|v: int|
            0 <= v < old(vb)@.len() ==> final(transformed)@[v] == (old(transformed)@[v]
                || range_touches(ib@, start as int, limit as int, v)),
        forall|v: int|
            0 <= v < old(vb)@.len() && old(transformed)@[v] ==> final(vb)@[v] == old(vb)@[v],
        forall|v: int|
            0 <= v < old(vb)@.len() && !old(transformed)@[v] && range_touches(
                ib@,
                start as int,
                limit as int,
                v,
            ) ==> final(vb)@[v] == spec_transformed_vertex(old(vb)@[v], *matrix),
        forall|v: int|
            0 <= v < old(vb)@.len() && !old(transformed)@[v] && !range_touches(
                ib@,
                start as int,
                limit as int,
                v,
            ) ==> final(vb)@[v] == old(vb)@[v],
        forall|v: int|
            0 <= v < old(vb)@.len() && *matrix == mat4_identity() && v3_plain(
                old(vb)@[v].position,
            ) ==> final(vb)@[v].position == old(vb)@[v].position,
{
    let mut pos: usize = start;
    while pos < limit
        invariant
            start <= pos <= limit,
            vb@.len() == old(vb)@.len(),
            transformed@.len() == old(transformed)@.len(),
            forall|v: int|
                0 <= v < old(vb)@.len() ==> transformed@[v] == (old(transformed)@[v]
                    || range_touches(ib@, start as int, pos as int, v)),
            forall|v: int|
                0 <= v < old(vb)@.len() && old(transformed)@[v] ==> vb@[v] == old(vb)@[v],
            forall|v: int|
                0 <= v < old(vb)@.len() && !old(transformed)@[v] && range_touches(
                    ib@,
                    start as int,
                    pos as int,
                    v,
                ) ==> vb@[v] == spec_transformed_vertex(old(vb)@[v], *matrix),
            forall|v: int|
                0 <= v < old(vb)@.len() && !old(transformed)@[v] && !range_touches(
                    ib@,
                    start as int,
                    pos as int,
                    v,
                ) ==> vb@[v] == old(vb)@[v],
            forall|v: int|
                0 <= v < old(vb)@.len() && *matrix == mat4_identity() && v3_plain(
                    old(vb)@[v].position,
                ) ==> vb@[v].position == old(vb)@[v].position,
        decreases limit - pos,
    {
        let vi = ib[pos] as usize;
        if !transformed[vi] {
            let nv = transform_one_vertex(&vb[vi], matrix);
            vb.set(vi, nv);
            transformed.set(vi, true);
        }
        pos = pos + 1;
    }
}

/// Bake every primitive range of one mesh under one node matrix.
#[verifier::loop_isolation(false)]
fn transform_node_mesh(
    vb: &mut Vec<GltfVertex>,
    transformed: &mut Vec<bool>,
    ib: &Vec<u32>,
    prims: &Vec<GltfPrimitive>,
    matrix: &Matrix4,
)
    requires
        forall|k: int| 0 <= k < ib@.len() ==> ib@[k] < old(vb)@.len(),
        old(transformed)@.len() == old(vb)@.len(),
        forall|k: int|
            0 <= k < prims@.len() ==> (#[trigger] prims@[k]).index_start + prims@[k].index_count
                <= ib@.len(),
    ensures
        final(vb)@.len() == old(vb)@.len(),
        final(transformed)@.len() == old(transformed)@.len(),
        forall|v: int|
            0 <= v < old(vb)@.len() ==> final(transformed)@[v] == (old(transformed)@[v]
                || prims_touch(ib@, prims@, v)),
        forall|v: int|
            0 <= v < old(vb)@.len() && old(transformed)@[v] ==> final(vb)@[v] == old(vb)@[v],
        forall|v: int|
            0 <= v < old(vb)@.len() && !old(transformed)@[v] && prims_touch(ib@, prims@, v)
                ==> final(vb)@[v] == spec_transformed_vertex(old(vb)@[v], *matrix),
        forall|v: int|
            0 <= v < old(vb)@.len() && !old(transformed)@[v] && !prims_touch(ib@, prims@, v)
                ==> final(vb)@[v] == old(vb)@[v],
        forall|v: int|
            0 <= v < old(vb)@.len() && *matrix == mat4_identity() && v3_plain(
                old(vb)@[v].position,
            ) ==> final(vb)@[v].position == old(vb)@[v].position,
{
    let mut k: usize = 0;
    while k < prims.len()
        invariant
            k <= prims@.len(),
            vb@.len() == old(vb)@.len(),
            transformed@.len() == old(transformed)@.len(),
            forall|v: int|
                0 <= v < old(vb)@.len() ==> transformed@[v] == (old(transformed)@[v]
                    || prims_touch(ib@, prims@.take(k as int), v)),
            forall|v: int|
                0 <= v < old(vb)@.len() && old(transformed)@[v] ==> vb@[v] == old(vb)@[v],
            forall|v: int|
                0 <= v < old(vb)@.len() && !old(transformed)@[v] && prims_touch(
                    ib@,
                    prims@.take(k as int),
                    v,
                ) ==> vb@[v] == spec_transformed_vertex(old(vb)@[v], *matrix),
            forall|v: int|
                0 <= v < old(vb)@.len() && !old(transformed)@[v] && !prims_touch(
                    ib@,
                    prims@.take(k as int),
                    v,
                ) ==> vb@[v] == old(vb)@[v],
            forall|v: int|
                0 <= v < old(vb)@.len() && *matrix == mat4_identity() && v3_plain(
                    old(vb)@[v].position,
                ) ==> vb@[v].position == old(vb)@[v].position,
        decreases prims@.len() - k,
    {
        let p = &prims[k];
        proof {
            assert(prims@[k as int].index_start + prims@[k as int].index_count <= ib@.len());
        }
        let ib_len: usize = ib.len();
        let count3: u32 = 3 * (p.index_count / 3);
        assert(count3 <= p.index_count);
        let start: usize = p.index_start as usize;
        let limit: usize = start + count3 as usize;
        assert(limit <= ib_len);
        assert(limit as int == prim_limit(prims@[k as int]));
        let ghost pre_t = transformed@;
        let ghost pre_vb = vb@;
        transform_range(vb, transformed, ib, start, limit, matrix);
        proof {
            let kk = k as int;
            assert forall|v: int| 0 <= v < old(vb)@.len() implies (prims_touch(
                ib@,
                prims@.take(kk + 1),
                v,
            ) == (prims_touch(ib@, prims@.take(kk), v) || range_touches(
                ib@,
                prims@[kk].index_start as int,
                prim_limit(prims@[kk]),
                v,
            ))) by {
                if prims_touch(ib@, prims@.take(kk + 1), v) {
                    let w = choose|w: int| #![trigger prims@.take(kk + 1)[w]]
                        0 <= w < prims@.take(kk + 1).len() && range_touches(
                            ib@,
                            prims@.take(kk + 1)[w].index_start as int,
                            prim_limit(prims@.take(kk + 1)[w]),
                            v,
                        );
                    if w < kk {
                        assert(prims@.take(kk)[w] == prims@.take(kk + 1)[w]);
                        assert(prims_touch(ib@, prims@.take(kk), v));
                    } else {
                        assert(prims@.take(kk + 1)[w] == prims@[kk]);
                    }
                }
                if prims_touch(ib@, prims@.take(kk), v) {
                    let w = choose|w: int| #![trigger prims@.take(kk)[w]]
                        0 <= w < prims@.take(kk).len() && range_touches(
                            ib@,
                            prims@.take(kk)[w].index_start as int,
                            prim_limit(prims@.take(kk)[w]),
                            v,
                        );
                    assert(prims@.take(kk + 1)[w] == prims@.take(kk)[w]);
                    assert(prims_touch(ib@, prims@.take(kk + 1), v));
                }
                if range_touches(ib@, prims@[kk].index_start as int, prim_limit(prims@[kk]), v) {
                    assert(prims@.take(kk + 1)[kk] == prims@[kk]);
                    assert(prims_touch(ib@, prims@.take(kk + 1), v));
                }
            }
        }
        k = k + 1;
    }
    proof {
        assert(prims@.take(prims@.len() as int) =~= prims@);
    }
}

/// The whole static baking pass.  Every global vertex is moved by the
/// world matrix of the first linear node whose triangles reference it,
/// and is moved exactly once however many triangles, primitives or
/// nodes reference it; vertices no triangle references are left
/// untouched.  When that first node's transform chain is the identity,
/// a plain position comes back bit for bit.
#[verifier::loop_isolation(false)]
pub fn flatten_transforms(model: &mut GltfModel)
    requires
        model_wf(*old(model)),
    ensures
        model_wf(*final(model)),
        final(model).vertex_buffer@.len() == old(model).vertex_buffer@.len(),
        final(model).nodes@ == old(model).nodes@,
        final(model).root_nodes@ == old(model).root_nodes@,
        final(model).linear_nodes@ == old(model).linear_nodes@,
        final(model).meshes@ == old(model).meshes@,
        final(model).textures@ == old(model).textures@,
        final(model).materials@ == old(model).materials@,
        final(model).animations@ == old(model).animations@,
        final(model).skins@ == old(model).skins@,
        final(model).index_buffer@ == old(model).index_buffer@,
        final(model).diagnostics@ == old(model).diagnostics@,
        final(model).dimensions == old(model).dimensions,
        final(model).has_geometry == old(model).has_geometry,
        forall|v: int| #![trigger old(model).vertex_buffer@[v]]
            0 <= v < old(model).vertex_buffer@.len() ==> (match first_toucher(
                *old(model),
                old(model).linear_nodes@.len() as int,
                v,
            ) {
                Some(a) => final(model).vertex_buffer@[v] == spec_transformed_vertex(
                    old(model).vertex_buffer@[v],
                    spec_world_matrix(old(model).nodes@, a as int),
                ) && (chain_trs_identity(old(model).nodes@, a as int) && v3_plain(
                    old(model).vertex_buffer@[v].position,
                ) ==> final(model).vertex_buffer@[v].position == old(
                    model,
                ).vertex_buffer@[v].position),
                None => final(model).vertex_buffer@[v] == old(model).vertex_buffer@[v],
            }),
{
    let ghost m0 = *model;
    let n = model.vertex_buffer.len();
    let mut transformed: Vec<bool> = Vec::new();
    let mut z: usize = 0;
    while z < n
        invariant
            z <= n,
            transformed@.len() == z,
            forall|v: int| 0 <= v < z ==> !transformed@[v],
        decreases n - z,
    {
        transformed.push(false);
        z = z + 1;
    }
    let mut t: usize = 0;
    while t < model.linear_nodes.len()
        invariant
            t <= model.linear_nodes@.len(),
            model.nodes@ == m0.nodes@,
            model.root_nodes@ == m0.root_nodes@,
            model.linear_nodes@ == m0.linear_nodes@,
            model.meshes@ == m0.meshes@,
            model.textures@ == m0.textures@,
            model.materials@ == m0.materials@,
            model.animations@ == m0.animations@,
            model.skins@ == m0.skins@,
            model.index_buffer@ == m0.index_buffer@,
            model.diagnostics@ == m0.diagnostics@,
            model.dimensions == m0.dimensions,
            model.has_geometry == m0.has_geometry,
            model.vertex_buffer@.len() == n,
            transformed@.len() == n,
            forall|v: int|
                0 <= v < n ==> transformed@[v] == (first_toucher(m0, t as int, v) is Some),
            forall|v: int| #![trigger m0.vertex_buffer@[v]]
                0 <= v < n ==> (match first_toucher(m0, t as int, v) {
                    Some(a) => model.vertex_buffer@[v] == spec_transformed_vertex(
                        m0.vertex_buffer@[v],
                        spec_world_matrix(m0.nodes@, a as int),
                    ) && (chain_trs_identity(m0.nodes@, a as int) && v3_plain(
                        m0.vertex_buffer@[v].position,
                    ) ==> model.vertex_buffer@[v].position == m0.vertex_buffer@[v].position),
                    None => model.vertex_buffer@[v] == m0.vertex_buffer@[v],
                }),
        decreases model.linear_nodes@.len() - t,
    {
        let a = model.linear_nodes[t];
        match model.nodes[a].mesh {
            Some(h) => {
                let matrix = GltfNode::get_matrix(&model.nodes, a);
                let ghost pre_vb = model.vertex_buffer@;
                let ghost pre_tr = transformed@;
                proof {
                    assert(mesh_ranges_wf(m0.meshes@[h as int], m0));
                    assert forall|k: int|
                        0 <= k < m0.meshes@[h as int].primitives@.len() implies (
                    #[trigger] m0.meshes@[h as int].primitives@[k]).index_start + m0.meshes@[
                        h as int
                    ].primitives@[k].index_count <= m0.index_buffer@.len() by {
                        assert(prim_range_wf(m0.meshes@[h as int].primitives@[k], m0));
                    }
                }
                transform_node_mesh(
                    &mut model.vertex_buffer,
                    &mut transformed,
                    &model.index_buffer,
                    &model.meshes[h].primitives,
                    &matrix,
                );
                proof {
                    let tt = t as int;
                    assert forall|v: int| 0 <= v < n implies (transformed@[v] == (first_toucher(
                        m0,
                        tt + 1,
                        v,
                    ) is Some)) && (match first_toucher(m0, tt + 1, v) {
                        Some(b) => model.vertex_buffer@[v] == spec_transformed_vertex(
                            m0.vertex_buffer@[v],
                            spec_world_matrix(m0.nodes@, b as int),
                        ) && (chain_trs_identity(m0.nodes@, b as int) && v3_plain(
                            m0.vertex_buffer@[v].position,
                        ) ==> model.vertex_buffer@[v].position
                            == m0.vertex_buffer@[v].position),
                        None => model.vertex_buffer@[v] == m0.vertex_buffer@[v],
                    }) by {
                        assert(node_touches(m0, a as int, v) == prims_touch(
                            m0.index_buffer@,
                            m0.meshes@[h as int].primitives@,
                            v,
                        ));
                        match first_toucher(m0, tt, v) {
                            Some(b) => {
                                assert(pre_tr[v]);
                                assert(model.vertex_buffer@[v] == pre_vb[v]);
                            },
                            None => {
                                assert(!pre_tr[v]);
                                assert(pre_vb[v] == m0.vertex_buffer@[v]);
                                if node_touches(m0, a as int, v) {
                                    assert(first_toucher(m0, tt + 1, v) == Some(a));
                                    assert(model.vertex_buffer@[v] == spec_transformed_vertex(
                                        m0.vertex_buffer@[v],
                                        spec_world_matrix(m0.nodes@, a as int),
                                    ));
                                    if chain_trs_identity(m0.nodes@, a as int) && v3_plain(
                                        m0.vertex_buffer@[v].position,
                                    ) {
                                        assert(matrix == mat4_identity());
                                        assert(model.vertex_buffer@[v].position == pre_vb[
                                            v
                                        ].position);
                                    }
                                } else {
                                    assert(first_toucher(m0, tt + 1, v) is None);
                                    assert(model.vertex_buffer@[v] == m0.vertex_buffer@[v]);
                                }
                            },
                        }
                    }
                }
            },
            None => {
                proof {
                    let tt = t as int;
                    assert forall|v: int| 0 <= v < n implies first_toucher(m0, tt + 1, v)
                        == first_toucher(m0, tt, v) by {
                        assert(!node_touches(m0, a as int, v));
                    }
                }
            },
        }
        t = t + 1;
    }
    proof {
        assert(model.linear_nodes@.len() == m0.linear_nodes@.len());
    }
}

// ---------------------------------------------------------------------------
// Parts.
// ---------------------------------------------------------------------------

/// The animation classification of a part under one node: skinned when
/// the node has a skin and the model is animated, rigid when the model
/// is animated but the node has no skin, not animated otherwise.
pub open spec fn spec_anim_type(m: GltfModel, a: int) -> AnimationType {
    if m.animations@.len() > 0 {
        if m.nodes@[a].skin_index is Some {
            AnimationType::Skinned
        } else {
            AnimationType::Rigid
        }
    } else {
        AnimationType::NotAnimated
    }
}

/// The part one node+primitive pair contributes.
pub open spec fn spec_part(m: GltfModel, a: int, h: int, k: int) -> MeshAssetPart {
    let p = m.meshes@[h].primitives@[k];
    MeshAssetPart {
        index_start: p.index_start,
        index_count: p.index_count,
        material_index: match p.material_index {
            Some(mi) => Some(mi as u32),
            None => None,
        },
        node_index: None,
        base_transform: mat4_identity(),
        name: m.nodes@[a].name,
        animation_type: spec_anim_type(m, a),
    }
}

pub open spec fn spec_node_parts(m: GltfModel, a: int) -> Seq<MeshAssetPart> {
    match m.nodes@[a].mesh {
        Some(h) => if h < m.meshes@.len() {
            Seq::new(m.meshes@[h as int].primitives@.len(), |k: int| spec_part(m, a, h as int, k))
        } else {
            Seq::empty()
        },
        None => Seq::empty(),
    }
}

/// All parts of the first `upto` linear nodes, in order.
pub open spec fn spec_parts_upto(m: GltfModel, upto: int) -> Seq<MeshAssetPart>
    decreases upto,
{
    if upto <= 0 {
        Seq::empty()
    } else {
        spec_parts_upto(m, upto - 1) + (if m.linear_nodes@[upto - 1] < m.nodes@.len() {
            spec_node_parts(m, m.linear_nodes@[upto - 1] as int)
        } else {
            Seq::empty()
        })
    }
}

/// The name a part map entry files a node under.
pub open spec fn spec_part_name(m: GltfModel, a: int) -> Seq<char> {
    match m.nodes@[a].name {
        Some(n) => n@,
        None => "UNNAMED"@,
    }
}

/// The node-name-to-part-positions pairs of the first `upto` linear
/// nodes: one pair per mesh-bearing node, listing the positions of its
/// parts in the global part list.
pub open spec fn spec_part_map_upto(m: GltfModel, upto: int) -> Seq<(Seq<char>, Seq<u32>)>
    decreases upto,
{
    if upto <= 0 {
        Seq::empty()
    } else {
        let prev = spec_part_map_upto(m, upto - 1);
        let a = m.linear_nodes@[upto - 1];
        if a < m.nodes@.len() && spec_node_parts(m, a as int).len() > 0 {
            prev + seq![
                (
                    spec_part_name(m, a as int),
                    Seq::new(
                        spec_node_parts(m, a as int).len(),
                        |k: int| (spec_parts_upto(m, upto - 1).len() + k) as u32,
                    ),
                ),
            ]
        } else {
            prev
        }
    }
}

/// Build the part list and the per-node part map: one part per
/// node+primitive pair over the linear nodes in order, each part
/// recording its primitive's index range, material and animation
/// classification; each mesh-bearing node files its parts' positions
/// under its name.
#[verifier::loop_isolation(false)]
#[verifier::rlimit(30)]
pub fn build_parts(model: &GltfModel) -> (r: (Vec<MeshAssetPart>, Vec<(String, Vec<u32>)>))
    requires
        model_wf(*model),
    ensures
        r.0@ == spec_parts_upto(*model, model.linear_nodes@.len() as int),
        r.1@.len() == spec_part_map_upto(*model, model.linear_nodes@.len() as int).len(),
        forall|j: int|
            0 <= j < r.1@.len() ==> (#[trigger] r.1@[j]).0@ == spec_part_map_upto(
                *model,
                model.linear_nodes@.len() as int,
            )[j].0 && r.1@[j].1@ == spec_part_map_upto(
                *model,
                model.linear_nodes@.len() as int,
            )[j].1,
{
    let mut parts: Vec<MeshAssetPart> = Vec::new();
    let mut part_map: Vec<(String, Vec<u32>)> = Vec::new();
    let has_animations = model.animations.len() > 0;
    let mut t: usize = 0;
    while t < model.linear_nodes.len()
        invariant
            t <= model.linear_nodes@.len(),
            parts@ == spec_parts_upto(*model, t as int),
            part_map@.len() == spec_part_map_upto(*model, t as int).len(),
            has_animations == (model.animations@.len() > 0),
            forall|j: int|
                0 <= j < part_map@.len() ==> (#[trigger] part_map@[j]).0@ == spec_part_map_upto(
                    *model,
                    t as int,
                )[j].0 && part_map@[j].1@ == spec_part_map_upto(*model, t as int)[j].1,
        decreases model.linear_nodes@.len() - t,
    {
        let a = model.linear_nodes[t];
        let ghost parts_before = parts@;
        match model.nodes[a].mesh {
            Some(h) => {
                let animation_type = if has_animations {
                    if model.nodes[a].skin_index.is_some() {
                        AnimationType::Skinned
                    } else {
                        AnimationType::Rigid
                    }
                } else {
                    AnimationType::NotAnimated
                };
                let mesh = &model.meshes[h];
                let mut part_indices: Vec<u32> = Vec::new();
                let mut k: usize = 0;
                while k < mesh.primitives.len()
                    invariant
                        k <= mesh.primitives@.len(),
                        parts@ == parts_before + spec_node_parts(*model, a as int).take(k as int),
                        part_indices@ == Seq::new(
                            k as nat,
                            |j: int| (parts_before.len() + j) as u32,
                        ),
                        animation_type == spec_anim_type(*model, a as int),
                    decreases mesh.primitives@.len() - k,
                {
                    let prim = &mesh.primitives[k];
                    let name: Option<String> = match &model.nodes[a].name {
                        Some(n) => Some(n.clone()),
                        None => None,
                    };
                    let material_index: Option<u32> = match prim.material_index {
                        Some(mi) => Some(mi as u32),
                        None => None,
                    };
                    let part = MeshAssetPart {
                        index_start: prim.index_start,
                        index_count: prim.index_count,
                        material_index,
                        node_index: None,
                        base_transform: Matrix4::identity(),
                        name,
                        animation_type,
                    };
                    let pos = parts.len() as u32;
                    parts.push(part);
                    part_indices.push(pos);
                    proof {
                        assert(spec_node_parts(*model, a as int).take(k as int + 1).drop_last()
                            =~= spec_node_parts(*model, a as int).take(k as int));
                        assert(parts@ =~= parts_before + spec_node_parts(*model, a as int).take(
                            k as int + 1,
                        ));
                        assert(part_indices@ =~= Seq::new(
                            k as nat + 1,
                            |j: int| (parts_before.len() + j) as u32,
                        ));
                    }
                    k = k + 1;
                }
                let node_name: String = match &model.nodes[a].name {
                    Some(n) => n.clone(),
                    None => String::from_str("UNNAMED"),
                };
                if mesh.primitives.len() > 0 {
                    part_map.push((node_name, part_indices));
                }
                proof {
                    assert(spec_node_parts(*model, a as int).take(
                        spec_node_parts(*model, a as int).len() as int,
                    ) =~= spec_node_parts(*model, a as int));
                    assert(parts@ =~= spec_parts_upto(*model, t as int + 1));
                }
            },
            None => {
                proof {
                    assert(parts@ =~= spec_parts_upto(*model, t as int + 1));
                }
            },
        }
        t = t + 1;
    }
    (parts, part_map)
}

// ---------------------------------------------------------------------------
// Skinning consolidation and the flattened streams.
// ---------------------------------------------------------------------------

/// The weight of slot `j` of a vertex: the four weight sets
/// concatenated in set order.
pub open spec fn slot_weight(v: GltfVertex, j: int) -> u32 {
    if j == 0 { v.weight0.x } else if j == 1 { v.weight0.y } else if j == 2 { v.weight0.z }
    else if j == 3 { v.weight0.w } else if j == 4 { v.weight1.x } else if j == 5 { v.weight1.y }
    else if j == 6 { v.weight1.z } else if j == 7 { v.weight1.w } else if j == 8 { v.weight2.x }
    else if j == 9 { v.weight2.y } else if j == 10 { v.weight2.z } else if j == 11 { v.weight2.w }
    else if j == 12 { v.weight3.x } else if j == 13 { v.weight3.y } else if j == 14 {
        v.weight3.z
    } else {
        v.weight3.w
    }
}

/// The joint index of slot `j`, widened to 32 bits.
pub open spec fn slot_joint(v: GltfVertex, j: int) -> u32 {
    if j == 0 { v.joint0.j0 as u32 } else if j == 1 { v.joint0.j1 as u32 } else if j == 2 {
        v.joint0.j2 as u32
    } else if j == 3 { v.joint0.j3 as u32 } else if j == 4 { v.joint1.j0 as u32 } else if j == 5 {
        v.joint1.j1 as u32
    } else if j == 6 { v.joint1.j2 as u32 } else if j == 7 { v.joint1.j3 as u32 } else if j == 8 {
        v.joint2.j0 as u32
    } else if j == 9 { v.joint2.j1 as u32 } else if j == 10 { v.joint2.j2 as u32 } else if j
        == 11 {
        v.joint2.j3 as u32
    } else if j == 12 { v.joint3.j0 as u32 } else if j == 13 { v.joint3.j1 as u32 } else if j
        == 14 {
        v.joint3.j2 as u32
    } else {
        v.joint3.j3 as u32
    }
}

/// The influences a vertex exposes to consolidation: its recorded
/// count, capped at the slot capacity.
pub open spec fn spec_slot_count(v: GltfVertex) -> int {
    if v.influence_count as int <= MAX_BONE_INFLUENCES as int {
        v.influence_count as int
    } else {
        MAX_BONE_INFLUENCES as int
    }
}

/// The highest slot below `count` holding a strictly positive weight,
/// or `-1` when there is none.
pub open spec fn spec_max_nonzero(v: GltfVertex, count: int) -> int
    decreases count,
{
    if count <= 0 {
        -1
    } else if crate::fp::gt_zero(slot_weight(v, count - 1)) {
        count - 1
    } else {
        spec_max_nonzero(v, count - 1)
    }
}

/// The running sum of the first `count` slot weights, first to last.
pub open spec fn spec_weight_sum(v: GltfVertex, count: int) -> u32
    decreases count,
{
    if count <= 0 {
        crate::fp::F32_POS_ZERO
    } else {
        crate::fp::f32_add(spec_weight_sum(v, count - 1), slot_weight(v, count - 1))
    }
}

/// The effective influence count: the highest positively weighted slot
/// plus one, and zero for a vertex with no positive weight at all.
pub open spec fn spec_new_count(v: GltfVertex) -> int {
    spec_max_nonzero(v, spec_slot_count(v)) + 1
}

/// The consolidated weights: re-balanced by the raw sum below the
/// effective count, raw between the effective and the recorded count,
/// zero beyond.  A vertex with effective count zero divides nothing.
pub open spec fn spec_skin_weights(v: GltfVertex) -> Seq<u32> {
    let cnt = spec_slot_count(v);
    let sum = spec_weight_sum(v, cnt);
    Seq::new(
        MAX_BONE_INFLUENCES as nat,
        |j: int|
            if j < spec_new_count(v) {
                crate::fp::f32_div(slot_weight(v, j), sum)
            } else if j < cnt {
                slot_weight(v, j)
            } else {
                crate::fp::F32_POS_ZERO
            },
    )
}

pub open spec fn spec_skin_ids(v: GltfVertex) -> Seq<u32> {
    let cnt = spec_slot_count(v);
    Seq::new(
        MAX_BONE_INFLUENCES as nat,
        |j: int|
            if j < cnt {
                slot_joint(v, j)
            } else {
                0
            },
    )
}

/// A vertex has effective influence count zero exactly when none of its
/// exposed slots carries a strictly positive weight.
pub proof fn lemma_zero_influences(v: GltfVertex)
    ensures
        (spec_new_count(v) == 0) <==> (forall|j: int|
            0 <= j < spec_slot_count(v) ==> !crate::fp::gt_zero(slot_weight(v, j))),
{
    lemma_max_nonzero(v, spec_slot_count(v));
}

proof fn lemma_max_nonzero(v: GltfVertex, count: int)
    requires
        count >= 0,
    ensures
        (spec_max_nonzero(v, count) == -1) <==> (forall|j: int|
            0 <= j < count ==> !crate::fp::gt_zero(slot_weight(v, j))),
        spec_max_nonzero(v, count) < count,
        spec_max_nonzero(v, count) >= -1,
    decreases count,
{
    if count > 0 {
        lemma_max_nonzero(v, count - 1);
    }
}

fn slot_weight_of(v: &GltfVertex, j: usize) -> (r: u32)
    requires
        j < 16,
    ensures
        r == slot_weight(*v, j as int),
{
    if j < 4 {
        if j == 0 { v.weight0.x } else if j == 1 { v.weight0.y } else if j == 2 {
            v.weight0.z
        } else {
            v.weight0.w
        }
    } else if j < 8 {
        if j == 4 { v.weight1.x } else if j == 5 { v.weight1.y } else if j == 6 {
            v.weight1.z
        } else {
            v.weight1.w
        }
    } else if j < 12 {
        if j == 8 { v.weight2.x } else if j == 9 { v.weight2.y } else if j == 10 {
            v.weight2.z
        } else {
            v.weight2.w
        }
    } else {
        if j == 12 { v.weight3.x } else if j == 13 { v.weight3.y } else if j == 14 {
            v.weight3.z
        } else {
            v.weight3.w
        }
    }
}

fn slot_joint_of(v: &GltfVertex, j: usize) -> (r: u32)
    requires
        j < 16,
    ensures
        r == slot_joint(*v, j as int),
{
    if j < 4 {
        if j == 0 { v.joint0.j0 as u32 } else if j == 1 { v.joint0.j1 as u32 } else if j == 2 {
            v.joint0.j2 as u32
        } else {
            v.joint0.j3 as u32
        }
    } else if j < 8 {
        if j == 4 { v.joint1.j0 as u32 } else if j == 5 { v.joint1.j1 as u32 } else if j == 6 {
            v.joint1.j2 as u32
        } else {
            v.joint1.j3 as u32
        }
    } else if j < 12 {
        if j == 8 { v.joint2.j0 as u32 } else if j == 9 { v.joint2.j1 as u32 } else if j == 10 {
            v.joint2.j2 as u32
        } else {
            v.joint2.j3 as u32
        }
    } else {
        if j == 12 { v.joint3.j0 as u32 } else if j == 13 { v.joint3.j1 as u32 } else if j == 14 {
            v.joint3.j2 as u32
        } else {
            v.joint3.j3 as u32
        }
    }
}

/// Consolidate one vertex's four joint/weight sets into a single
/// record: slots are copied in set order, the effective count is the
/// highest positively weighted slot plus one, and only slots below the
/// effective count are re-balanced by the raw weight sum.  A vertex
/// with no positive weight gets count zero and no division happens.
#[verifier::loop_isolation(false)]
fn consolidate_skinning(v: &GltfVertex) -> (r: SkinningData)
    ensures
        r.bone_count == spec_new_count(*v),
        r.weights@ == spec_skin_weights(*v),
        r.bone_ids@ == spec_skin_ids(*v),
{
    let count: usize = if v.influence_count as usize <= MAX_BONE_INFLUENCES {
        v.influence_count as usize
    } else {
        MAX_BONE_INFLUENCES
    };
    let mut sum: u32 = crate::fp::F32_POS_ZERO;
    let mut max_non_zero: Option<usize> = None;
    let mut raw_weights: Vec<u32> = Vec::new();
    let mut bone_ids: Vec<u32> = Vec::new();
    let mut j: usize = 0;
    while j < count
        invariant
            j <= count,
            count == spec_slot_count(*v),
            raw_weights@.len() == j,
            bone_ids@.len() == j,
            sum == spec_weight_sum(*v, j as int),
            forall|k: int| 0 <= k < j ==> raw_weights@[k] == slot_weight(*v, k),
            forall|k: int| 0 <= k < j ==> bone_ids@[k] == slot_joint(*v, k),
            match max_non_zero {
                Some(mx) => mx as int == spec_max_nonzero(*v, j as int),
                None => spec_max_nonzero(*v, j as int) == -1,
            },
        decreases count - j,
    {
        let w = slot_weight_of(v, j);
        raw_weights.push(w);
        bone_ids.push(slot_joint_of(v, j));
        if crate::fp::gt_zero_bits(w) {
            max_non_zero = Some(j);
        }
        sum = crate::fp::add_bits(sum, w);
        j = j + 1;
    }
    proof {
        lemma_max_nonzero(*v, count as int);
    }
    let bone_count: usize = match max_non_zero {
        Some(mx) => mx + 1,
        None => 0,
    };
    let mut weights: Vec<u32> = Vec::new();
    let mut k: usize = 0;
    while k < MAX_BONE_INFLUENCES
        invariant
            k <= MAX_BONE_INFLUENCES,
            count == spec_slot_count(*v),
            bone_count == spec_new_count(*v),
            bone_count <= count,
            sum == spec_weight_sum(*v, count as int),
            raw_weights@.len() == count,
            forall|q: int| 0 <= q < count ==> raw_weights@[q] == slot_weight(*v, q),
            weights@.len() == k,
            forall|q: int| 0 <= q < k ==> weights@[q] == spec_skin_weights(*v)[q],
        decreases MAX_BONE_INFLUENCES - k,
    {
        let w: u32 = if k < bone_count {
            crate::fp::div_bits(raw_weights[k], sum)
        } else if k < count {
            raw_weights[k]
        } else {
            crate::fp::F32_POS_ZERO
        };
        weights.push(w);
        k = k + 1;
    }
    let mut ids: Vec<u32> = Vec::new();
    let mut q: usize = 0;
    while q < MAX_BONE_INFLUENCES
        invariant
            q <= MAX_BONE_INFLUENCES,
            count == spec_slot_count(*v),
            bone_ids@.len() == count,
            forall|x: int| 0 <= x < count ==> bone_ids@[x] == slot_joint(*v, x),
            ids@.len() == q,
            forall|x: int| 0 <= x < q ==> ids@[x] == spec_skin_ids(*v)[x],
        decreases MAX_BONE_INFLUENCES - q,
    {
        let id: u32 = if q < count {
            bone_ids[q]
        } else {
            0
        };
        ids.push(id);
        q = q + 1;
    }
    proof {
        lemma_max_nonzero(*v, spec_slot_count(*v));
        assert(weights@ =~= spec_skin_weights(*v));
        assert(ids@ =~= spec_skin_ids(*v));
    }
    SkinningData { bone_count: bone_count as u32, weights, bone_ids: ids }
}

/// Assemble the engine-facing streams from the (flattened) global
/// buffers: one entry per vertex for every attribute, the index buffer
/// copied whole, and per-vertex skinning records exactly when the model
/// is animated.  A model with no vertices or no indices is a fatal
/// empty-mesh condition.  An unskinned vertex in an animated model is
/// reported as a diagnostic.
#[verifier::loop_isolation(false)]
#[verifier::rlimit(30)]
pub fn build_mesh_data(model: &mut GltfModel) -> (r: GltfResult<MeshData>)
    ensures
        final(model).nodes@ == old(model).nodes@,
        final(model).root_nodes@ == old(model).root_nodes@,
        final(model).linear_nodes@ == old(model).linear_nodes@,
        final(model).meshes@ == old(model).meshes@,
        final(model).textures@ == old(model).textures@,
        final(model).materials@ == old(model).materials@,
        final(model).skins@ == old(model).skins@,
        final(model).dimensions == old(model).dimensions,
        final(model).has_geometry == old(model).has_geometry,
        final(model).vertex_buffer@ == old(model).vertex_buffer@,
        final(model).index_buffer@ == old(model).index_buffer@,
        final(model).animations@ == old(model).animations@,
        old(model).diagnostics@.is_prefix_of(final(model).diagnostics@),
        model_wf(*old(model)) ==> model_wf(*final(model)),
        match r {
            Ok(md) => {
                &&& old(model).vertex_buffer@.len() > 0
                &&& old(model).index_buffer@.len() > 0
                &&& md.indices@ == old(model).index_buffer@
                &&& md.positions@ == Seq::new(
                    old(model).vertex_buffer@.len(),
                    |i: int| old(model).vertex_buffer@[i].position,
                )
                &&& md.normals@ == Seq::new(
                    old(model).vertex_buffer@.len(),
                    |i: int| old(model).vertex_buffer@[i].normal,
                )
                &&& md.tex_coords@ == Seq::new(
                    old(model).vertex_buffer@.len(),
                    |i: int| old(model).vertex_buffer@[i].uv0,
                )
                &&& md.tangents@ == Seq::new(
                    old(model).vertex_buffer@.len(),
                    |i: int| old(model).vertex_buffer@[i].tangent,
                )
                &&& md.bitangents@ == Seq::new(
                    old(model).vertex_buffer@.len(),
                    |i: int| old(model).vertex_buffer@[i].bitangent,
                )
                &&& md.colors@ == Seq::new(
                    old(model).vertex_buffer@.len(),
                    |i: int| old(model).vertex_buffer@[i].color0,
                )
                &&& (old(model).animations@.len() > 0 ==> (md.skinning_data@.len() == old(
                    model,
                ).vertex_buffer@.len() && (forall|i: int|
                    0 <= i < md.skinning_data@.len()
                        ==> ((#[trigger] md.skinning_data@[i]).bone_count == spec_new_count(
                        old(model).vertex_buffer@[i],
                    ) && md.skinning_data@[i].weights@ == spec_skin_weights(
                        old(model).vertex_buffer@[i],
                    ) && md.skinning_data@[i].bone_ids@ == spec_skin_ids(
                        old(model).vertex_buffer@[i],
                    )))))
                &&& (old(model).animations@.len() == 0 ==> md.skinning_data@.len() == 0)
            },
            Err(e) => {
                &&& e == GltfError::EmptyMesh
                &&& (old(model).vertex_buffer@.len() == 0 || old(model).index_buffer@.len()
                    == 0)
            },
        },
{
    let has_animations = model.animations.len() > 0;
    let mut mesh_data = MeshData::new_empty();
    let mut idx: usize = 0;
    proof {
        assert(old(model).diagnostics@.is_prefix_of(model.diagnostics@)) by {
            assert(old(model).diagnostics@ =~= model.diagnostics@.subrange(
                0,
                old(model).diagnostics@.len() as int,
            ));
        }
    }
    while idx < model.index_buffer.len()
        invariant
            idx <= model.index_buffer@.len(),
            mesh_data.indices@.len() == idx,
            forall|k: int| 0 <= k < idx ==> mesh_data.indices@[k] == model.index_buffer@[k],
            mesh_data.positions@.len() == 0,
            mesh_data.normals@.len() == 0,
            mesh_data.tex_coords@.len() == 0,
            mesh_data.tangents@.len() == 0,
            mesh_data.bitangents@.len() == 0,
            mesh_data.colors@.len() == 0,
            mesh_data.skinning_data@.len() == 0,
            *model == *old(model),
        decreases model.index_buffer@.len() - idx,
    {
        let e = model.index_buffer[idx];
        mesh_data.indices.push(e);
        idx = idx + 1;
    }
    proof {
        assert(mesh_data.indices@ =~= model.index_buffer@);
    }
    let n = model.vertex_buffer.len();
    let mut i: usize = 0;
    while i < n
        invariant
            i <= n,
            n == old(model).vertex_buffer@.len(),
            has_animations == (old(model).animations@.len() > 0),
            mesh_data.indices@ == old(model).index_buffer@,
            mesh_data.positions@.len() == i,
            mesh_data.normals@.len() == i,
            mesh_data.tex_coords@.len() == i,
            mesh_data.tangents@.len() == i,
            mesh_data.bitangents@.len() == i,
            mesh_data.colors@.len() == i,
            forall|k: int|
                0 <= k < i ==> mesh_data.positions@[k] == old(model).vertex_buffer@[k].position,
            forall|k: int|
                0 <= k < i ==> mesh_data.normals@[k] == old(model).vertex_buffer@[k].normal,
            forall|k: int|
                0 <= k < i ==> mesh_data.tex_coords@[k] == old(model).vertex_buffer@[k].uv0,
            forall|k: int|
                0 <= k < i ==> mesh_data.tangents@[k] == old(model).vertex_buffer@[k].tangent,
            forall|k: int|
                0 <= k < i ==> mesh_data.bitangents@[k] == old(
                    model,
                ).vertex_buffer@[k].bitangent,
            forall|k: int|
                0 <= k < i ==> mesh_data.colors@[k] == old(model).vertex_buffer@[k].color0,
            mesh_data.skinning_data@.len() == (if has_animations {
                i as int
            } else {
                0
            }),
            forall|k: int|
                0 <= k < mesh_data.skinning_data@.len()
                    ==> ((#[trigger] mesh_data.skinning_data@[k]).bone_count == spec_new_count(
                    old(model).vertex_buffer@[k],
                ) && mesh_data.skinning_data@[k].weights@ == spec_skin_weights(
                    old(model).vertex_buffer@[k],
                ) && mesh_data.skinning_data@[k].bone_ids@ == spec_skin_ids(
                    old(model).vertex_buffer@[k],
                )),
            model.nodes@ == old(model).nodes@,
            model.root_nodes@ == old(model).root_nodes@,
            model.linear_nodes@ == old(model).linear_nodes@,
            model.meshes@ == old(model).meshes@,
            model.textures@ == old(model).textures@,
            model.materials@ == old(model).materials@,
            model.skins@ == old(model).skins@,
            model.dimensions == old(model).dimensions,
            model.has_geometry == old(model).has_geometry,
            model.vertex_buffer@ == old(model).vertex_buffer@,
            model.index_buffer@ == old(model).index_buffer@,
            model.animations@ == old(model).animations@,
            old(model).diagnostics@.is_prefix_of(model.diagnostics@),
        decreases n - i,
    {
        let vertex = &model.vertex_buffer[i];
        mesh_data.positions.push(vertex.position);
        mesh_data.tex_coords.push(vertex.uv0);
        mesh_data.normals.push(vertex.normal);
        mesh_data.tangents.push(vertex.tangent);
        mesh_data.bitangents.push(vertex.bitangent);
        mesh_data.colors.push(vertex.color0);
        if has_animations {
            let skinning = consolidate_skinning(vertex);
            let unskinned = skinning.bone_count == 0;
            mesh_data.skinning_data.push(skinning);
            if unskinned {
                let ghost pre = model.diagnostics@;
                model.diagnostics.push(
                    GltfDiagnostic::UnskinnedVertexInAnimatedModel { vertex_index: i },
                );
                proof {
                    assert(pre.is_prefix_of(model.diagnostics@)) by {
                        assert(pre =~= model.diagnostics@.subrange(0, pre.len() as int));
                    }
                    crate::model::lemma_prefix_trans(
                        old(model).diagnostics@,
                        pre,
                        model.diagnostics@,
                    );
                }
            }
        }
        i = i + 1;
    }
    if mesh_data.positions.len() == 0 || mesh_data.indices.len() == 0 {
        return Err(GltfError::EmptyMesh);
    }
    proof {
        assert(mesh_data.positions@ =~= Seq::new(
            old(model).vertex_buffer@.len(),
            |i: int| old(model).vertex_buffer@[i].position,
        ));
        assert(mesh_data.normals@ =~= Seq::new(
            old(model).vertex_buffer@.len(),
            |i: int| old(model).vertex_buffer@[i].normal,
        ));
        assert(mesh_data.tex_coords@ =~= Seq::new(
            old(model).vertex_buffer@.len(),
            |i: int| old(model).vertex_buffer@[i].uv0,
        ));
        assert(mesh_data.tangents@ =~= Seq::new(
            old(model).vertex_buffer@.len(),
            |i: int| old(model).vertex_buffer@[i].tangent,
        ));
        assert(mesh_data.bitangents@ =~= Seq::new(
            old(model).vertex_buffer@.len(),
            |i: int| old(model).vertex_buffer@[i].bitangent,
        ));
        assert(mesh_data.colors@ =~= Seq::new(
            old(model).vertex_buffer@.len(),
            |i: int| old(model).vertex_buffer@[i].color0,
        ));
    }
    Ok(mesh_data)
}

/// The whole export assembly: bake the world transforms into the
/// shared vertices when the model has no animations, record one part
/// per node+primitive pair with the per-node part map, and assemble the
/// engine-facing streams.  A model that flattens to no vertices or no
/// indices is a fatal empty-mesh condition.
pub fn load_model(model: &mut GltfModel) -> (r: GltfResult<
    (MeshData, Vec<MeshAssetPart>, Vec<(String, Vec<u32>)>),
>)
    requires
        model_wf(*old(model)),
    ensures
        model_wf(*final(model)),
        final(model).nodes@ == old(model).nodes@,
        final(model).linear_nodes@ == old(model).linear_nodes@,
        final(model).meshes@ == old(model).meshes@,
        final(model).animations@ == old(model).animations@,
        final(model).index_buffer@ == old(model).index_buffer@,
        final(model).vertex_buffer@.len() == old(model).vertex_buffer@.len(),
        old(model).animations@.len() > 0 ==> final(model).vertex_buffer@ == old(
            model,
        ).vertex_buffer@,
        old(model).animations@.len() == 0 ==> (forall|v: int|
            #![trigger old(model).vertex_buffer@[v]]
            0 <= v < old(model).vertex_buffer@.len() ==> (match first_toucher(
                *old(model),
                old(model).linear_nodes@.len() as int,
                v,
            ) {
                Some(a) => final(model).vertex_buffer@[v] == spec_transformed_vertex(
                    old(model).vertex_buffer@[v],
                    spec_world_matrix(old(model).nodes@, a as int),
                ) && (chain_trs_identity(old(model).nodes@, a as int) && v3_plain(
                    old(model).vertex_buffer@[v].position,
                ) ==> final(model).vertex_buffer@[v].position == old(
                    model,
                ).vertex_buffer@[v].position),
                None => final(model).vertex_buffer@[v] == old(model).vertex_buffer@[v],
            })),
        match r {
            Ok((md, parts, part_map)) => {
                &&& old(model).vertex_buffer@.len() > 0
                &&& old(model).index_buffer@.len() > 0
                &&& parts@ == spec_parts_upto(
                    *final(model),
                    final(model).linear_nodes@.len() as int,
                )
                &&& part_map@.len() == spec_part_map_upto(
                    *final(model),
                    final(model).linear_nodes@.len() as int,
                ).len()
                &&& forall|j: int|
                    0 <= j < part_map@.len() ==> (#[trigger] part_map@[j]).0@
                        == spec_part_map_upto(
                        *final(model),
                        final(model).linear_nodes@.len() as int,
                    )[j].0 && part_map@[j].1@ == spec_part_map_upto(
                        *final(model),
                        final(model).linear_nodes@.len() as int,
                    )[j].1
                &&& md.indices@ == final(model).index_buffer@
                &&& md.positions@ == Seq::new(
                    final(model).vertex_buffer@.len(),
                    |i: int| final(model).vertex_buffer@[i].position,
                )
                &&& md.normals@ == Seq::new(
                    final(model).vertex_buffer@.len(),
                    |i: int| final(model).vertex_buffer@[i].normal,
                )
                &&& md.tex_coords@ == Seq::new(
                    final(model).vertex_buffer@.len(),
                    |i: int| final(model).vertex_buffer@[i].uv0,
                )
                &&& md.tangents@ == Seq::new(
                    final(model).vertex_buffer@.len(),
                    |i: int| final(model).vertex_buffer@[i].tangent,
                )
                &&& md.bitangents@ == Seq::new(
                    final(model).vertex_buffer@.len(),
                    |i: int| final(model).vertex_buffer@[i].bitangent,
                )
                &&& md.colors@ == Seq::new(
                    final(model).vertex_buffer@.len(),
                    |i: int| final(model).vertex_buffer@[i].color0,
                )
                &&& (final(model).animations@.len() > 0 ==> (md.skinning_data@.len()
                    == final(model).vertex_buffer@.len() && (forall|i: int|
                    0 <= i < md.skinning_data@.len()
                        ==> ((#[trigger] md.skinning_data@[i]).bone_count == spec_new_count(
                        final(model).vertex_buffer@[i],
                    ) && md.skinning_data@[i].weights@ == spec_skin_weights(
                        final(model).vertex_buffer@[i],
                    ) && md.skinning_data@[i].bone_ids@ == spec_skin_ids(
                        final(model).vertex_buffer@[i],
                    )))))
                &&& (final(model).animations@.len() == 0 ==> md.skinning_data@.len() == 0)
            },
            Err(e) => {
                &&& e == GltfError::EmptyMesh
                &&& (old(model).vertex_buffer@.len() == 0 || old(model).index_buffer@.len()
                    == 0)
            },
        },
{
    let has_animations = model.animations.len() > 0;
    let flatten_transforms_wanted = !has_animations;
    if flatten_transforms_wanted {
        flatten_transforms(model);
    }
    let ghost m1 = *model;
    let md_result = build_mesh_data(model);
    let (parts, part_map) = build_parts(model);
    match md_result {
        Ok(md) => {
            proof {
                assert(Seq::new(
                    model.vertex_buffer@.len(),
                    |i: int| model.vertex_buffer@[i].position,
                ) =~= Seq::new(m1.vertex_buffer@.len(), |i: int| m1.vertex_buffer@[i].position));
                assert(Seq::new(
                    model.vertex_buffer@.len(),
                    |i: int| model.vertex_buffer@[i].normal,
                ) =~= Seq::new(m1.vertex_buffer@.len(), |i: int| m1.vertex_buffer@[i].normal));
                assert(Seq::new(
                    model.vertex_buffer@.len(),
                    |i: int| model.vertex_buffer@[i].uv0,
                ) =~= Seq::new(m1.vertex_buffer@.len(), |i: int| m1.vertex_buffer@[i].uv0));
                assert(Seq::new(
                    model.vertex_buffer@.len(),
                    |i: int| model.vertex_buffer@[i].tangent,
                ) =~= Seq::new(m1.vertex_buffer@.len(), |i: int| m1.vertex_buffer@[i].tangent));
                assert(Seq::new(
                    model.vertex_buffer@.len(),
                    |i: int| model.vertex_buffer@[i].bitangent,
                ) =~= Seq::new(
                    m1.vertex_buffer@.len(),
                    |i: int| m1.vertex_buffer@[i].bitangent,
                ));
                assert(Seq::new(
                    model.vertex_buffer@.len(),
                    |i: int| model.vertex_buffer@[i].color0,
                ) =~= Seq::new(m1.vertex_buffer@.len(), |i: int| m1.vertex_buffer@[i].color0));
            }
            Ok((md, parts, part_map))
        },
        Err(e) => Err(e),
    }
}

} // verus!
