//! Nodes of the scene graph.
//!
//! A node lives in the model's arena; its parent and children are plain
//! arena indices.  A parent is always allocated before its children, so
//! every parent index is strictly smaller than the child's own index:
//! that makes the parent chain provably acyclic.

use vstd::prelude::*;
use crate::{GltfIndex, GltfError, GltfResult, GltfOptions};
use crate::desc::DocumentDesc;
use crate::math::{Vector3, Vector4, Quaternion, Matrix4, mat4_identity, spec_mat4_mul,
    spec_new_translation, spec_new_nonuniform_scaling, spec_quat_to_homogeneous,
    spec_quat_normalize, quat_identity};
use crate::fp::{F32_POS_ZERO, F32_ONE};
use crate::mesh::{GltfMesh, meshes_from_doc, mesh_from_doc, mesh_static_error};
use crate::primitive::spec_uv_fallback;
use crate::model::{GltfModel, model_wf, model_grown, lemma_model_grown_trans,
    lemma_model_wf_extended};

verus! {

/// A resolved scene-graph node.
pub struct GltfNode {
    /// The node's source index.
    pub node_index: GltfIndex,
    /// Global joint index, set only when a skin references the node.
    pub joint_index: Option<GltfIndex>,
    /// Arena index of the parent; roots have none.
    pub parent: Option<usize>,
    /// Arena indices of the children.
    pub children: Vec<usize>,
    pub name: Option<String>,
    /// Handle into the model's mesh arena.
    pub mesh: Option<usize>,
    /// Source index of the skin assigned to the node.
    pub skin_index: Option<usize>,
    pub translation: Vector3,
    pub scale: Vector3,
    /// Unit rotation, already remapped from the source component order.
    pub rotation: Quaternion,
}

/// The local matrix: translation times rotation times scale, with the
/// translation outermost.
pub open spec fn spec_local_matrix(n: GltfNode) -> Matrix4 {
    spec_mat4_mul(
        spec_mat4_mul(spec_new_translation(n.translation), spec_quat_to_homogeneous(n.rotation)),
        spec_new_nonuniform_scaling(n.scale),
    )
}

/// The node's stored transform is exactly the identity: zero
/// translation, identity rotation, unit scale.
pub open spec fn node_trs_identity(n: GltfNode) -> bool {
    &&& n.translation == (Vector3 { x: F32_POS_ZERO, y: F32_POS_ZERO, z: F32_POS_ZERO })
    &&& n.rotation == quat_identity()
    &&& n.scale == (Vector3 { x: F32_ONE, y: F32_ONE, z: F32_ONE })
}

/// Parent indices point below the node's own arena slot, and children
/// indices stay inside the arena: the well-formedness that makes the
/// parent chain terminate.
pub open spec fn nodes_wf(nodes: Seq<GltfNode>) -> bool {
    forall|i: int| #![trigger nodes[i]]
        0 <= i < nodes.len() ==> (nodes[i].parent matches Some(p) ==> p < i)
}

/// The locals of the root-to-node path, root first.
pub open spec fn spec_path_locals(nodes: Seq<GltfNode>, i: int) -> Seq<Matrix4>
    decreases i,
{
    if 0 <= i < nodes.len() && nodes_wf(nodes) {
        match nodes[i].parent {
            Some(p) => spec_path_locals(nodes, p as int).push(spec_local_matrix(nodes[i])),
            None => seq![spec_local_matrix(nodes[i])],
        }
    } else {
        seq![]
    }
}

/// The product of a sequence of matrices, grouped from the right: the
/// first element is applied last, `m_0 * (m_1 * (... * m_k))`.
pub open spec fn spec_chain_product(s: Seq<Matrix4>) -> Matrix4
    decreases s.len(),
{
    if s.len() == 0 {
        mat4_identity()
    } else if s.len() == 1 {
        s[0]
    } else {
        spec_mat4_mul(s[0], spec_chain_product(s.drop_first()))
    }
}

/// The world matrix: the chain product of the locals along the unique
/// root-to-node path.
pub open spec fn spec_world_matrix(nodes: Seq<GltfNode>, i: int) -> Matrix4 {
    spec_chain_product(spec_path_locals(nodes, i))
}

/// The world matrix reached by walking up from `j` with the partial
/// product `acc` in hand: each step multiplies the parent's local
/// matrix on the left.
pub open spec fn spec_world_from(nodes: Seq<GltfNode>, j: Option<usize>, acc: Matrix4) -> Matrix4
    decreases (match j {
        Some(p) => p + 1,
        None => 0,
    }),
{
    match j {
        Some(p) => if 0 <= p < nodes.len() && nodes_wf(nodes) {
            spec_world_from(nodes, nodes[p as int].parent, spec_mat4_mul(spec_local_matrix(nodes[p as int]), acc))
        } else {
            acc
        },
        None => acc,
    }
}

/// Every node on the root-to-node path stores the identity transform.
pub open spec fn chain_trs_identity(nodes: Seq<GltfNode>, i: int) -> bool
    decreases i,
{
    if 0 <= i < nodes.len() && nodes_wf(nodes) {
        node_trs_identity(nodes[i]) && (match nodes[i].parent {
            Some(p) => chain_trs_identity(nodes, p as int),
            None => true,
        })
    } else {
        false
    }
}

/// Walking up from `j` with the chain product of `s` in hand yields the
/// chain product of the path to `j` followed by `s`.
proof fn lemma_world_from_chain(nodes: Seq<GltfNode>, j: int, s: Seq<Matrix4>)
    requires
        nodes_wf(nodes),
        0 <= j < nodes.len(),
        j <= usize::MAX,
        s.len() >= 1,
    ensures
        spec_world_from(nodes, Some(j as usize), spec_chain_product(s)) == spec_chain_product(
            spec_path_locals(nodes, j) + s,
        ),
    decreases j,
{
    let lj = spec_local_matrix(nodes[j]);
    assert(spec_chain_product(seq![lj] + s) == spec_mat4_mul(lj, spec_chain_product(s))) by {
        assert((seq![lj] + s).drop_first() =~= s);
        assert((seq![lj] + s).len() >= 2);
        assert((seq![lj] + s)[0] == lj);
    }
    assert(spec_world_from(nodes, Some(j as usize), spec_chain_product(s)) == spec_world_from(
        nodes,
        nodes[j].parent,
        spec_mat4_mul(lj, spec_chain_product(s)),
    ));
    match nodes[j].parent {
        Some(p) => {
            lemma_world_from_chain(nodes, p as int, seq![lj] + s);
            assert(spec_path_locals(nodes, p as int) + (seq![lj] + s) =~= (spec_path_locals(
                nodes,
                p as int,
            ).push(lj)) + s);
            assert(spec_path_locals(nodes, j) =~= spec_path_locals(nodes, p as int).push(lj));
        },
        None => {
            assert(spec_path_locals(nodes, j) =~= seq![lj]);
            assert(spec_path_locals(nodes, j) + s =~= seq![lj] + s);
        },
    }
}

/// The world matrix is the chain product of the local matrices along
/// the unique root-to-node path, the root's local matrix applied first:
/// `world(N) = local(root) * (local(child) * (... * local(N)))`.  The
/// path of a root is its own local matrix alone; each deeper node
/// appends its local matrix to its parent's path.
pub proof fn lemma_world_matrix_is_path_product(nodes: Seq<GltfNode>, i: int)
    requires
        nodes_wf(nodes),
        0 <= i < nodes.len(),
    ensures
        spec_world_matrix(nodes, i) == spec_chain_product(spec_path_locals(nodes, i)),
        nodes[i].parent matches Some(p) ==> spec_path_locals(nodes, i) == spec_path_locals(
            nodes,
            p as int,
        ).push(spec_local_matrix(nodes[i])),
        nodes[i].parent is None ==> spec_path_locals(nodes, i) == seq![
            spec_local_matrix(nodes[i]),
        ],
{
}

impl GltfNode {
    /// Translation times rotation times scale, in that fixed order.
    /// When the stored transform is the identity the result is exactly
    /// the identity matrix.
    pub fn local_matrix(&self) -> (r: Matrix4)
        ensures
            r == spec_local_matrix(*self),
            node_trs_identity(*self) ==> r == mat4_identity(),
    {
        let translation = Matrix4::new_translation(&self.translation);
        let rotation = self.rotation.to_homogeneous();
        let scale = Matrix4::new_nonuniform_scaling(&self.scale);
        translation.matmul(&rotation).matmul(&scale)
    }

    /// The node's world matrix: the local matrices along the parent
    /// chain, composed root first.  A chain of identity transforms
    /// yields exactly the identity matrix.
    pub fn get_matrix(nodes: &Vec<GltfNode>, i: usize) -> (r: Matrix4)
        requires
            nodes_wf(nodes@),
            i < nodes@.len(),
        ensures
            r == spec_world_matrix(nodes@, i as int),
            chain_trs_identity(nodes@, i as int) ==> r == mat4_identity(),
    {
        let mut current: Matrix4 = nodes[i].local_matrix();
        let mut j: Option<usize> = nodes[i].parent;
        proof {
            lemma_world_matrix_is_path_product(nodes@, i as int);
            let li = spec_local_matrix(nodes@[i as int]);
            assert(spec_chain_product(seq![li]) == li);
            match nodes@[i as int].parent {
                Some(p) => {
                    lemma_world_from_chain(nodes@, p as int, seq![li]);
                    assert(spec_path_locals(nodes@, p as int) + seq![li] =~= spec_path_locals(
                        nodes@,
                        p as int,
                    ).push(li));
                },
                None => {},
            }
        }
        assert(spec_world_from(nodes@, j, current) == spec_world_matrix(nodes@, i as int));
        while j.is_some()
            invariant
                nodes_wf(nodes@),
                match j {
                    Some(p) => p < nodes@.len(),
                    None => true,
                },
                spec_world_from(nodes@, j, current) == spec_world_matrix(nodes@, i as int),
                chain_trs_identity(nodes@, i as int) ==> (current == mat4_identity() && (
                match j {
                    Some(p) => chain_trs_identity(nodes@, p as int),
                    None => true,
                })),
            decreases (match j {
                Some(p) => p + 1int,
                None => 0int,
            }),
        {
            let p: usize = j.unwrap();
            let local = nodes[p].local_matrix();
            current = local.matmul(&current);
            j = nodes[p].parent;
        }
        current
    }
}

/// The source quaternion, component order `[x, y, z, w]`, remapped to
/// `w, x, y, z` and normalized to a unit quaternion.
pub open spec fn spec_node_rotation(v: Vector4) -> Quaternion {
    spec_quat_normalize(Quaternion { w: v.w, x: v.x, y: v.y, z: v.z })
}

/// The mesh-arena position holding the mesh of the given source index,
/// if one was already built: the cache lookup of the mesh cache.
fn find_mesh_by_source(meshes: &Vec<GltfMesh>, src: GltfIndex) -> (r: Option<usize>)
    ensures
        match r {
            Some(h) => h < meshes@.len() && meshes@[h as int].index == src,
            None => forall|k: int| 0 <= k < meshes@.len() ==> (#[trigger] meshes@[k]).index != src,
        },
{
    let mut k: usize = 0;
    while k < meshes.len()
        invariant
            k <= meshes@.len(),
            forall|j: int| 0 <= j < k ==> (#[trigger] meshes@[j]).index != src,
        decreases meshes@.len() - k,
    {
        if meshes[k].index == src {
            return Some(k);
        }
        k = k + 1;
    }
    None
}

/// A resolved node carries its source node's data: the decomposed
/// transform with the rotation remapped and normalized, the name, the
/// skin assignment, and a mesh handle exactly when the source names a
/// mesh, pointing at the mesh built for that source index.
pub open spec fn node_from_doc(n: GltfNode, meshes: Seq<GltfMesh>, doc: DocumentDesc) -> bool {
    &&& n.node_index < doc.nodes@.len()
    &&& n.name == doc.nodes@[n.node_index as int].name
    &&& n.translation == doc.nodes@[n.node_index as int].translation
    &&& n.scale == doc.nodes@[n.node_index as int].scale
    &&& n.rotation == spec_node_rotation(doc.nodes@[n.node_index as int].rotation_xyzw)
    &&& n.skin_index == doc.nodes@[n.node_index as int].skin
    &&& n.joint_index is None
    &&& (match doc.nodes@[n.node_index as int].mesh {
        Some(src) => n.mesh matches Some(h) && h < meshes.len() && meshes[h as int].index == src,
        None => n.mesh is None,
    })
}

/// Every node of the arena carries its source node's data.
pub open spec fn nodes_from_doc(
    nodes: Seq<GltfNode>,
    meshes: Seq<GltfMesh>,
    doc: DocumentDesc,
) -> bool {
    forall|i: int| 0 <= i < nodes.len() ==> node_from_doc(#[trigger] nodes[i], meshes, doc)
}

/// Every fatal outcome node resolution can raise: a dangling or cyclic
/// reference, a buffer past the index space, or a fatal condition of
/// some referenced mesh's primitive descriptions.
pub open spec fn resolve_error_ok(e: GltfError, doc: DocumentDesc) -> bool {
    ||| e == GltfError::InvalidReference
    ||| e == GltfError::CapacityExceeded
    ||| exists|mi: int|
        0 <= mi < doc.meshes@.len() && mesh_static_error(
            (#[trigger] doc.meshes@[mi]).primitives@,
            mi as GltfIndex,
            doc.meshes@[mi].primitives@.len() as int,
        ) == Some(e)
}

/// The node at `a` is a completely resolved image of its source node:
/// its own data is the source node's, it holds one child per source
/// child in order, and each child names this slot as its parent and is
/// itself a completely resolved image of that source child.
pub open spec fn subtree_resolved(
    doc: DocumentDesc,
    nodes: Seq<GltfNode>,
    meshes: Seq<GltfMesh>,
    a: int,
) -> bool
    decreases nodes.len() - a,
{
    if 0 <= a < nodes.len() {
        &&& node_from_doc(nodes[a], meshes, doc)
        &&& nodes[a].children@.len() == doc.nodes@[nodes[a].node_index as int].children@.len()
        &&& forall|k: int|
            0 <= k < nodes[a].children@.len() ==> ({
                let c = #[trigger] nodes[a].children@[k] as int;
                if a < c < nodes.len() {
                    &&& nodes[c].parent == Some(a as usize)
                    &&& nodes[c].node_index == doc.nodes@[nodes[a].node_index as int].children@[k]
                    &&& subtree_resolved(doc, nodes, meshes, c)
                } else {
                    false
                }
            })
    } else {
        false
    }
}

/// A resolved subtree stays resolved while the arena only changes
/// below it or grows past it.
pub proof fn lemma_subtree_resolved_stable(
    doc: DocumentDesc,
    nodes1: Seq<GltfNode>,
    meshes1: Seq<GltfMesh>,
    nodes2: Seq<GltfNode>,
    meshes2: Seq<GltfMesh>,
    a: int,
)
    requires
        subtree_resolved(doc, nodes1, meshes1, a),
        nodes1.len() <= nodes2.len(),
        forall|i: int| a <= i < nodes1.len() ==> #[trigger] nodes2[i] == nodes1[i],
        meshes1.is_prefix_of(meshes2),
    ensures
        subtree_resolved(doc, nodes2, meshes2, a),
    decreases nodes1.len() - a,
{
    assert(nodes2[a] == nodes1[a]);
    assert(node_from_doc(nodes2[a], meshes2, doc)) by {
        match doc.nodes@[nodes1[a].node_index as int].mesh {
            Some(_) => {
                let h = nodes1[a].mesh->0 as int;
                assert(meshes2[h] == meshes1[h]);
            },
            None => {},
        }
    }
    assert forall|k: int| 0 <= k < nodes2[a].children@.len() implies ({
        let c = #[trigger] nodes2[a].children@[k] as int;
        if a < c < nodes2.len() {
            &&& nodes2[c].parent == Some(a as usize)
            &&& nodes2[c].node_index == doc.nodes@[nodes2[a].node_index as int].children@[k]
            &&& subtree_resolved(doc, nodes2, meshes2, c)
        } else {
            false
        }
    }) by {
        let c = nodes1[a].children@[k] as int;
        assert(a < c < nodes1.len());
        assert(nodes2[c] == nodes1[c]);
        lemma_subtree_resolved_stable(doc, nodes1, meshes1, nodes2, meshes2, c);
    }
}

/// What a resolved node promises about its slot in the final arena.
pub open spec fn resolved_node_ok(
    doc: DocumentDesc,
    m: GltfModel,
    a: int,
    node_index: GltfIndex,
    parent: Option<usize>,
) -> bool {
    &&& 0 <= a < m.nodes@.len()
    &&& node_index < doc.nodes@.len()
    &&& m.nodes@[a].node_index == node_index
    &&& m.nodes@[a].parent == parent
    &&& m.nodes@[a].name == doc.nodes@[node_index as int].name
    &&& m.nodes@[a].translation == doc.nodes@[node_index as int].translation
    &&& m.nodes@[a].scale == doc.nodes@[node_index as int].scale
    &&& m.nodes@[a].rotation == spec_node_rotation(doc.nodes@[node_index as int].rotation_xyzw)
    &&& m.nodes@[a].skin_index == doc.nodes@[node_index as int].skin
    &&& m.nodes@[a].joint_index is None
    &&& (match doc.nodes@[node_index as int].mesh {
        Some(src) => m.nodes@[a].mesh matches Some(h) && h < m.meshes@.len() && m.meshes@[
            h as int
        ].index == src,
        None => m.nodes@[a].mesh is None,
    })
}

fn resolve_node(
    parent: Option<usize>,
    node_index: GltfIndex,
    doc: &DocumentDesc,
    model: &mut GltfModel,
    options: &GltfOptions,
    budget: usize,
) -> (r: GltfResult<usize>)
    requires
        model_wf(*old(model)),
        meshes_from_doc(
            old(model).meshes@,
            *doc,
            spec_uv_fallback(*options),
            options.flip_v_coord,
            options.regenerate_tangents,
        ),
        nodes_from_doc(old(model).nodes@, old(model).meshes@, *doc),
        match parent {
            Some(p) => p < old(model).nodes@.len(),
            None => true,
        },
    ensures
        model_grown(*old(model), *final(model)),
        model_wf(*final(model)),
        meshes_from_doc(
            final(model).meshes@,
            *doc,
            spec_uv_fallback(*options),
            options.flip_v_coord,
            options.regenerate_tangents,
        ),
        nodes_from_doc(final(model).nodes@, final(model).meshes@, *doc),
        // The mesh cache is consulted before any build: a node that
        // references no mesh and has no children leaves the arena
        // untouched, and growth never duplicates an index already
        // cached.
        (node_index < doc.nodes@.len() && doc.nodes@[node_index as int].mesh is None
            && doc.nodes@[node_index as int].children@.len() == 0) ==> final(model).meshes@
            == old(model).meshes@,
        forall|h: int|
            old(model).meshes@.len() <= h < final(model).meshes@.len() ==> (forall|h2: int|
                0 <= h2 < old(model).meshes@.len() ==> (#[trigger] final(model).meshes@[h]).index
                    != (#[trigger] final(model).meshes@[h2]).index),
        match r {
            Ok(a) => {
                &&& old(model).nodes@.len() <= a < final(model).nodes@.len()
                &&& resolved_node_ok(*doc, *final(model), a as int, node_index, parent)
                &&& subtree_resolved(
                    *doc,
                    final(model).nodes@,
                    final(model).meshes@,
                    a as int,
                )
            },
            Err(e) => resolve_error_ok(e, *doc),
        },
    decreases budget,
{
    let ghost m0 = *model;
    if budget == 0 {
        // A root-to-leaf path longer than the whole document means the
        // child graph is not a forest.
        return Err(GltfError::InvalidReference);
    }
    if node_index >= doc.nodes.len() {
        return Err(GltfError::InvalidReference);
    }
    let node_ref = &doc.nodes[node_index];
    let raw = Quaternion::new(
        node_ref.rotation_xyzw.w,
        node_ref.rotation_xyzw.x,
        node_ref.rotation_xyzw.y,
        node_ref.rotation_xyzw.z,
    );
    let rotation = raw.normalize();
    let mut mesh: Option<usize> = None;
    match node_ref.mesh {
        Some(mesh_src) => {
            if mesh_src >= doc.meshes.len() {
                return Err(GltfError::InvalidReference);
            }
            match find_mesh_by_source(&model.meshes, mesh_src) {
                Some(h) => {
                    mesh = Some(h);
                },
                None => {
                    let ghost m_pre = *model;
                    let built = GltfMesh::from_gltf(
                        &doc.meshes[mesh_src],
                        mesh_src,
                        model,
                        options,
                    );
                    proof {
                        lemma_model_wf_extended(m_pre, *model);
                    }
                    match built {
                        Ok(built_mesh) => {
                            let h = model.meshes.len();
                            model.meshes.push(built_mesh);
                            proof {
                                assert(m_pre.meshes@.is_prefix_of(model.meshes@)) by {
                                    assert(m_pre.meshes@ =~= model.meshes@.subrange(
                                        0,
                                        m_pre.meshes@.len() as int,
                                    ));
                                }
                                assert(nodes_from_doc(model.nodes@, model.meshes@, *doc)) by {
                                    assert forall|i: int|
                                        0 <= i < model.nodes@.len() implies node_from_doc(
                                        #[trigger] model.nodes@[i],
                                        model.meshes@,
                                        *doc,
                                    ) by {
                                        assert(node_from_doc(
                                            m_pre.nodes@[i],
                                            m_pre.meshes@,
                                            *doc,
                                        ));
                                        match doc.nodes@[model.nodes@[i].node_index as int].mesh {
                                            Some(_) => {
                                                let hh = model.nodes@[i].mesh->0 as int;
                                                assert(model.meshes@[hh] == m_pre.meshes@[hh]);
                                            },
                                            None => {},
                                        }
                                    }
                                }
                                assert(meshes_from_doc(
                                    model.meshes@,
                                    *doc,
                                    spec_uv_fallback(*options),
                                    options.flip_v_coord,
                                    options.regenerate_tangents,
                                )) by {
                                    assert forall|hh: int|
                                        0 <= hh < model.meshes@.len() implies mesh_from_doc(
                                        #[trigger] model.meshes@[hh],
                                        *doc,
                                        spec_uv_fallback(*options),
                                        options.flip_v_coord,
                                        options.regenerate_tangents,
                                    ) by {
                                        if hh < model.meshes@.len() - 1 {
                                            assert(model.meshes@[hh] == m_pre.meshes@[hh]);
                                        } else {
                                            assert(model.meshes@[hh].index == mesh_src);
                                        }
                                    }
                                }
                                assert(model_wf(*model)) by {
                                    assert forall|hh: int|
                                        0 <= hh < model.meshes@.len() implies crate::model::mesh_ranges_wf(
                                        #[trigger] model.meshes@[hh],
                                        *model,
                                    ) by {
                                        if hh < model.meshes@.len() - 1 {
                                            assert(crate::model::mesh_ranges_wf(
                                                model.meshes@[hh],
                                                m_pre,
                                            ));
                                        }
                                    }
                                }
                            }
                            mesh = Some(h);
                        },
                        Err(e) => {
                            proof {
                                if e != GltfError::CapacityExceeded {
                                    assert(mesh_static_error(
                                        doc.meshes@[mesh_src as int].primitives@,
                                        mesh_src,
                                        doc.meshes@[mesh_src as int].primitives@.len() as int,
                                    ) == Some(e));
                                    assert(resolve_error_ok(e, *doc));
                                }
                            }
                            return Err(e);
                        },
                    }
                },
            }
        },
        None => {},
    }
    let ghost m_meshed = *model;
    let my_idx = model.nodes.len();
    let name: Option<String> = match &node_ref.name {
        Some(n) => Some(n.clone()),
        None => None,
    };
    let placeholder = GltfNode {
        node_index,
        joint_index: None,
        parent,
        children: Vec::new(),
        name,
        mesh,
        skin_index: node_ref.skin,
        translation: node_ref.translation,
        scale: node_ref.scale,
        rotation,
    };
    model.nodes.push(placeholder);
    proof {
        assert(m_meshed.nodes@.is_prefix_of(model.nodes@)) by {
            assert(m_meshed.nodes@ =~= model.nodes@.subrange(0, m_meshed.nodes@.len() as int));
        }
        assert(model_grown(m0, *model));
        assert(nodes_wf(model.nodes@)) by {
            assert forall|i: int| #![trigger model.nodes@[i]]
                0 <= i < model.nodes@.len() implies (model.nodes@[i].parent matches Some(p) ==> p
                < i) by {
                if i < m_meshed.nodes@.len() {
                    assert(model.nodes@[i] == m_meshed.nodes@[i]);
                }
            }
        }
        assert forall|i: int|
            0 <= i < model.nodes@.len() implies crate::model::node_children_wf(
            model.nodes@,
            i,
        ) by {
            if i < m_meshed.nodes@.len() {
                assert(model.nodes@[i] == m_meshed.nodes@[i]);
                assert(crate::model::node_children_wf(m_meshed.nodes@, i));
            } else {
                assert(model.nodes@[i].children@.len() == 0);
            }
        }
        assert forall|i: int|
            0 <= i < model.nodes@.len() implies ((#[trigger] model.nodes@[i]).mesh
            matches Some(h) ==> h < model.meshes@.len()) by {
            if i < m_meshed.nodes@.len() {
                assert(model.nodes@[i] == m_meshed.nodes@[i]);
            }
        }
        assert forall|h: int|
            0 <= h < model.meshes@.len() implies crate::model::mesh_ranges_wf(
            #[trigger] model.meshes@[h],
            *model,
        ) by {
            assert(crate::model::mesh_ranges_wf(m_meshed.meshes@[h], m_meshed));
        }
        assert(model_wf(*model));
        assert(nodes_from_doc(model.nodes@, model.meshes@, *doc)) by {
            assert forall|i: int|
                0 <= i < model.nodes@.len() implies node_from_doc(
                #[trigger] model.nodes@[i],
                model.meshes@,
                *doc,
            ) by {
                if i < m_meshed.nodes@.len() {
                    assert(model.nodes@[i] == m_meshed.nodes@[i]);
                    assert(node_from_doc(m_meshed.nodes@[i], m_meshed.meshes@, *doc));
                }
            }
        }
    }
    let ghost m_pushed = *model;
    let mut children: Vec<usize> = Vec::new();
    let mut k: usize = 0;
    while k < node_ref.children.len()
        invariant
            budget >= 1,
            k <= node_ref.children@.len(),
            children@.len() == k,
            my_idx < model.nodes@.len(),
            model_wf(*model),
            meshes_from_doc(
                model.meshes@,
                *doc,
                spec_uv_fallback(*options),
                options.flip_v_coord,
                options.regenerate_tangents,
            ),
            nodes_from_doc(model.nodes@, model.meshes@, *doc),
            model_grown(m_pushed, *model),
            model_grown(m0, *model),
            m0 == *old(model),
            my_idx == m_pushed.nodes@.len() - 1,
            model.nodes@[my_idx as int] == m_pushed.nodes@[my_idx as int],
            node_index < doc.nodes@.len(),
            node_ref.children@ == doc.nodes@[node_index as int].children@,
            (doc.nodes@[node_index as int].mesh is None && doc.nodes@[
                node_index as int
            ].children@.len() == 0) ==> model.meshes@ == m0.meshes@,
            forall|j: int| 0 <= j < k ==> my_idx < #[trigger] children@[j] < model.nodes@.len(),
            forall|j: int|
                0 <= j < k ==> model.nodes@[#[trigger] children@[j] as int].parent == Some(
                    my_idx,
                ),
            forall|j: int|
                0 <= j < k ==> model.nodes@[#[trigger] children@[j] as int].node_index
                    == node_ref.children@[j],
            forall|j: int|
                0 <= j < k ==> subtree_resolved(
                    *doc,
                    model.nodes@,
                    model.meshes@,
                    #[trigger] children@[j] as int,
                ),
        decreases node_ref.children@.len() - k,
    {
        let ghost m_it = *model;
        let c = resolve_node(Some(my_idx), node_ref.children[k], doc, model, options, budget - 1);
        proof {
            lemma_model_grown_trans(m_pushed, m_it, *model);
            lemma_model_grown_trans(m0, m_it, *model);
            assert forall|j: int| 0 <= j < k implies subtree_resolved(
                *doc,
                model.nodes@,
                model.meshes@,
                #[trigger] children@[j] as int,
            ) by {
                assert forall|i: int|
                    children@[j] as int <= i < m_it.nodes@.len() implies #[trigger] model.nodes@[i]
                    == m_it.nodes@[i] by {}
                lemma_subtree_resolved_stable(
                    *doc,
                    m_it.nodes@,
                    m_it.meshes@,
                    model.nodes@,
                    model.meshes@,
                    children@[j] as int,
                );
            }
            assert forall|j: int| 0 <= j < k implies (model.nodes@[
                #[trigger] children@[j] as int
            ].parent == Some(my_idx) && model.nodes@[children@[j] as int].node_index
                == node_ref.children@[j]) by {
                assert(model.nodes@[children@[j] as int] == m_it.nodes@[children@[j] as int]);
            }
        }
        match c {
            Ok(a) => {
                children.push(a);
            },
            Err(e) => {
                return Err(e);
            },
        }
        k = k + 1;
    }
    let name2: Option<String> = match &node_ref.name {
        Some(n) => Some(n.clone()),
        None => None,
    };
    let finished = GltfNode {
        node_index,
        joint_index: None,
        parent,
        children,
        name: name2,
        mesh,
        skin_index: node_ref.skin,
        translation: node_ref.translation,
        scale: node_ref.scale,
        rotation,
    };
    let ghost m_kids = *model;
    model.nodes.set(my_idx, finished);
    proof {
        assert(m_pushed.nodes@.is_prefix_of(m_kids.nodes@));
        assert(m_kids.nodes@[my_idx as int].mesh == mesh);
        assert(model_wf(*model)) by {
            assert(crate::node::nodes_wf(model.nodes@)) by {
                assert forall|i: int| #![trigger model.nodes@[i]]
                    0 <= i < model.nodes@.len() implies (model.nodes@[i].parent matches Some(p)
                    ==> p < i) by {
                    if i != my_idx {
                        assert(model.nodes@[i] == m_kids.nodes@[i]);
                    }
                }
            }
            assert forall|i: int|
                0 <= i < model.nodes@.len() implies crate::model::node_children_wf(
                model.nodes@,
                i,
            ) by {
                if i != my_idx {
                    assert(model.nodes@[i] == m_kids.nodes@[i]);
                    assert(crate::model::node_children_wf(m_kids.nodes@, i));
                }
            }
            assert forall|i: int|
                0 <= i < model.nodes@.len() implies ((#[trigger] model.nodes@[i]).mesh
                matches Some(h) ==> h < model.meshes@.len()) by {
                if i != my_idx {
                    assert(model.nodes@[i] == m_kids.nodes@[i]);
                }
            }
        }
        assert(model_grown(m0, *model)) by {
            assert(m0.nodes@.is_prefix_of(model.nodes@)) by {
                assert(m0.nodes@ =~= model.nodes@.subrange(0, m0.nodes@.len() as int)) by {
                    assert(m0.nodes@ =~= m_kids.nodes@.subrange(0, m0.nodes@.len() as int));
                    assert(forall|j: int|
                        0 <= j < m0.nodes@.len() ==> m_kids.nodes@[j] == #[trigger] model.nodes@[
                            j
                        ]);
                }
            }
        }
        assert(model.meshes@ == m_kids.meshes@);
        assert(nodes_from_doc(model.nodes@, model.meshes@, *doc)) by {
            assert forall|i: int|
                0 <= i < model.nodes@.len() implies node_from_doc(
                #[trigger] model.nodes@[i],
                model.meshes@,
                *doc,
            ) by {
                if i != my_idx {
                    assert(model.nodes@[i] == m_kids.nodes@[i]);
                    assert(node_from_doc(m_kids.nodes@[i], m_kids.meshes@, *doc));
                } else {
                    assert(node_from_doc(m_kids.nodes@[my_idx as int], m_kids.meshes@, *doc));
                }
            }
        }
        match doc.nodes@[node_index as int].mesh {
            Some(src) => {
                assert(m_meshed.meshes@.is_prefix_of(m_kids.meshes@));
                let h = mesh->0 as int;
                assert(m_kids.meshes@[h] == m_meshed.meshes@[h]);
            },
            None => {},
        }
        assert(resolved_node_ok(*doc, *model, my_idx as int, node_index, parent));
        assert forall|j: int| 0 <= j < children@.len() implies subtree_resolved(
            *doc,
            model.nodes@,
            model.meshes@,
            #[trigger] children@[j] as int,
        ) by {
            assert forall|i: int|
                children@[j] as int <= i < m_kids.nodes@.len() implies #[trigger] model.nodes@[i]
                == m_kids.nodes@[i] by {}
            lemma_subtree_resolved_stable(
                *doc,
                m_kids.nodes@,
                m_kids.meshes@,
                model.nodes@,
                model.meshes@,
                children@[j] as int,
            );
        }
        assert(subtree_resolved(*doc, model.nodes@, model.meshes@, my_idx as int)) by {
            assert(node_from_doc(model.nodes@[my_idx as int], model.meshes@, *doc));
            assert forall|k: int|
                0 <= k < model.nodes@[my_idx as int].children@.len() implies ({
                let cc = #[trigger] model.nodes@[my_idx as int].children@[k] as int;
                if my_idx < cc < model.nodes@.len() {
                    &&& model.nodes@[cc].parent == Some(my_idx as usize)
                    &&& model.nodes@[cc].node_index == doc.nodes@[model.nodes@[
                        my_idx as int
                    ].node_index as int].children@[k]
                    &&& subtree_resolved(*doc, model.nodes@, model.meshes@, cc)
                } else {
                    false
                }
            }) by {
                assert(model.nodes@[my_idx as int].children@[k] == children@[k]);
                assert(model.nodes@[children@[k] as int] == m_kids.nodes@[children@[k] as int]);
            }
        }
    }
    Ok(my_idx)
}

impl GltfNode {
    /// Resolve one source node and its whole subtree into the model's
    /// arena: the transform is decomposed and remapped, the referenced
    /// mesh is looked up in the mesh cache and built exactly once per
    /// distinct source mesh index, and the children are resolved
    /// depth-first with this node as their parent.
    pub fn from_gltf(
        parent: Option<usize>,
        node_index: GltfIndex,
        doc: &DocumentDesc,
        model: &mut GltfModel,
        options: &GltfOptions,
    ) -> (r: GltfResult<usize>)
        requires
            model_wf(*old(model)),
            meshes_from_doc(
                old(model).meshes@,
                *doc,
                spec_uv_fallback(*options),
                options.flip_v_coord,
                options.regenerate_tangents,
            ),
            nodes_from_doc(old(model).nodes@, old(model).meshes@, *doc),
            match parent {
                Some(p) => p < old(model).nodes@.len(),
                None => true,
            },
        ensures
            model_grown(*old(model), *final(model)),
            model_wf(*final(model)),
            meshes_from_doc(
                final(model).meshes@,
                *doc,
                spec_uv_fallback(*options),
                options.flip_v_coord,
                options.regenerate_tangents,
            ),
            nodes_from_doc(final(model).nodes@, final(model).meshes@, *doc),
            (node_index < doc.nodes@.len() && doc.nodes@[node_index as int].mesh is None
                && doc.nodes@[node_index as int].children@.len() == 0) ==> final(model).meshes@
                == old(model).meshes@,
            forall|h: int|
                old(model).meshes@.len() <= h < final(model).meshes@.len() ==> (forall|h2: int|
                    0 <= h2 < old(model).meshes@.len()
                        ==> (#[trigger] final(model).meshes@[h]).index
                        != (#[trigger] final(model).meshes@[h2]).index),
            match r {
                Ok(a) => {
                    &&& old(model).nodes@.len() <= a < final(model).nodes@.len()
                    &&& resolved_node_ok(*doc, *final(model), a as int, node_index, parent)
                    &&& subtree_resolved(
                        *doc,
                        final(model).nodes@,
                        final(model).meshes@,
                        a as int,
                    )
                },
                Err(e) => resolve_error_ok(e, *doc),
            },
    {
        resolve_node(parent, node_index, doc, model, options, doc.nodes.len())
    }
}

// ---------------------------------------------------------------------------
// Dimension accumulation.
// ---------------------------------------------------------------------------

/// Fold one primitive list into the running scene bounds: each
/// primitive's declared corners are positions, moved by the node's full
/// world matrix (translation included) and folded component-wise.
pub open spec fn spec_fold_prim_dims(
    prims: Seq<crate::primitive::GltfPrimitive>,
    mat: Matrix4,
    acc: (Vector3, Vector3),
) -> (Vector3, Vector3)
    decreases prims.len(),
{
    if prims.len() == 0 {
        acc
    } else {
        let prev = spec_fold_prim_dims(prims.drop_last(), mat, acc);
        let p = prims.last();
        let loc_min = crate::math::spec_transform_point(mat, p.dimensions.min);
        let loc_max = crate::math::spec_transform_point(mat, p.dimensions.max);
        (
            Vector3 {
                x: crate::fp::f32_min(loc_min.x, prev.0.x),
                y: crate::fp::f32_min(loc_min.y, prev.0.y),
                z: crate::fp::f32_min(loc_min.z, prev.0.z),
            },
            Vector3 {
                x: crate::fp::f32_max(loc_max.x, prev.1.x),
                y: crate::fp::f32_max(loc_max.y, prev.1.y),
                z: crate::fp::f32_max(loc_max.z, prev.1.z),
            },
        )
    }
}

/// The bounds a node's subtree folds into the accumulator: first the
/// node's own primitives under its world matrix, then every child in
/// order.
pub open spec fn spec_node_dims(m: GltfModel, a: int, acc: (Vector3, Vector3)) -> (
    Vector3,
    Vector3,
)
    decreases m.nodes@.len() - a, 1int, 0int,
{
    if 0 <= a < m.nodes@.len() && model_wf(m) {
        let acc1 = match m.nodes@[a].mesh {
            Some(h) => spec_fold_prim_dims(
                m.meshes@[h as int].primitives@,
                spec_world_matrix(m.nodes@, a),
                acc,
            ),
            None => acc,
        };
        spec_children_dims(m, m.nodes@[a].children@, a, acc1)
    } else {
        acc
    }
}

pub open spec fn spec_children_dims(
    m: GltfModel,
    cs: Seq<usize>,
    a: int,
    acc: (Vector3, Vector3),
) -> (Vector3, Vector3)
    decreases m.nodes@.len() - a, 0int, cs.len(),
{
    if cs.len() == 0 {
        acc
    } else {
        let prev = spec_children_dims(m, cs.drop_last(), a, acc);
        if a < cs.last() < m.nodes@.len() {
            spec_node_dims(m, cs.last() as int, prev)
        } else {
            prev
        }
    }
}

/// In a model with no mesh anywhere, dimension accumulation returns the
/// accumulator untouched.
pub proof fn lemma_node_dims_empty(m: GltfModel, a: int, acc: (Vector3, Vector3))
    requires
        forall|i: int| 0 <= i < m.nodes@.len() ==> (#[trigger] m.nodes@[i]).mesh is None,
    ensures
        spec_node_dims(m, a, acc) == acc,
    decreases m.nodes@.len() - a, 1int, 0int,
{
    if 0 <= a < m.nodes@.len() && model_wf(m) {
        lemma_children_dims_empty(m, m.nodes@[a].children@, a, acc);
    }
}

pub proof fn lemma_children_dims_empty(m: GltfModel, cs: Seq<usize>, a: int, acc: (Vector3, Vector3))
    requires
        forall|i: int| 0 <= i < m.nodes@.len() ==> (#[trigger] m.nodes@[i]).mesh is None,
    ensures
        spec_children_dims(m, cs, a, acc) == acc,
    decreases m.nodes@.len() - a, 0int, cs.len(),
{
    if cs.len() == 0 {
    } else {
        lemma_children_dims_empty(m, cs.drop_last(), a, acc);
        if a < cs.last() < m.nodes@.len() {
            lemma_node_dims_empty(m, cs.last() as int, acc);
        }
    }
}

impl GltfNode {
    /// Fold this node's primitives, moved by its world matrix, and then
    /// its whole subtree into the running scene bounds.
    #[verifier::loop_isolation(false)]
    pub fn compute_dimensions(
        model: &GltfModel,
        a: usize,
        min: &mut Vector3,
        max: &mut Vector3,
    )
        requires
            model_wf(*model),
            a < model.nodes@.len(),
        ensures
            (*final(min), *final(max)) == spec_node_dims(
                *model,
                a as int,
                (*old(min), *old(max)),
            ),
        decreases model.nodes@.len() - a,
    {
        let ghost acc0 = (*old(min), *old(max));
        match model.nodes[a].mesh {
            Some(h) => {
                let node_matrix = GltfNode::get_matrix(&model.nodes, a);
                let ghost prims = model.meshes@[h as int].primitives@;
                let mut k: usize = 0;
                proof {
                    assert(prims.take(0) =~= Seq::empty());
                }
                while k < model.meshes[h].primitives.len()
                    invariant
                        k <= prims.len(),
                        (*min, *max) == spec_fold_prim_dims(prims.take(k as int), node_matrix, acc0),
                    decreases prims.len() - k,
                {
                    let prim = &model.meshes[h].primitives[k];
                    let loc_min = node_matrix.transform_point(&prim.dimensions.min);
                    let loc_max = node_matrix.transform_point(&prim.dimensions.max);
                    let new_min = Vector3 {
                        x: crate::fp::min_bits(loc_min.x, min.x),
                        y: crate::fp::min_bits(loc_min.y, min.y),
                        z: crate::fp::min_bits(loc_min.z, min.z),
                    };
                    let new_max = Vector3 {
                        x: crate::fp::max_bits(loc_max.x, max.x),
                        y: crate::fp::max_bits(loc_max.y, max.y),
                        z: crate::fp::max_bits(loc_max.z, max.z),
                    };
                    *min = new_min;
                    *max = new_max;
                    proof {
                        assert(prims.take(k as int + 1).drop_last() =~= prims.take(k as int));
                        assert(prims.take(k as int + 1).last() == prims[k as int]);
                    }
                    k = k + 1;
                }
                proof {
                    assert(prims.take(prims.len() as int) =~= prims);
                }
            },
            None => {},
        }
        let ghost acc1 = (*min, *max);
        let ghost cs = model.nodes@[a as int].children@;
        let mut k: usize = 0;
        proof {
            assert(cs.take(0) =~= Seq::empty());
        }
        while k < model.nodes[a].children.len()
            invariant
                k <= cs.len(),
                (*min, *max) == spec_children_dims(*model, cs.take(k as int), a as int, acc1),
            decreases cs.len() - k,
        {
            let c = model.nodes[a].children[k];
            proof {
                assert(crate::model::node_children_wf(model.nodes@, a as int));
            }
            assert(a < c < model.nodes@.len());
            GltfNode::compute_dimensions(model, c, min, max);
            proof {
                assert(cs.take(k as int + 1).drop_last() =~= cs.take(k as int));
                assert(cs.take(k as int + 1).last() == cs[k as int]);
            }
            k = k + 1;
        }
        proof {
            assert(cs.take(cs.len() as int) =~= cs);
        }
    }
}

} // verus!
