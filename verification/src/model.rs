//! The model under construction: node arena, mesh arena, resolved
//! materials, textures, animations and skins, and the global vertex and
//! index buffers.

use vstd::prelude::*;
use crate::{GltfIndex, GltfError, GltfResult, GltfOptions, GltfDiagnostic};
use crate::desc::DocumentDesc;
use crate::math::{Vector2, Vector3, Vector4, Dimensions, spec_dimensions_new,
    dimensions_sentinel_min, dimensions_sentinel_max};
use crate::fp::{F32_POS_INF, F32_NEG_INF};
use crate::mesh::{GltfMesh, meshes_from_doc};
use crate::node::{GltfNode, nodes_from_doc, resolve_error_ok, subtree_resolved,
    lemma_subtree_resolved_stable};
use crate::texture::GltfTexture;
use crate::material::{GltfMaterial, material_from_desc};
use crate::animation::{GltfAnimation, GltfSkin, channel_resolvable};

verus! {

/// One expanded vertex of the global vertex buffer.  All scalar fields
/// are IEEE-754 bit patterns; `skin_index` is `-1` until a skin is
/// assigned.
#[derive(Clone, Copy, PartialEq, Eq, Structural, Debug)]
pub struct GltfVertex {
    pub position: Vector3,
    pub normal: Vector3,
    pub uv0: Vector2,
    pub color0: Vector4,
    pub joint0: crate::desc::Joints4,
    pub joint1: crate::desc::Joints4,
    pub joint2: crate::desc::Joints4,
    pub joint3: crate::desc::Joints4,
    pub weight0: Vector4,
    pub weight1: Vector4,
    pub weight2: Vector4,
    pub weight3: Vector4,
    pub tangent: Vector3,
    pub bitangent: Vector3,
    pub influence_count: u32,
    pub skin_index: i32,
}

/// The in-progress and final model.  Nodes form an arena: `parent` and
/// `children` of a node, and the entries of `root_nodes` and
/// `linear_nodes`, are indices into `nodes`.  Meshes form an arena
/// shared across nodes, keyed by their source index.
pub struct GltfModel {
    pub nodes: Vec<GltfNode>,
    pub root_nodes: Vec<usize>,
    pub linear_nodes: Vec<usize>,

    pub meshes: Vec<GltfMesh>,
    pub textures: Vec<GltfTexture>,
    pub materials: Vec<GltfMaterial>,
    pub animations: Vec<GltfAnimation>,
    pub skins: Vec<GltfSkin>,

    pub dimensions: Dimensions,
    /// False when no mesh-bearing node contributed to `dimensions`, in
    /// which case the sentinel corners are not valid geometry bounds.
    pub has_geometry: bool,

    pub index_buffer: Vec<u32>,
    pub vertex_buffer: Vec<GltfVertex>,

    pub diagnostics: Vec<GltfDiagnostic>,
}

/// Every mesh of the arena keeps a distinct source index: this is what
/// makes de-duplication by source index meaningful.
pub open spec fn meshes_unique(meshes: Seq<GltfMesh>) -> bool {
    forall|i: int, j: int|
        0 <= i < j < meshes.len() ==> meshes[i].index != meshes[j].index
}

/// Every stored index points at an existing vertex.
pub open spec fn index_buffer_wf(m: GltfModel) -> bool {
    forall|k: int|
        0 <= k < m.index_buffer@.len() ==> m.index_buffer@[k] < m.vertex_buffer@.len()
}

/// A primitive's ranges lie inside the model's global buffers.
pub open spec fn prim_range_wf(p: crate::primitive::GltfPrimitive, m: GltfModel) -> bool {
    &&& p.index_start + p.index_count <= m.index_buffer@.len()
    &&& p.vertex_start + p.index_count <= m.vertex_buffer@.len()
}

pub open spec fn mesh_ranges_wf(mesh: GltfMesh, m: GltfModel) -> bool {
    forall|k: int|
        0 <= k < mesh.primitives@.len() ==> prim_range_wf(#[trigger] mesh.primitives@[k], m)
}

/// A node's children point strictly above its own slot and stay inside
/// the arena: child links can only move forward.
pub open spec fn node_children_wf(nodes: Seq<GltfNode>, i: int) -> bool {
    forall|k: int|
        0 <= k < nodes[i].children@.len() ==> i < #[trigger] nodes[i].children@[k] < nodes.len()
}

/// The arena invariant of a model under or after construction: parents
/// sit below their children, children above their parents, every
/// cross-index is in bounds, mesh source indices are unique and every
/// primitive range lies inside the global buffers.
pub open spec fn model_wf(m: GltfModel) -> bool {
    &&& crate::node::nodes_wf(m.nodes@)
    &&& forall|i: int| 0 <= i < m.nodes@.len() ==> node_children_wf(m.nodes@, i)
    &&& forall|i: int|
        0 <= i < m.nodes@.len() ==> ((#[trigger] m.nodes@[i]).mesh matches Some(h) ==> h
            < m.meshes@.len())
    &&& forall|k: int|
        0 <= k < m.linear_nodes@.len() ==> #[trigger] m.linear_nodes@[k] < m.nodes@.len()
    &&& forall|k: int|
        0 <= k < m.root_nodes@.len() ==> #[trigger] m.root_nodes@[k] < m.nodes@.len()
    &&& meshes_unique(m.meshes@)
    &&& index_buffer_wf(m)
    &&& forall|h: int| 0 <= h < m.meshes@.len() ==> mesh_ranges_wf(#[trigger] m.meshes@[h], m)
}

/// A construction step that only fed the global buffers: everything
/// already built is kept, the buffers and diagnostics only grow.
pub open spec fn model_extended(m0: GltfModel, m1: GltfModel) -> bool {
    &&& m0.vertex_buffer@.is_prefix_of(m1.vertex_buffer@)
    &&& m0.index_buffer@.is_prefix_of(m1.index_buffer@)
    &&& m0.diagnostics@.is_prefix_of(m1.diagnostics@)
    &&& m1.nodes@ == m0.nodes@
    &&& m1.root_nodes@ == m0.root_nodes@
    &&& m1.linear_nodes@ == m0.linear_nodes@
    &&& m1.meshes@ == m0.meshes@
    &&& m1.textures@ == m0.textures@
    &&& m1.materials@ == m0.materials@
    &&& m1.animations@ == m0.animations@
    &&& m1.skins@ == m0.skins@
    &&& m1.dimensions == m0.dimensions
    &&& m1.has_geometry == m0.has_geometry
}

/// A construction step of the node resolver: node and mesh arenas and
/// the buffers only grow, the already-built prefix of each is kept.
pub open spec fn model_grown(m0: GltfModel, m1: GltfModel) -> bool {
    &&& m0.nodes@.is_prefix_of(m1.nodes@)
    &&& m0.meshes@.is_prefix_of(m1.meshes@)
    &&& m0.vertex_buffer@.is_prefix_of(m1.vertex_buffer@)
    &&& m0.index_buffer@.is_prefix_of(m1.index_buffer@)
    &&& m0.diagnostics@.is_prefix_of(m1.diagnostics@)
    &&& m1.root_nodes@ == m0.root_nodes@
    &&& m1.linear_nodes@ == m0.linear_nodes@
    &&& m1.textures@ == m0.textures@
    &&& m1.materials@ == m0.materials@
    &&& m1.animations@ == m0.animations@
    &&& m1.skins@ == m0.skins@
    &&& m1.dimensions == m0.dimensions
    &&& m1.has_geometry == m0.has_geometry
}

pub proof fn lemma_prefix_trans<T>(a: Seq<T>, b: Seq<T>, c: Seq<T>)
    requires
        a.is_prefix_of(b),
        b.is_prefix_of(c),
    ensures
        a.is_prefix_of(c),
{
    assert(a =~= c.subrange(0, a.len() as int)) by {
        assert(a =~= b.subrange(0, a.len() as int));
        assert(b =~= c.subrange(0, b.len() as int));
    }
}

pub proof fn lemma_model_extended_trans(m0: GltfModel, m1: GltfModel, m2: GltfModel)
    requires
        model_extended(m0, m1),
        model_extended(m1, m2),
    ensures
        model_extended(m0, m2),
{
    lemma_prefix_trans(m0.vertex_buffer@, m1.vertex_buffer@, m2.vertex_buffer@);
    lemma_prefix_trans(m0.index_buffer@, m1.index_buffer@, m2.index_buffer@);
    lemma_prefix_trans(m0.diagnostics@, m1.diagnostics@, m2.diagnostics@);
}

pub proof fn lemma_model_grown_trans(m0: GltfModel, m1: GltfModel, m2: GltfModel)
    requires
        model_grown(m0, m1),
        model_grown(m1, m2),
    ensures
        model_grown(m0, m2),
{
    lemma_prefix_trans(m0.nodes@, m1.nodes@, m2.nodes@);
    lemma_prefix_trans(m0.meshes@, m1.meshes@, m2.meshes@);
    lemma_prefix_trans(m0.vertex_buffer@, m1.vertex_buffer@, m2.vertex_buffer@);
    lemma_prefix_trans(m0.index_buffer@, m1.index_buffer@, m2.index_buffer@);
    lemma_prefix_trans(m0.diagnostics@, m1.diagnostics@, m2.diagnostics@);
}

/// A step that only extends the model keeps the arena invariant.
pub proof fn lemma_model_wf_extended(m0: GltfModel, m1: GltfModel)
    requires
        model_wf(m0),
        model_extended(m0, m1),
        index_buffer_wf(m1),
    ensures
        model_wf(m1),
{
    assert forall|h: int| 0 <= h < m1.meshes@.len() implies mesh_ranges_wf(
        #[trigger] m1.meshes@[h],
        m1,
    ) by {
        assert(mesh_ranges_wf(m0.meshes@[h], m0));
        assert forall|k: int| 0 <= k < m1.meshes@[h].primitives@.len() implies prim_range_wf(
            #[trigger] m1.meshes@[h].primitives@[k],
            m1,
        ) by {
            assert(prim_range_wf(m0.meshes@[h].primitives@[k], m0));
        }
    }
}

/// Two nodes that refer to meshes carrying the same source index refer
/// to the same mesh: de-duplication by source index is exact.
pub proof fn lemma_mesh_dedup(m: GltfModel, a: int, b: int)
    requires
        model_wf(m),
        0 <= a < m.nodes@.len(),
        0 <= b < m.nodes@.len(),
        m.nodes@[a].mesh is Some,
        m.nodes@[b].mesh is Some,
        m.meshes@[m.nodes@[a].mesh->0 as int].index == m.meshes@[m.nodes@[b].mesh->0 as int].index,
    ensures
        m.nodes@[a].mesh == m.nodes@[b].mesh,
{
    let ha = m.nodes@[a].mesh->0 as int;
    let hb = m.nodes@[b].mesh->0 as int;
    if ha != hb {
        assert(m.meshes@[ha].index != m.meshes@[hb].index);
    }
}

impl GltfModel {
    pub fn new_empty() -> (r: GltfModel)
        ensures
            r.nodes@.len() == 0,
            r.root_nodes@.len() == 0,
            r.linear_nodes@.len() == 0,
            r.meshes@.len() == 0,
            r.textures@.len() == 0,
            r.materials@.len() == 0,
            r.animations@.len() == 0,
            r.skins@.len() == 0,
            r.index_buffer@.len() == 0,
            r.vertex_buffer@.len() == 0,
            r.diagnostics@.len() == 0,
            !r.has_geometry,
    {
        GltfModel {
            nodes: Vec::new(),
            root_nodes: Vec::new(),
            linear_nodes: Vec::new(),
            meshes: Vec::new(),
            textures: Vec::new(),
            materials: Vec::new(),
            animations: Vec::new(),
            skins: Vec::new(),
            dimensions: Dimensions::default(),
            has_geometry: false,
            index_buffer: Vec::new(),
            vertex_buffer: Vec::new(),
            diagnostics: Vec::new(),
        }
    }

    /// The arena position of the node with the given source index, if
    /// any: the first match in linear order, exactly as a linear scan
    /// finds it.
    pub fn node_from_index(&self, index: GltfIndex) -> (r: Option<usize>)
        ensures
            r == spec_node_from_index(*self, index, 0),
            match r {
                Some(a) => a < self.nodes@.len() && self.nodes@[a as int].node_index == index,
                None => true,
            },
    {
        let mut k: usize = 0;
        while k < self.linear_nodes.len()
            invariant
                k <= self.linear_nodes@.len(),
                spec_node_from_index(*self, index, 0) == spec_node_from_index(
                    *self,
                    index,
                    k as int,
                ),
            decreases self.linear_nodes@.len() - k,
        {
            let a = self.linear_nodes[k];
            if a < self.nodes.len() && self.nodes[a].node_index == index {
                return Some(a);
            }
            k = k + 1;
        }
        None
    }
}

/// The first entry of the linear node list, scanning from position `k`,
/// that names an existing node with the given source index.
pub open spec fn spec_node_from_index(m: GltfModel, index: GltfIndex, k: int) -> Option<usize>
    decreases m.linear_nodes@.len() - k,
{
    if 0 <= k < m.linear_nodes@.len() {
        let a = m.linear_nodes@[k];
        if a < m.nodes@.len() && m.nodes@[a as int].node_index == index {
            Some(a)
        } else {
            spec_node_from_index(m, index, k + 1)
        }
    } else {
        None
    }
}

/// A successful linear lookup is witnessed by some linear entry, and a
/// failed one rules every entry out.
pub proof fn lemma_node_from_index_exists(m: GltfModel, index: GltfIndex, k: int)
    requires
        k >= 0,
    ensures
        match spec_node_from_index(m, index, k) {
            Some(a) => exists|j: int|
                k <= j < m.linear_nodes@.len() && #[trigger] m.linear_nodes@[j] == a && a
                    < m.nodes@.len() && m.nodes@[a as int].node_index == index,
            None => forall|j: int|
                k <= j < m.linear_nodes@.len() ==> !(#[trigger] m.linear_nodes@[j]
                    < m.nodes@.len() && m.nodes@[m.linear_nodes@[j] as int].node_index == index),
        },
    decreases m.linear_nodes@.len() - k,
{
    if 0 <= k < m.linear_nodes@.len() {
        let a = m.linear_nodes@[k];
        if a < m.nodes@.len() && m.nodes@[a as int].node_index == index {
        } else {
            lemma_node_from_index_exists(m, index, k + 1);
        }
    }
}

// ---------------------------------------------------------------------------
// Pre-order traversal.
// ---------------------------------------------------------------------------

/// The pre-order listing of a subtree: the node itself, then each
/// child's subtree in order.
pub open spec fn spec_preorder(nodes: Seq<GltfNode>, a: int) -> Seq<usize>
    decreases nodes.len() - a, 1int, 0int,
{
    if 0 <= a < nodes.len() {
        seq![a as usize] + spec_preorder_children(nodes, nodes[a].children@, a)
    } else {
        seq![]
    }
}

pub open spec fn spec_preorder_children(nodes: Seq<GltfNode>, cs: Seq<usize>, a: int) -> Seq<
    usize,
>
    decreases nodes.len() - a, 0int, cs.len(),
{
    if cs.len() == 0 {
        seq![]
    } else {
        let prev = spec_preorder_children(nodes, cs.drop_last(), a);
        if a < cs.last() < nodes.len() {
            prev + spec_preorder(nodes, cs.last() as int)
        } else {
            prev
        }
    }
}

/// The declared scenes' root lists, concatenated in declaration order:
/// the source indices the recorded roots must resolve.
pub open spec fn spec_scene_roots(doc: DocumentDesc, upto: int) -> Seq<GltfIndex>
    decreases upto,
{
    if upto <= 0 {
        Seq::empty()
    } else {
        spec_scene_roots(doc, upto - 1) + doc.scenes@[upto - 1].nodes@
    }
}

/// The concatenated pre-order listings of the recorded roots, in
/// order: what the linear node list must hold.
pub open spec fn spec_linear_of(nodes: Seq<GltfNode>, roots: Seq<usize>) -> Seq<usize>
    decreases roots.len(),
{
    if roots.len() == 0 {
        Seq::empty()
    } else {
        spec_linear_of(nodes, roots.drop_last()) + (if roots.last() < nodes.len() {
            spec_preorder(nodes, roots.last() as int)
        } else {
            Seq::empty()
        })
    }
}

/// The subtree bounds of every linear node in order, folded into the
/// accumulator.
pub open spec fn spec_model_dims(m: GltfModel, ls: Seq<usize>, acc: (Vector3, Vector3)) -> (
    Vector3,
    Vector3,
)
    decreases ls.len(),
{
    if ls.len() == 0 {
        acc
    } else {
        let prev = spec_model_dims(m, ls.drop_last(), acc);
        if ls.last() < m.nodes@.len() {
            crate::node::spec_node_dims(m, ls.last() as int, prev)
        } else {
            prev
        }
    }
}

/// The initial scene bound accumulator: positive infinity for the
/// minimum corner and negative infinity for the maximum corner.
pub open spec fn spec_dims_sentinels() -> (Vector3, Vector3) {
    (dimensions_sentinel_min(), dimensions_sentinel_max())
}

pub proof fn lemma_model_dims_empty(m: GltfModel, ls: Seq<usize>, acc: (Vector3, Vector3))
    requires
        forall|i: int| 0 <= i < m.nodes@.len() ==> (#[trigger] m.nodes@[i]).mesh is None,
    ensures
        spec_model_dims(m, ls, acc) == acc,
    decreases ls.len(),
{
    if ls.len() > 0 {
        lemma_model_dims_empty(m, ls.drop_last(), acc);
        if ls.last() < m.nodes@.len() {
            crate::node::lemma_node_dims_empty(m, ls.last() as int, acc);
        }
    }
}

impl GltfModel {
    /// Append the pre-order listing of one subtree to the running
    /// linear node list.
    #[verifier::loop_isolation(false)]
    fn collect_nodes(&self, a: usize, res: &mut Vec<usize>)
        requires
            model_wf(*self),
            a < self.nodes@.len(),
        ensures
            final(res)@ == old(res)@ + spec_preorder(self.nodes@, a as int),
            forall|k: int|
                0 <= k < final(res)@.len() ==> (final(res)@[k] < self.nodes@.len() || old(res)@.contains(
                    final(res)@[k],
                )),
        decreases self.nodes@.len() - a,
    {
        res.push(a);
        let ghost cs = self.nodes@[a as int].children@;
        let ghost base = res@;
        let mut k: usize = 0;
        proof {
            assert(cs.take(0) =~= Seq::empty());
            assert(res@ =~= base + spec_preorder_children(self.nodes@, cs.take(0), a as int));
        }
        while k < self.nodes[a].children.len()
            invariant
                k <= cs.len(),
                res@ == base + spec_preorder_children(self.nodes@, cs.take(k as int), a as int),
                forall|j: int|
                    0 <= j < res@.len() ==> (res@[j] < self.nodes@.len() || base.contains(
                        res@[j],
                    )),
            decreases cs.len() - k,
        {
            let c = self.nodes[a].children[k];
            proof {
                assert(node_children_wf(self.nodes@, a as int));
            }
            self.collect_nodes(c, res);
            proof {
                assert(cs.take(k as int + 1).drop_last() =~= cs.take(k as int));
                assert(cs.take(k as int + 1).last() == cs[k as int]);
            }
            k = k + 1;
        }
        proof {
            assert(cs.take(cs.len() as int) =~= cs);
            assert(old(res)@ + seq![a] + spec_preorder_children(self.nodes@, cs, a as int)
                =~= old(res)@ + spec_preorder(self.nodes@, a as int));
        }
    }

    /// Fold every linear node's subtree into one scene-wide bound,
    /// starting from the infinite sentinels, and record whether any
    /// node carries geometry at all.
    #[verifier::loop_isolation(false)]
    fn compute_dimensions(&mut self)
        requires
            model_wf(*old(self)),
        ensures
            model_wf(*final(self)),
            final(self).nodes@ == old(self).nodes@,
            final(self).root_nodes@ == old(self).root_nodes@,
            final(self).linear_nodes@ == old(self).linear_nodes@,
            final(self).meshes@ == old(self).meshes@,
            final(self).textures@ == old(self).textures@,
            final(self).materials@ == old(self).materials@,
            final(self).animations@ == old(self).animations@,
            final(self).skins@ == old(self).skins@,
            final(self).index_buffer@ == old(self).index_buffer@,
            final(self).vertex_buffer@ == old(self).vertex_buffer@,
            final(self).diagnostics@ == old(self).diagnostics@,
            final(self).dimensions == spec_dimensions_new(
                spec_model_dims(*old(self), old(self).linear_nodes@, spec_dims_sentinels()).0,
                spec_model_dims(*old(self), old(self).linear_nodes@, spec_dims_sentinels()).1,
            ),
            final(self).has_geometry == (exists|i: int|
                0 <= i < old(self).nodes@.len() && (#[trigger] old(self).nodes@[i]).mesh
                    is Some),
            (forall|i: int| 0 <= i < old(self).nodes@.len() ==> (#[trigger] old(
                self,
            ).nodes@[i]).mesh is None) ==> (final(self).dimensions.min
                == dimensions_sentinel_min() && final(self).dimensions.max
                == dimensions_sentinel_max() && !final(self).has_geometry),
    {
        let mut min = Vector3 { x: F32_POS_INF, y: F32_POS_INF, z: F32_POS_INF };
        let mut max = Vector3 { x: F32_NEG_INF, y: F32_NEG_INF, z: F32_NEG_INF };
        let ghost ls = self.linear_nodes@;
        let ghost me = *self;
        let mut t: usize = 0;
        proof {
            assert(ls.take(0) =~= Seq::empty());
        }
        while t < self.linear_nodes.len()
            invariant
                t <= ls.len(),
                (min, max) == spec_model_dims(me, ls.take(t as int), spec_dims_sentinels()),
            decreases ls.len() - t,
        {
            let a = self.linear_nodes[t];
            GltfNode::compute_dimensions(self, a, &mut min, &mut max);
            proof {
                assert(ls.take(t as int + 1).drop_last() =~= ls.take(t as int));
                assert(ls.take(t as int + 1).last() == ls[t as int]);
            }
            t = t + 1;
        }
        proof {
            assert(ls.take(ls.len() as int) =~= ls);
        }
        let mut has_geometry = false;
        let mut i: usize = 0;
        while i < self.nodes.len()
            invariant
                i <= self.nodes@.len(),
                has_geometry == (exists|j: int|
                    0 <= j < i && (#[trigger] self.nodes@[j]).mesh is Some),
            decreases self.nodes@.len() - i,
        {
            if self.nodes[i].mesh.is_some() {
                has_geometry = true;
            }
            i = i + 1;
        }
        proof {
            if forall|j: int| 0 <= j < me.nodes@.len() ==> (#[trigger] me.nodes@[j]).mesh
                is None {
                lemma_model_dims_empty(me, ls, spec_dims_sentinels());
            }
        }
        self.dimensions = Dimensions::new(min, max);
        self.has_geometry = has_geometry;
    }

    /// Resolve one whole document: textures and materials first, then
    /// the node forest of every scene depth-first, the linear node
    /// list, the animations (dropping any whose channels all fail to
    /// resolve), the skins, and finally the scene-wide bounds.  Skin
    /// assignments are already merged onto the nodes during node
    /// resolution.
    pub fn from_gltf(doc: &DocumentDesc, options: &GltfOptions) -> (r: GltfResult<GltfModel>)
        ensures
            match r {
                Ok(m) => {
                    &&& model_wf(m)
                    &&& m.textures@.len() == doc.textures@.len()
                    &&& forall|k: int|
                        0 <= k < m.textures@.len() ==> (#[trigger] m.textures@[k]).index == k
                            && m.textures@[k].name == doc.textures@[k].name
                    &&& m.materials@.len() == doc.materials@.len()
                    &&& forall|k: int|
                        0 <= k < m.materials@.len() ==> material_from_desc(
                            #[trigger] m.materials@[k],
                            doc.materials@[k],
                        )
                    &&& m.skins@.len() == doc.skins@.len()
                    &&& forall|k: int|
                        0 <= k < m.skins@.len() ==> ((#[trigger] m.skins@[k]).skin_index == k
                            && m.skins@[k].name == doc.skins@[k].name && m.skins@[k].skeleton_root
                            == doc.skins@[k].skeleton && m.skins@[k].joints@.len()
                            == doc.skins@[k].joints@.len())
                    &&& forall|k: int|
                        0 <= k < m.animations@.len() ==> (#[trigger] m.animations@[k]).channels@.len()
                            > 0
                    &&& forall|k: int|
                        0 <= k < m.animations@.len() ==> (#[trigger] m.animations@[k]).index
                            < doc.animations@.len()
                    &&& forall|j: int| #![trigger doc.animations@[j]]
                        0 <= j < doc.animations@.len() && !(exists|c: int|
                            0 <= c < doc.animations@[j].channels@.len() && channel_resolvable(
                                m,
                                #[trigger] doc.animations@[j].channels@[c],
                            )) ==> forall|k: int|
                            0 <= k < m.animations@.len() ==> (#[trigger] m.animations@[k]).index
                                != j
                    &&& forall|j: int| #![trigger doc.animations@[j]]
                        0 <= j < doc.animations@.len() && (exists|c: int|
                            0 <= c < doc.animations@[j].channels@.len() && channel_resolvable(
                                m,
                                #[trigger] doc.animations@[j].channels@[c],
                            )) ==> exists|k: int|
                            0 <= k < m.animations@.len() && (#[trigger] m.animations@[k]).index
                                == j
                    &&& nodes_from_doc(m.nodes@, m.meshes@, *doc)
                    &&& m.linear_nodes@ == spec_linear_of(m.nodes@, m.root_nodes@)
                    &&& m.root_nodes@.len() == spec_scene_roots(*doc, doc.scenes@.len() as int).len()
                    &&& forall|k: int|
                        0 <= k < m.root_nodes@.len() ==> (#[trigger] m.root_nodes@[k]
                            < m.nodes@.len() && m.nodes@[m.root_nodes@[k] as int].parent
                            is None && m.nodes@[m.root_nodes@[k] as int].node_index
                            == spec_scene_roots(*doc, doc.scenes@.len() as int)[k])
                    &&& ((forall|i: int|
                        0 <= i < m.nodes@.len() ==> (#[trigger] m.nodes@[i]).mesh is None)
                        ==> (m.dimensions.min == dimensions_sentinel_min() && m.dimensions.max
                        == dimensions_sentinel_max() && !m.has_geometry))
                    &&& meshes_from_doc(
                        m.meshes@,
                        *doc,
                        crate::primitive::spec_uv_fallback(*options),
                        options.flip_v_coord,
                        options.regenerate_tangents,
                    )
                },
                Err(e) => resolve_error_ok(e, *doc),
            },
    {
        let mut model = GltfModel::new_empty();

        // Textures, resolved once by source index.
        let mut t: usize = 0;
        while t < doc.textures.len()
            invariant
                t <= doc.textures@.len(),
                model.textures@.len() == t,
                forall|k: int|
                    0 <= k < t ==> (#[trigger] model.textures@[k]).index == k
                        && model.textures@[k].name == doc.textures@[k].name,
                model.nodes@.len() == 0,
                model.meshes@.len() == 0,
                model.root_nodes@.len() == 0,
                model.linear_nodes@.len() == 0,
                model.animations@.len() == 0,
                model.skins@.len() == 0,
                model.index_buffer@.len() == 0,
                model.vertex_buffer@.len() == 0,
                model.materials@.len() == 0,
            decreases doc.textures@.len() - t,
        {
            let texture = crate::texture::GltfTexture::from_gltf(&doc.textures[t], t);
            model.textures.push(texture);
            t = t + 1;
        }

        // Materials, resolved before any node references them.
        let mut c: usize = 0;
        while c < doc.materials.len()
            invariant
                c <= doc.materials@.len(),
                model.materials@.len() == c,
                forall|k: int|
                    0 <= k < c ==> material_from_desc(
                        #[trigger] model.materials@[k],
                        doc.materials@[k],
                    ),
                model.textures@.len() == doc.textures@.len(),
                forall|k: int|
                    0 <= k < model.textures@.len() ==> (#[trigger] model.textures@[k]).index == k
                        && model.textures@[k].name == doc.textures@[k].name,
                model.nodes@.len() == 0,
                model.meshes@.len() == 0,
                model.root_nodes@.len() == 0,
                model.linear_nodes@.len() == 0,
                model.animations@.len() == 0,
                model.skins@.len() == 0,
                model.index_buffer@.len() == 0,
                model.vertex_buffer@.len() == 0,
            decreases doc.materials@.len() - c,
        {
            match GltfMaterial::from_gltf(&doc.materials[c]) {
                Ok(material) => {
                    model.materials.push(material);
                },
                Err(e) => {
                    return Err(e);
                },
            }
            c = c + 1;
        }
        assert(model_wf(model));

        // The node forest: every declared scene's roots, depth-first.
        let ghost g_textures = model.textures@;
        let ghost g_materials = model.materials@;
        let mut s: usize = 0;
        while s < doc.scenes.len()
            invariant
                s <= doc.scenes@.len(),
                model_wf(model),
                meshes_from_doc(
                    model.meshes@,
                    *doc,
                    crate::primitive::spec_uv_fallback(*options),
                    options.flip_v_coord,
                    options.regenerate_tangents,
                ),
                model.textures@ == g_textures,
                model.materials@ == g_materials,
                model.linear_nodes@.len() == 0,
                nodes_from_doc(model.nodes@, model.meshes@, *doc),
                model.root_nodes@.len() == spec_scene_roots(*doc, s as int).len(),
                forall|k: int|
                    0 <= k < model.root_nodes@.len() ==> subtree_resolved(
                        *doc,
                        model.nodes@,
                        model.meshes@,
                        #[trigger] model.root_nodes@[k] as int,
                    ),
                forall|k: int|
                    0 <= k < model.root_nodes@.len() ==> (#[trigger] model.root_nodes@[k]
                        < model.nodes@.len() && model.nodes@[model.root_nodes@[k] as int].parent
                        is None && model.nodes@[model.root_nodes@[k] as int].node_index
                        == spec_scene_roots(*doc, s as int)[k]),
                model.animations@.len() == 0,
                model.skins@.len() == 0,
            decreases doc.scenes@.len() - s,
        {
            let mut n: usize = 0;
            let scene_nodes = &doc.scenes[s].nodes;
            while n < scene_nodes.len()
                invariant
                    n <= scene_nodes@.len(),
                    model_wf(model),
                    meshes_from_doc(
                        model.meshes@,
                        *doc,
                        crate::primitive::spec_uv_fallback(*options),
                        options.flip_v_coord,
                        options.regenerate_tangents,
                    ),
                    model.textures@ == g_textures,
                    model.materials@ == g_materials,
                    model.linear_nodes@.len() == 0,
                    nodes_from_doc(model.nodes@, model.meshes@, *doc),
                    model.root_nodes@.len() == spec_scene_roots(*doc, s as int).len() + n,
                    scene_nodes@ == doc.scenes@[s as int].nodes@,
                    forall|k: int|
                        0 <= k < model.root_nodes@.len() ==> subtree_resolved(
                            *doc,
                            model.nodes@,
                            model.meshes@,
                            #[trigger] model.root_nodes@[k] as int,
                        ),
                    forall|k: int|
                        0 <= k < model.root_nodes@.len() ==> (#[trigger] model.root_nodes@[k]
                            < model.nodes@.len() && model.nodes@[model.root_nodes@[k] as int].parent
                            is None && model.nodes@[model.root_nodes@[k] as int].node_index
                            == (spec_scene_roots(*doc, s as int)
                                + doc.scenes@[s as int].nodes@.take(n as int))[k]),
                    model.animations@.len() == 0,
                    model.skins@.len() == 0,
                decreases scene_nodes@.len() - n,
            {
                let ghost m_before = model;
                match GltfNode::from_gltf(None, scene_nodes[n], doc, &mut model, options) {
                    Ok(a) => {
                        model.root_nodes.push(a);
                        proof {
                            assert forall|k: int|
                                0 <= k < model.root_nodes@.len() implies subtree_resolved(
                                *doc,
                                model.nodes@,
                                model.meshes@,
                                #[trigger] model.root_nodes@[k] as int,
                            ) by {
                                if k < model.root_nodes@.len() - 1 {
                                    assert(model.root_nodes@[k] == m_before.root_nodes@[k]);
                                    assert forall|i: int|
                                        model.root_nodes@[k] as int <= i
                                            < m_before.nodes@.len() implies #[trigger] model.nodes@[
                                        i
                                    ] == m_before.nodes@[i] by {}
                                    lemma_subtree_resolved_stable(
                                        *doc,
                                        m_before.nodes@,
                                        m_before.meshes@,
                                        model.nodes@,
                                        model.meshes@,
                                        model.root_nodes@[k] as int,
                                    );
                                }
                            }
                            let ghost roots_now = spec_scene_roots(*doc, s as int)
                                + doc.scenes@[s as int].nodes@.take(n as int + 1);
                            assert(doc.scenes@[s as int].nodes@.take(n as int + 1).drop_last()
                                =~= doc.scenes@[s as int].nodes@.take(n as int));
                            assert forall|k: int|
                                0 <= k < model.root_nodes@.len() implies (
                            #[trigger] model.root_nodes@[k] < model.nodes@.len()
                                && model.nodes@[model.root_nodes@[k] as int].parent is None
                                && model.nodes@[model.root_nodes@[k] as int].node_index
                                == roots_now[k]) by {
                                if k < model.root_nodes@.len() - 1 {
                                    assert(model.root_nodes@[k] == m_before.root_nodes@[k]);
                                    assert(model.nodes@[model.root_nodes@[k] as int]
                                        == m_before.nodes@[model.root_nodes@[k] as int]);
                                    assert(roots_now[k] == (spec_scene_roots(*doc, s as int)
                                        + doc.scenes@[s as int].nodes@.take(n as int))[k]);
                                } else {
                                    assert(roots_now[k] == doc.scenes@[s as int].nodes@[n as int]);
                                }
                            }
                        }
                    },
                    Err(e) => {
                        return Err(e);
                    },
                }
                n = n + 1;
            }
            proof {
                assert(doc.scenes@[s as int].nodes@.take(scene_nodes@.len() as int)
                    =~= doc.scenes@[s as int].nodes@);
            }
            s = s + 1;
        }

        // The linear node list: pre-order traversal of every root.
        let mut res_nodes: Vec<usize> = Vec::new();
        let mut rn: usize = 0;
        proof {
            assert(model.root_nodes@.take(0) =~= Seq::<usize>::empty());
        }
        while rn < model.root_nodes.len()
            invariant
                rn <= model.root_nodes@.len(),
                model_wf(model),
                meshes_from_doc(
                    model.meshes@,
                    *doc,
                    crate::primitive::spec_uv_fallback(*options),
                    options.flip_v_coord,
                    options.regenerate_tangents,
                ),
                model.linear_nodes@.len() == 0,
                model.animations@.len() == 0,
                model.skins@.len() == 0,
                model.textures@ == g_textures,
                model.materials@ == g_materials,
                model.root_nodes@.len() == spec_scene_roots(*doc, doc.scenes@.len() as int).len(),
                forall|k: int|
                    0 <= k < model.root_nodes@.len() ==> subtree_resolved(
                        *doc,
                        model.nodes@,
                        model.meshes@,
                        #[trigger] model.root_nodes@[k] as int,
                    ),
                forall|k: int|
                    0 <= k < model.root_nodes@.len() ==> (#[trigger] model.root_nodes@[k]
                        < model.nodes@.len() && model.nodes@[model.root_nodes@[k] as int].parent
                        is None && model.nodes@[model.root_nodes@[k] as int].node_index
                        == spec_scene_roots(*doc, doc.scenes@.len() as int)[k]),
                nodes_from_doc(model.nodes@, model.meshes@, *doc),
                res_nodes@ == spec_linear_of(model.nodes@, model.root_nodes@.take(rn as int)),
                forall|k: int| 0 <= k < res_nodes@.len() ==> res_nodes@[k] < model.nodes@.len(),
            decreases model.root_nodes@.len() - rn,
        {
            let root = model.root_nodes[rn];
            let mut collected: Vec<usize> = Vec::new();
            model.collect_nodes(root, &mut collected);
            let ghost res_before = res_nodes@;
            let mut cc: usize = 0;
            proof {
                assert(res_nodes@ =~= res_before + collected@.take(0));
            }
            while cc < collected.len()
                invariant
                    cc <= collected@.len(),
                    res_nodes@ == res_before + collected@.take(cc as int),
                    forall|k: int|
                        0 <= k < collected@.len() ==> collected@[k] < model.nodes@.len(),
                    forall|k: int|
                        0 <= k < res_nodes@.len() ==> res_nodes@[k] < model.nodes@.len(),
                decreases collected@.len() - cc,
            {
                res_nodes.push(collected[cc]);
                proof {
                    assert(res_nodes@ =~= res_before + collected@.take(cc as int + 1));
                }
                cc = cc + 1;
            }
            proof {
                assert(collected@.take(collected@.len() as int) =~= collected@);
                assert(model.root_nodes@.take(rn as int + 1).drop_last() =~= model.root_nodes@.take(
                    rn as int,
                ));
                assert(model.root_nodes@.take(rn as int + 1).last() == model.root_nodes@[
                    rn as int
                ]);
            }
            rn = rn + 1;
        }
        proof {
            assert(model.root_nodes@.take(model.root_nodes@.len() as int) =~= model.root_nodes@);
        }
        let mut k2: usize = 0;
        while k2 < res_nodes.len()
            invariant
                k2 <= res_nodes@.len(),
                model_wf(model),
                meshes_from_doc(
                    model.meshes@,
                    *doc,
                    crate::primitive::spec_uv_fallback(*options),
                    options.flip_v_coord,
                    options.regenerate_tangents,
                ),
                nodes_from_doc(model.nodes@, model.meshes@, *doc),
                res_nodes@ == spec_linear_of(model.nodes@, model.root_nodes@),
                model.root_nodes@.len() == spec_scene_roots(*doc, doc.scenes@.len() as int).len(),
                forall|k: int|
                    0 <= k < model.root_nodes@.len() ==> subtree_resolved(
                        *doc,
                        model.nodes@,
                        model.meshes@,
                        #[trigger] model.root_nodes@[k] as int,
                    ),
                forall|k: int|
                    0 <= k < model.root_nodes@.len() ==> (#[trigger] model.root_nodes@[k]
                        < model.nodes@.len() && model.nodes@[model.root_nodes@[k] as int].parent
                        is None && model.nodes@[model.root_nodes@[k] as int].node_index
                        == spec_scene_roots(*doc, doc.scenes@.len() as int)[k]),
                model.linear_nodes@ == res_nodes@.take(k2 as int),
                model.linear_nodes@.len() == k2,
                model.animations@.len() == 0,
                model.skins@.len() == 0,
                model.textures@ == g_textures,
                model.materials@ == g_materials,
                forall|k: int| 0 <= k < res_nodes@.len() ==> res_nodes@[k] < model.nodes@.len(),
            decreases res_nodes@.len() - k2,
        {
            model.linear_nodes.push(res_nodes[k2]);
            proof {
                assert(model.linear_nodes@ =~= res_nodes@.take(k2 as int + 1));
            }
            k2 = k2 + 1;
        }
        proof {
            assert(res_nodes@.take(res_nodes@.len() as int) =~= res_nodes@);
        }

        // Animations: only those keeping at least one resolved channel.
        let mut extra_diags: Vec<GltfDiagnostic> = Vec::new();
        let mut j: usize = 0;
        while j < doc.animations.len()
            invariant
                j <= doc.animations@.len(),
                model_wf(model),
                nodes_from_doc(model.nodes@, model.meshes@, *doc),
                model.linear_nodes@ == spec_linear_of(model.nodes@, model.root_nodes@),
                model.root_nodes@.len() == spec_scene_roots(*doc, doc.scenes@.len() as int).len(),
                forall|k: int|
                    0 <= k < model.root_nodes@.len() ==> subtree_resolved(
                        *doc,
                        model.nodes@,
                        model.meshes@,
                        #[trigger] model.root_nodes@[k] as int,
                    ),
                forall|k: int|
                    0 <= k < model.root_nodes@.len() ==> (#[trigger] model.root_nodes@[k]
                        < model.nodes@.len() && model.nodes@[model.root_nodes@[k] as int].parent
                        is None && model.nodes@[model.root_nodes@[k] as int].node_index
                        == spec_scene_roots(*doc, doc.scenes@.len() as int)[k]),
                meshes_from_doc(
                    model.meshes@,
                    *doc,
                    crate::primitive::spec_uv_fallback(*options),
                    options.flip_v_coord,
                    options.regenerate_tangents,
                ),
                model.textures@ == g_textures,
                model.materials@ == g_materials,
                model.skins@.len() == 0,
                forall|k: int|
                    0 <= k < model.animations@.len() ==> (#[trigger] model.animations@[k]).channels@.len()
                        > 0,
                forall|k: int|
                    0 <= k < model.animations@.len() ==> (#[trigger] model.animations@[k]).index
                        < j,
                forall|jj: int| #![trigger doc.animations@[jj]]
                    0 <= jj < j && !(exists|cx: int|
                        0 <= cx < doc.animations@[jj].channels@.len() && channel_resolvable(
                            model,
                            #[trigger] doc.animations@[jj].channels@[cx],
                        )) ==> forall|k: int|
                        0 <= k < model.animations@.len() ==> (#[trigger] model.animations@[k]).index
                            != jj,
                forall|jj: int| #![trigger doc.animations@[jj]]
                    0 <= jj < j && (exists|cx: int|
                        0 <= cx < doc.animations@[jj].channels@.len() && channel_resolvable(
                            model,
                            #[trigger] doc.animations@[jj].channels@[cx],
                        )) ==> exists|k: int|
                        0 <= k < model.animations@.len() && (#[trigger] model.animations@[k]).index
                            == jj,
            decreases doc.animations@.len() - j,
        {
            let ghost pre = model;
            let ghost pre_anims = model.animations@;
            match GltfAnimation::from_gltf(&doc.animations[j], j, &model, &mut extra_diags) {
                Ok(anim) => {
                    if anim.channels.len() > 0 {
                        model.animations.push(anim);
                    } else {
                        extra_diags.push(GltfDiagnostic::AnimationDropped { animation_index: j });
                    }
                },
                Err(e) => {
                    return Err(e);
                },
            }
            proof {
                assert forall|jj: int| #![trigger doc.animations@[jj]]
                    0 <= jj < j + 1 && (exists|cx: int|
                        0 <= cx < doc.animations@[jj].channels@.len() && channel_resolvable(
                            model,
                            doc.animations@[jj].channels@[cx],
                        )) implies exists|k: int|
                    0 <= k < model.animations@.len() && (#[trigger] model.animations@[k]).index
                        == jj by {
                    if jj < j {
                        let k = choose|k: int|
                            0 <= k < pre_anims.len() && (#[trigger] pre_anims[k]).index == jj;
                        assert(model.animations@[k] == pre_anims[k]);
                        assert(model.animations@[k].index == jj);
                    } else {
                        assert(model.animations@[model.animations@.len() - 1].index == j);
                    }
                }
            }
            j = j + 1;
        }
        let mut dd: usize = 0;
        while dd < extra_diags.len()
            invariant
                dd <= extra_diags@.len(),
                model_wf(model),
                nodes_from_doc(model.nodes@, model.meshes@, *doc),
                model.linear_nodes@ == spec_linear_of(model.nodes@, model.root_nodes@),
                model.root_nodes@.len() == spec_scene_roots(*doc, doc.scenes@.len() as int).len(),
                forall|k: int|
                    0 <= k < model.root_nodes@.len() ==> subtree_resolved(
                        *doc,
                        model.nodes@,
                        model.meshes@,
                        #[trigger] model.root_nodes@[k] as int,
                    ),
                forall|k: int|
                    0 <= k < model.root_nodes@.len() ==> (#[trigger] model.root_nodes@[k]
                        < model.nodes@.len() && model.nodes@[model.root_nodes@[k] as int].parent
                        is None && model.nodes@[model.root_nodes@[k] as int].node_index
                        == spec_scene_roots(*doc, doc.scenes@.len() as int)[k]),
                meshes_from_doc(
                    model.meshes@,
                    *doc,
                    crate::primitive::spec_uv_fallback(*options),
                    options.flip_v_coord,
                    options.regenerate_tangents,
                ),
                model.textures@ == g_textures,
                model.materials@ == g_materials,
                model.skins@.len() == 0,
                forall|k: int|
                    0 <= k < model.animations@.len() ==> (#[trigger] model.animations@[k]).channels@.len()
                        > 0,
                forall|k: int|
                    0 <= k < model.animations@.len() ==> (#[trigger] model.animations@[k]).index
                        < doc.animations@.len(),
                forall|jj: int| #![trigger doc.animations@[jj]]
                    0 <= jj < doc.animations@.len() && !(exists|cx: int|
                        0 <= cx < doc.animations@[jj].channels@.len() && channel_resolvable(
                            model,
                            #[trigger] doc.animations@[jj].channels@[cx],
                        )) ==> forall|k: int|
                        0 <= k < model.animations@.len() ==> (#[trigger] model.animations@[k]).index
                            != jj,
                forall|jj: int| #![trigger doc.animations@[jj]]
                    0 <= jj < doc.animations@.len() && (exists|cx: int|
                        0 <= cx < doc.animations@[jj].channels@.len() && channel_resolvable(
                            model,
                            #[trigger] doc.animations@[jj].channels@[cx],
                        )) ==> exists|k: int|
                        0 <= k < model.animations@.len() && (#[trigger] model.animations@[k]).index
                            == jj,
            decreases extra_diags@.len() - dd,
        {
            model.diagnostics.push(extra_diags[dd].clone());
            dd = dd + 1;
        }

        // Skins, with identity-filled inverse bind matrices.
        let mut sk: usize = 0;
        while sk < doc.skins.len()
            invariant
                sk <= doc.skins@.len(),
                model_wf(model),
                nodes_from_doc(model.nodes@, model.meshes@, *doc),
                model.linear_nodes@ == spec_linear_of(model.nodes@, model.root_nodes@),
                model.root_nodes@.len() == spec_scene_roots(*doc, doc.scenes@.len() as int).len(),
                forall|k: int|
                    0 <= k < model.root_nodes@.len() ==> subtree_resolved(
                        *doc,
                        model.nodes@,
                        model.meshes@,
                        #[trigger] model.root_nodes@[k] as int,
                    ),
                forall|k: int|
                    0 <= k < model.root_nodes@.len() ==> (#[trigger] model.root_nodes@[k]
                        < model.nodes@.len() && model.nodes@[model.root_nodes@[k] as int].parent
                        is None && model.nodes@[model.root_nodes@[k] as int].node_index
                        == spec_scene_roots(*doc, doc.scenes@.len() as int)[k]),
                forall|k: int|
                    0 <= k < sk ==> ((#[trigger] model.skins@[k]).skin_index == k
                        && model.skins@[k].name == doc.skins@[k].name
                        && model.skins@[k].skeleton_root == doc.skins@[k].skeleton
                        && model.skins@[k].joints@.len() == doc.skins@[k].joints@.len()),
                meshes_from_doc(
                    model.meshes@,
                    *doc,
                    crate::primitive::spec_uv_fallback(*options),
                    options.flip_v_coord,
                    options.regenerate_tangents,
                ),
                model.textures@ == g_textures,
                model.materials@ == g_materials,
                model.skins@.len() == sk,
                forall|k: int|
                    0 <= k < model.animations@.len() ==> (#[trigger] model.animations@[k]).channels@.len()
                        > 0,
                forall|k: int|
                    0 <= k < model.animations@.len() ==> (#[trigger] model.animations@[k]).index
                        < doc.animations@.len(),
                forall|jj: int| #![trigger doc.animations@[jj]]
                    0 <= jj < doc.animations@.len() && !(exists|cx: int|
                        0 <= cx < doc.animations@[jj].channels@.len() && channel_resolvable(
                            model,
                            #[trigger] doc.animations@[jj].channels@[cx],
                        )) ==> forall|k: int|
                        0 <= k < model.animations@.len() ==> (#[trigger] model.animations@[k]).index
                            != jj,
                forall|jj: int| #![trigger doc.animations@[jj]]
                    0 <= jj < doc.animations@.len() && (exists|cx: int|
                        0 <= cx < doc.animations@[jj].channels@.len() && channel_resolvable(
                            model,
                            #[trigger] doc.animations@[jj].channels@[cx],
                        )) ==> exists|k: int|
                        0 <= k < model.animations@.len() && (#[trigger] model.animations@[k]).index
                            == jj,
            decreases doc.skins@.len() - sk,
        {
            let skin = GltfSkin::from_gltf(&doc.skins[sk], sk);
            model.skins.push(skin);
            sk = sk + 1;
        }

        // Scene-wide bounds, last: they need fully linked parents.
        model.compute_dimensions();
        Ok(model)
    }
}

} // verus!
