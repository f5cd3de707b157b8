//! Meshes: ordered primitives under one source mesh index, shared
//! across nodes through the model's mesh arena.

use vstd::prelude::*;
use crate::{GltfIndex, GltfError, GltfResult, GltfOptions};
use crate::desc::{MeshDesc, DocumentDesc};
use crate::math::Vector2;
use crate::primitive::{GltfPrimitive, prim_from_desc, spec_uv_fallback, desc_static_error};
use crate::desc::PrimitiveDesc;
use crate::model::{GltfModel, model_extended, lemma_model_extended_trans, index_buffer_wf,
    prim_range_wf};

verus! {

pub struct GltfMesh {
    /// The source mesh index this mesh was built from.
    pub index: GltfIndex,
    pub primitives: Vec<GltfPrimitive>,
    pub name: Option<String>,
}

/// A built mesh is exactly the reconciliation of the source mesh its
/// index names: same name, one built primitive per description, each
/// pinned by `prim_from_desc`.
pub open spec fn mesh_from_doc(
    mesh: GltfMesh,
    doc: DocumentDesc,
    fallback: Vector2,
    flip: bool,
    regenerate: bool,
) -> bool {
    &&& mesh.index < doc.meshes@.len()
    &&& mesh.name == doc.meshes@[mesh.index as int].name
    &&& mesh.primitives@.len() == doc.meshes@[mesh.index as int].primitives@.len()
    &&& forall|k: int|
        0 <= k < mesh.primitives@.len() ==> prim_from_desc(
            #[trigger] mesh.primitives@[k],
            doc.meshes@[mesh.index as int].primitives@[k],
            k as GltfIndex,
            mesh.index,
            fallback,
            flip,
            regenerate,
        )
}

/// The first buffer-independent fatal condition among the first `upto`
/// primitive descriptions of one mesh.
pub open spec fn mesh_static_error(
    prims: Seq<PrimitiveDesc>,
    mesh_index: GltfIndex,
    upto: int,
) -> Option<GltfError>
    decreases upto,
{
    if upto <= 0 {
        None
    } else {
        match mesh_static_error(prims, mesh_index, upto - 1) {
            Some(e) => Some(e),
            None => desc_static_error(prims[upto - 1], mesh_index, (upto - 1) as GltfIndex),
        }
    }
}

/// A first error stays the first error however far the scan continues.
pub proof fn lemma_mesh_static_error_mono(
    prims: Seq<PrimitiveDesc>,
    mesh_index: GltfIndex,
    upto: int,
    upto2: int,
)
    requires
        0 <= upto <= upto2,
        mesh_static_error(prims, mesh_index, upto) is Some,
    ensures
        mesh_static_error(prims, mesh_index, upto2) == mesh_static_error(
            prims,
            mesh_index,
            upto,
        ),
    decreases upto2 - upto,
{
    if upto < upto2 {
        lemma_mesh_static_error_mono(prims, mesh_index, upto, upto2 - 1);
    }
}

/// Every mesh of the arena is the reconciliation of its source mesh.
pub open spec fn meshes_from_doc(
    meshes: Seq<GltfMesh>,
    doc: DocumentDesc,
    fallback: Vector2,
    flip: bool,
    regenerate: bool,
) -> bool {
    forall|h: int|
        0 <= h < meshes.len() ==> mesh_from_doc(#[trigger] meshes[h], doc, fallback, flip, regenerate)
}

impl GltfMesh {
    /// Build every primitive of one mesh description, in order,
    /// appending each primitive's expanded vertices and indices to the
    /// model's global buffers.  The first failing primitive aborts the
    /// whole mesh.
    pub fn from_gltf(
        mesh_ref: &MeshDesc,
        mesh_index: GltfIndex,
        model: &mut GltfModel,
        options: &GltfOptions,
    ) -> (r: GltfResult<GltfMesh>)
        ensures
            model_extended(*old(model), *final(model)),
            index_buffer_wf(*old(model)) ==> index_buffer_wf(*final(model)),
            match r {
                Ok(m) => {
                    &&& mesh_static_error(
                        mesh_ref.primitives@,
                        mesh_index,
                        mesh_ref.primitives@.len() as int,
                    ) is None
                    &&& m.index == mesh_index
                    &&& m.name == mesh_ref.name
                    &&& m.primitives@.len() == mesh_ref.primitives@.len()
                    &&& forall|k: int|
                        0 <= k < m.primitives@.len() ==> prim_range_wf(
                            #[trigger] m.primitives@[k],
                            *final(model),
                        )
                    &&& forall|k: int|
                        0 <= k < m.primitives@.len() ==> (#[trigger] m.primitives@[k]).mesh_index
                            == mesh_index
                    &&& forall|k: int|
                        0 <= k < m.primitives@.len() ==> prim_from_desc(
                            #[trigger] m.primitives@[k],
                            mesh_ref.primitives@[k],
                            k as GltfIndex,
                            mesh_index,
                            spec_uv_fallback(*options),
                            options.flip_v_coord,
                            options.regenerate_tangents,
                        )
                },
                Err(e) => e == GltfError::CapacityExceeded || mesh_static_error(
                    mesh_ref.primitives@,
                    mesh_index,
                    mesh_ref.primitives@.len() as int,
                ) == Some(e),
            },
    {
        let ghost m0 = *model;
        let mut primitives: Vec<GltfPrimitive> = Vec::new();
        let mut i: usize = 0;
        while i < mesh_ref.primitives.len()
            invariant
                i <= mesh_ref.primitives@.len(),
                primitives@.len() == i,
                m0 == *old(model),
                model_extended(m0, *model),
                index_buffer_wf(m0) ==> index_buffer_wf(*model),
                forall|k: int|
                    0 <= k < i ==> prim_range_wf(#[trigger] primitives@[k], *model),
                forall|k: int|
                    0 <= k < i ==> (#[trigger] primitives@[k]).mesh_index == mesh_index,
                forall|k: int|
                    0 <= k < i ==> prim_from_desc(
                        #[trigger] primitives@[k],
                        mesh_ref.primitives@[k],
                        k as GltfIndex,
                        mesh_index,
                        spec_uv_fallback(*options),
                        options.flip_v_coord,
                        options.regenerate_tangents,
                    ),
                mesh_static_error(mesh_ref.primitives@, mesh_index, i as int) is None,
            decreases mesh_ref.primitives@.len() - i,
        {
            let ghost m_before = *model;
            let p = GltfPrimitive::from_gltf(&mesh_ref.primitives[i], i, mesh_index, model, options);
            proof {
                lemma_model_extended_trans(m0, m_before, *model);
            }
            match p {
                Ok(p) => {
                    assert(prim_range_wf(p, *model));
                    primitives.push(p);
                },
                Err(e) => {
                    proof {
                        if e != GltfError::CapacityExceeded {
                            assert(desc_static_error(
                                mesh_ref.primitives@[i as int],
                                mesh_index,
                                i as GltfIndex,
                            ) == Some(e));
                            assert(mesh_static_error(
                                mesh_ref.primitives@,
                                mesh_index,
                                i as int + 1,
                            ) == Some(e));
                            lemma_mesh_static_error_mono(
                                mesh_ref.primitives@,
                                mesh_index,
                                i as int + 1,
                                mesh_ref.primitives@.len() as int,
                            );
                        }
                    }
                    return Err(e);
                },
            }
            i = i + 1;
        }
        let name: Option<String> = match &mesh_ref.name {
            Some(n) => Some(n.clone()),
            None => None,
        };
        Ok(GltfMesh { index: mesh_index, primitives, name })
    }
}

} // verus!
