//! Declared scenes: their root node lists and their bounds.

use vstd::prelude::*;
use crate::{GltfIndex, GltfError, GltfResult, GltfOptions};
use crate::desc::{DocumentDesc, SceneDesc};
use crate::math::{Vector3, Dimensions, spec_dimensions_new, dimensions_sentinel_min,
    dimensions_sentinel_max};
use crate::fp::{F32_POS_INF, F32_NEG_INF};
use crate::model::{GltfModel, model_wf, spec_node_from_index};
use crate::node::{GltfNode, spec_node_dims};

verus! {

pub struct GltfScene {
    pub name: Option<String>,
    /// Source indices of the scene's root nodes.
    pub nodes: Vec<GltfIndex>,
    pub dimensions: Dimensions,
}

/// The scene the options select: the configured index, or the first
/// scene by default.  An index at or beyond the declared scene count is
/// a fatal structural error.
pub fn select_scene(doc: &DocumentDesc, options: &GltfOptions) -> (r: GltfResult<usize>)
    ensures
        ({
            let wanted: usize = match options.scene_index {
                Some(s) => s,
                None => 0,
            };
            match r {
                Ok(i) => i == wanted && i < doc.scenes@.len(),
                Err(e) => e == (GltfError::SceneIndexOutOfRange {
                    given: wanted,
                    count: doc.scenes@.len() as usize,
                }) && wanted >= doc.scenes@.len(),
            }
        }),
{
    let wanted: usize = match options.scene_index {
        Some(s) => s,
        None => 0,
    };
    if wanted >= doc.scenes.len() {
        Err(GltfError::SceneIndexOutOfRange { given: wanted, count: doc.scenes.len() })
    } else {
        Ok(wanted)
    }
}

/// The subtree bounds of the scene's roots, resolved by source index
/// against the linear node list, folded in order into the accumulator.
pub open spec fn spec_scene_dims(m: GltfModel, ns: Seq<GltfIndex>, acc: (Vector3, Vector3)) -> (
    Vector3,
    Vector3,
)
    decreases ns.len(),
{
    if ns.len() == 0 {
        acc
    } else {
        let prev = spec_scene_dims(m, ns.drop_last(), acc);
        match spec_node_from_index(m, ns.last(), 0) {
            Some(a) => spec_node_dims(m, a as int, prev),
            None => prev,
        }
    }
}

impl Default for GltfScene {
    /// The empty scene: no name, no roots, sentinel bounds.
    fn default() -> (r: GltfScene)
        ensures
            r.name is None,
            r.nodes@.len() == 0,
            r.dimensions.min == dimensions_sentinel_min(),
            r.dimensions.max == dimensions_sentinel_max(),
    {
        GltfScene { name: None, nodes: Vec::new(), dimensions: Dimensions::default() }
    }
}

impl GltfScene {
    /// Resolve one scene description: keep its root list and fold the
    /// bounds of every root's subtree, from the infinite sentinels.
    #[verifier::loop_isolation(false)]
    pub fn from_gltf(scene_ref: &SceneDesc, model: &GltfModel) -> (r: GltfResult<GltfScene>)
        requires
            model_wf(*model),
        ensures
            match r {
                Ok(s) => {
                    &&& s.name == scene_ref.name
                    &&& s.nodes@ == scene_ref.nodes@
                    &&& s.dimensions == spec_dimensions_new(
                        spec_scene_dims(
                            *model,
                            scene_ref.nodes@,
                            (dimensions_sentinel_min(), dimensions_sentinel_max()),
                        ).0,
                        spec_scene_dims(
                            *model,
                            scene_ref.nodes@,
                            (dimensions_sentinel_min(), dimensions_sentinel_max()),
                        ).1,
                    )
                },
                Err(_) => false,
            },
    {
        let name: Option<String> = match &scene_ref.name {
            Some(n) => Some(n.clone()),
            None => None,
        };
        let mut nodes: Vec<GltfIndex> = Vec::new();
        let mut k: usize = 0;
        while k < scene_ref.nodes.len()
            invariant
                k <= scene_ref.nodes@.len(),
                nodes@ == scene_ref.nodes@.take(k as int),
            decreases scene_ref.nodes@.len() - k,
        {
            nodes.push(scene_ref.nodes[k]);
            proof {
                assert(nodes@ =~= scene_ref.nodes@.take(k as int + 1));
            }
            k = k + 1;
        }
        proof {
            assert(scene_ref.nodes@.take(scene_ref.nodes@.len() as int) =~= scene_ref.nodes@);
        }
        let mut min = Vector3 { x: F32_POS_INF, y: F32_POS_INF, z: F32_POS_INF };
        let mut max = Vector3 { x: F32_NEG_INF, y: F32_NEG_INF, z: F32_NEG_INF };
        let ghost sentinels = (min, max);
        let mut t: usize = 0;
        proof {
            assert(scene_ref.nodes@.take(0) =~= Seq::<GltfIndex>::empty());
        }
        while t < scene_ref.nodes.len()
            invariant
                t <= scene_ref.nodes@.len(),
                (min, max) == spec_scene_dims(*model, scene_ref.nodes@.take(t as int), sentinels),
            decreases scene_ref.nodes@.len() - t,
        {
            let node_index = scene_ref.nodes[t];
            match model.node_from_index(node_index) {
                Some(a) => {
                    GltfNode::compute_dimensions(model, a, &mut min, &mut max);
                },
                None => {},
            }
            proof {
                assert(scene_ref.nodes@.take(t as int + 1).drop_last() =~= scene_ref.nodes@.take(
                    t as int,
                ));
                assert(scene_ref.nodes@.take(t as int + 1).last() == scene_ref.nodes@[t as int]);
            }
            t = t + 1;
        }
        Ok(GltfScene { name, nodes, dimensions: Dimensions::new(min, max) })
    }
}

} // verus!
