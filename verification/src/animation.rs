//! Skins, animation samplers and per-node animation channels.

use vstd::prelude::*;
use crate::{GltfIndex, GltfError, GltfResult, GltfDiagnostic};
use crate::desc::{SkinDesc, SamplerDesc, SamplerOutputs, InterpolationDesc, AnimationDesc,
    TargetProperty};
use crate::math::{Vector4, Matrix4, mat4_identity};
use crate::fp::{f32_min, f32_max, F32_POS_ZERO, F32_GREATEST, F32_LEAST};
use crate::model::GltfModel;

verus! {

#[derive(Clone, Copy, PartialEq, Eq, Structural, Debug)]
pub enum GltfInterpolationType {
    Linear,
    Step,
    CatmullRomSpline,
    CubicSpline,
}

/// A joint: the node it binds and its global joint index, resolved
/// later.
#[derive(Clone, Copy, PartialEq, Eq, Structural, Debug)]
pub struct GltfJointNode {
    pub node_index: GltfIndex,
    pub global_index: Option<GltfIndex>,
}

pub struct GltfSkin {
    pub skin_index: GltfIndex,
    pub name: Option<String>,
    pub skeleton_root: Option<GltfIndex>,
    /// One inverse bind matrix per joint; identity-filled when the
    /// source omits them.
    pub inv_bind_matrices: Vec<Matrix4>,
    pub joints: Vec<GltfJointNode>,
}

impl GltfSkin {
    /// Resolve one skin description.  Joints keep their node indices
    /// with the global index unresolved; missing inverse bind matrices
    /// are filled with one identity per joint.
    pub fn from_gltf(skin_ref: &SkinDesc, skin_index: GltfIndex) -> (r: GltfSkin)
        ensures
            r.skin_index == skin_index,
            r.name == skin_ref.name,
            r.skeleton_root == skin_ref.skeleton,
            r.joints@.len() == skin_ref.joints@.len(),
            forall|k: int|
                0 <= k < r.joints@.len() ==> r.joints@[k] == (GltfJointNode {
                    node_index: skin_ref.joints@[k],
                    global_index: None,
                }),
            r.inv_bind_matrices@ == (match skin_ref.inverse_bind_matrices {
                Some(ms) => ms@,
                None => Seq::new(skin_ref.joints@.len(), |k: int| mat4_identity()),
            }),
    {
        let name: Option<String> = match &skin_ref.name {
            Some(n) => Some(n.clone()),
            None => None,
        };
        let mut joints: Vec<GltfJointNode> = Vec::new();
        let mut k: usize = 0;
        while k < skin_ref.joints.len()
            invariant
                k <= skin_ref.joints@.len(),
                joints@.len() == k,
                forall|j: int|
                    0 <= j < k ==> joints@[j] == (GltfJointNode {
                        node_index: skin_ref.joints@[j],
                        global_index: None,
                    }),
            decreases skin_ref.joints@.len() - k,
        {
            joints.push(GltfJointNode { node_index: skin_ref.joints[k], global_index: None });
            k = k + 1;
        }
        let inv_bind_matrices: Vec<Matrix4> = match &skin_ref.inverse_bind_matrices {
            Some(ms) => ms.clone(),
            None => {
                let mut filled: Vec<Matrix4> = Vec::new();
                let mut j: usize = 0;
                while j < joints.len()
                    invariant
                        j <= joints@.len(),
                        filled@.len() == j,
                        forall|t: int| 0 <= t < j ==> filled@[t] == mat4_identity(),
                    decreases joints@.len() - j,
                {
                    filled.push(Matrix4::identity());
                    j = j + 1;
                }
                filled
            },
        };
        proof {
            if skin_ref.inverse_bind_matrices is None {
                assert(inv_bind_matrices@ =~= Seq::new(
                    skin_ref.joints@.len(),
                    |k: int| mat4_identity(),
                ));
            }
        }
        GltfSkin { skin_index, name, skeleton_root: skin_ref.skeleton, inv_bind_matrices, joints }
    }
}

/// One resolved sampler: timestamps and output values widened to four
/// components.
pub struct GltfAnimationSampler {
    pub interpolation_type: GltfInterpolationType,
    pub inputs: Vec<u32>,
    pub outputs: Vec<Vector4>,
}

/// Output values widened to `Vector4`: a scalar is splatted into all
/// four lanes, a three-vector is padded with a zero fourth lane.
pub open spec fn spec_widen_outputs(outputs: SamplerOutputs) -> Seq<Vector4> {
    match outputs {
        SamplerOutputs::Scalars(s) => Seq::new(
            s@.len(),
            |k: int| Vector4 { x: s@[k], y: s@[k], z: s@[k], w: s@[k] },
        ),
        SamplerOutputs::Vec3s(v) => Seq::new(
            v@.len(),
            |k: int| Vector4 { x: v@[k].x, y: v@[k].y, z: v@[k].z, w: F32_POS_ZERO },
        ),
        SamplerOutputs::Vec4s(v) => v@,
    }
}

pub open spec fn spec_interpolation(i: InterpolationDesc) -> GltfInterpolationType {
    match i {
        InterpolationDesc::Linear => GltfInterpolationType::Linear,
        InterpolationDesc::Step => GltfInterpolationType::Step,
        InterpolationDesc::CatmullRomSpline => GltfInterpolationType::CatmullRomSpline,
        InterpolationDesc::CubicSpline => GltfInterpolationType::CubicSpline,
    }
}

impl GltfAnimationSampler {
    /// Resolve one sampler description: the interpolation mode is
    /// mapped across, timestamps are kept and outputs are widened.
    pub fn from_gltf(sampler_ref: &SamplerDesc) -> (r: GltfAnimationSampler)
        ensures
            r.interpolation_type == spec_interpolation(sampler_ref.interpolation),
            r.inputs@ == sampler_ref.inputs@,
            r.outputs@ == spec_widen_outputs(sampler_ref.outputs),
    {
        let interpolation = match sampler_ref.interpolation {
            InterpolationDesc::Linear => GltfInterpolationType::Linear,
            InterpolationDesc::Step => GltfInterpolationType::Step,
            InterpolationDesc::CatmullRomSpline => GltfInterpolationType::CatmullRomSpline,
            InterpolationDesc::CubicSpline => GltfInterpolationType::CubicSpline,
        };
        let inputs: Vec<u32> = sampler_ref.inputs.clone();
        let outputs: Vec<Vector4> = match &sampler_ref.outputs {
            SamplerOutputs::Scalars(s) => {
                let mut out: Vec<Vector4> = Vec::new();
                let mut k: usize = 0;
                while k < s.len()
                    invariant
                        k <= s@.len(),
                        out@.len() == k,
                        forall|j: int|
                            0 <= j < k ==> out@[j] == (Vector4 {
                                x: s@[j],
                                y: s@[j],
                                z: s@[j],
                                w: s@[j],
                            }),
                    decreases s@.len() - k,
                {
                    let x = s[k];
                    out.push(Vector4 { x, y: x, z: x, w: x });
                    k = k + 1;
                }
                out
            },
            SamplerOutputs::Vec3s(v) => {
                let mut out: Vec<Vector4> = Vec::new();
                let mut k: usize = 0;
                while k < v.len()
                    invariant
                        k <= v@.len(),
                        out@.len() == k,
                        forall|j: int|
                            0 <= j < k ==> out@[j] == (Vector4 {
                                x: v@[j].x,
                                y: v@[j].y,
                                z: v@[j].z,
                                w: F32_POS_ZERO,
                            }),
                    decreases v@.len() - k,
                {
                    let p = v[k];
                    out.push(Vector4 { x: p.x, y: p.y, z: p.z, w: F32_POS_ZERO });
                    k = k + 1;
                }
                out
            },
            SamplerOutputs::Vec4s(v) => v.clone(),
        };
        proof {
            assert(outputs@ =~= spec_widen_outputs(sampler_ref.outputs));
        }
        GltfAnimationSampler { interpolation_type: interpolation, inputs, outputs }
    }
}

/// The per-node channel: up to one sampler for each of translation,
/// rotation and scale.  `node` is an index into the model's node arena.
pub struct GltfAnimationChannel {
    pub node: usize,
    pub rotation_sampler: Option<GltfAnimationSampler>,
    pub translation_sampler: Option<GltfAnimationSampler>,
    pub scale_sampler: Option<GltfAnimationSampler>,
}

/// One animation: its samplers, its per-node merged channels, the
/// node-index-to-channel lookup and the overall time range.
pub struct GltfAnimation {
    pub index: GltfIndex,
    pub name: Option<String>,
    pub samplers: Vec<GltfAnimationSampler>,
    pub channels: Vec<GltfAnimationChannel>,
    /// Pairs of source node index and channel position.
    pub node_to_channel: Vec<(GltfIndex, usize)>,
    pub start: u32,
    pub end: u32,
}

/// One sampler's timestamps folded into a running minimum, first to
/// last, the accumulator on the left.
pub open spec fn spec_fold_min(inputs: Seq<u32>, acc: u32) -> u32
    decreases inputs.len(),
{
    if inputs.len() == 0 {
        acc
    } else {
        spec_fold_min(inputs.drop_first(), f32_min(acc, inputs.first()))
    }
}

pub open spec fn spec_fold_max(inputs: Seq<u32>, acc: u32) -> u32
    decreases inputs.len(),
{
    if inputs.len() == 0 {
        acc
    } else {
        spec_fold_max(inputs.drop_first(), f32_max(acc, inputs.first()))
    }
}

/// The running minimum of all timestamps across the samplers, in
/// declaration order.
pub open spec fn spec_range_min(samplers: Seq<SamplerDesc>, acc: u32) -> u32
    decreases samplers.len(),
{
    if samplers.len() == 0 {
        acc
    } else {
        spec_range_min(samplers.drop_first(), spec_fold_min(samplers.first().inputs@, acc))
    }
}

pub open spec fn spec_range_max(samplers: Seq<SamplerDesc>, acc: u32) -> u32
    decreases samplers.len(),
{
    if samplers.len() == 0 {
        acc
    } else {
        spec_range_max(samplers.drop_first(), spec_fold_max(samplers.first().inputs@, acc))
    }
}

/// The channel can be associated with a resolved node: some entry of
/// the linear node list carries the channel's target source index.
/// Spec image of one merged channel: the target arena node and, per
/// transform property, the index of the sampler description assigned
/// to that slot.
pub struct ChannelSlots {
    pub node: usize,
    pub translation: Option<usize>,
    pub rotation: Option<usize>,
    pub scale: Option<usize>,
}

/// The first merged record carrying the given node, scanning from `k`.
pub open spec fn spec_slot_find(prev: Seq<ChannelSlots>, a: usize, k: int) -> Option<int>
    decreases prev.len() - k,
{
    if 0 <= k < prev.len() {
        if prev[k].node == a {
            Some(k)
        } else {
            spec_slot_find(prev, a, k + 1)
        }
    } else {
        None
    }
}

/// The merged channel list after the first `upto` raw channels: a
/// channel whose target resolves lands its sampler in the slot of its
/// declared property on its node's single merged record, opening the
/// record if needed; later channels for the same node and property win;
/// a morph-target channel only opens the record; an unresolvable
/// channel contributes nothing.
pub open spec fn spec_merged(m: GltfModel, cs: Seq<crate::desc::ChannelDesc>, upto: int) -> Seq<
    ChannelSlots,
>
    decreases upto,
{
    if upto <= 0 {
        Seq::empty()
    } else {
        let prev = spec_merged(m, cs, upto - 1);
        let c = cs[upto - 1];
        match crate::model::spec_node_from_index(m, c.target_node, 0) {
            None => prev,
            Some(a) => {
                let base = match spec_slot_find(prev, a, 0) {
                    Some(j) => prev[j],
                    None => ChannelSlots {
                        node: a,
                        translation: None,
                        rotation: None,
                        scale: None,
                    },
                };
                let updated = match c.property {
                    TargetProperty::Translation => ChannelSlots {
                        translation: Some(c.sampler),
                        ..base
                    },
                    TargetProperty::Rotation => ChannelSlots { rotation: Some(c.sampler), ..base },
                    TargetProperty::Scale => ChannelSlots { scale: Some(c.sampler), ..base },
                    TargetProperty::MorphTargetWeights => base,
                };
                match spec_slot_find(prev, a, 0) {
                    Some(j) => prev.update(j, updated),
                    None => prev.push(updated),
                }
            },
        }
    }
}

/// A resolved sampler value carries exactly one sampler description.
pub open spec fn sampler_matches(s: GltfAnimationSampler, d: SamplerDesc) -> bool {
    &&& s.interpolation_type == spec_interpolation(d.interpolation)
    &&& s.inputs@ == d.inputs@
    &&& s.outputs@ == spec_widen_outputs(d.outputs)
}

/// A merged slot holds the resolved sampler its spec image names, and
/// is empty exactly when the image is.
pub open spec fn slot_filled(
    slot: Option<GltfAnimationSampler>,
    idx: Option<usize>,
    samplers: Seq<SamplerDesc>,
) -> bool {
    match (slot, idx) {
        (Some(sm), Some(ci)) => ci < samplers.len() && sampler_matches(sm, samplers[ci as int]),
        (None, None) => true,
        _ => false,
    }
}

pub open spec fn channel_matches(
    ch: GltfAnimationChannel,
    ms: ChannelSlots,
    samplers: Seq<SamplerDesc>,
) -> bool {
    &&& ch.node == ms.node
    &&& slot_filled(ch.translation_sampler, ms.translation, samplers)
    &&& slot_filled(ch.rotation_sampler, ms.rotation, samplers)
    &&& slot_filled(ch.scale_sampler, ms.scale, samplers)
}

/// A first match with a clear prefix pins the spec scan.
proof fn lemma_slot_find_hits(prev: Seq<ChannelSlots>, a: usize, j: int, k: int)
    requires
        0 <= k <= j < prev.len(),
        prev[j].node == a,
        forall|i: int| k <= i < j ==> (#[trigger] prev[i]).node != a,
    ensures
        spec_slot_find(prev, a, k) == Some(j),
    decreases j - k,
{
    if k < j {
        lemma_slot_find_hits(prev, a, j, k + 1);
    }
}

/// No record carries the node: the spec scan misses.
proof fn lemma_slot_find_misses(prev: Seq<ChannelSlots>, a: usize, k: int)
    requires
        forall|i: int| k <= i < prev.len() ==> (#[trigger] prev[i]).node != a,
    ensures
        spec_slot_find(prev, a, k) is None,
    decreases prev.len() - k,
{
    if 0 <= k < prev.len() {
        lemma_slot_find_misses(prev, a, k + 1);
    }
}

pub open spec fn channel_resolvable(m: GltfModel, c: crate::desc::ChannelDesc) -> bool {
    exists|k: int|
        0 <= k < m.linear_nodes@.len() && m.linear_nodes@[k] < m.nodes@.len() && m.nodes@[
            m.linear_nodes@[k] as int
        ].node_index == c.target_node
}

impl GltfAnimation {
    /// Merge one animation description against the already-resolved
    /// node list.  Channels are merged per target node; a channel whose
    /// target cannot be found is dropped with a diagnostic, and a
    /// morph-target channel is reported and left without samplers.  The
    /// animation keeps at least one channel exactly when some channel's
    /// target resolves.
    pub fn from_gltf(
        animation_ref: &AnimationDesc,
        animation_index: GltfIndex,
        model: &GltfModel,
        diagnostics: &mut Vec<GltfDiagnostic>,
    ) -> (r: GltfResult<GltfAnimation>)
        ensures
            old(diagnostics)@.is_prefix_of(final(diagnostics)@),
            match r {
                Ok(anim) => {
                    &&& anim.index == animation_index
                    &&& anim.name == animation_ref.name
                    &&& anim.samplers@.len() == animation_ref.samplers@.len()
                    &&& anim.start == spec_range_min(animation_ref.samplers@, F32_GREATEST)
                    &&& anim.end == spec_range_max(animation_ref.samplers@, F32_LEAST)
                    &&& forall|k: int|
                        0 <= k < anim.channels@.len() ==> (#[trigger] anim.channels@[k]).node
                            < model.nodes@.len()
                    &&& ((anim.channels@.len() > 0) <==> (exists|j: int|
                        0 <= j < animation_ref.channels@.len() && channel_resolvable(
                            *model,
                            #[trigger] animation_ref.channels@[j],
                        )))
                    &&& anim.node_to_channel@.len() == anim.channels@.len()
                    &&& forall|k: int|
                        0 <= k < anim.channels@.len() ==> #[trigger] anim.node_to_channel@[k]
                            == (model.nodes@[anim.channels@[k].node as int].node_index, k as usize)
                    &&& forall|j: int|
                        0 <= j < animation_ref.channels@.len() ==> (#[trigger] animation_ref.channels@[j]).sampler
                            < animation_ref.samplers@.len()
                    &&& anim.channels@.len() == spec_merged(
                        *model,
                        animation_ref.channels@,
                        animation_ref.channels@.len() as int,
                    ).len()
                    &&& forall|k: int|
                        0 <= k < anim.channels@.len() ==> channel_matches(
                            #[trigger] anim.channels@[k],
                            spec_merged(
                                *model,
                                animation_ref.channels@,
                                animation_ref.channels@.len() as int,
                            )[k],
                            animation_ref.samplers@,
                        )
                    &&& forall|i: int, j: int|
                        #![trigger anim.channels@[i], anim.channels@[j]]
                        0 <= i < j < anim.channels@.len() ==> anim.channels@[i].node
                            != anim.channels@[j].node
                    &&& forall|j: int|
                        0 <= j < animation_ref.channels@.len() && !channel_resolvable(
                            *model,
                            #[trigger] animation_ref.channels@[j],
                        ) ==> final(diagnostics)@.contains(
                            GltfDiagnostic::ChannelTargetNotFound {
                                animation_index,
                                node_index: animation_ref.channels@[j].target_node,
                            },
                        )
                    &&& forall|j: int|
                        0 <= j < animation_ref.channels@.len() && channel_resolvable(
                            *model,
                            #[trigger] animation_ref.channels@[j],
                        ) && animation_ref.channels@[j].property
                            == TargetProperty::MorphTargetWeights
                            ==> final(diagnostics)@.contains(
                            GltfDiagnostic::MorphTargetChannel { animation_index },
                        )
                },
                Err(e) => {
                    &&& e == GltfError::InvalidReference
                    &&& exists|j: int|
                        0 <= j < animation_ref.channels@.len() && (#[trigger] animation_ref.channels@[j]).sampler
                            >= animation_ref.samplers@.len()
                },
            },
    {
        let name: Option<String> = match &animation_ref.name {
            Some(n) => Some(n.clone()),
            None => None,
        };
        let mut samplers: Vec<GltfAnimationSampler> = Vec::new();
        let mut s: usize = 0;
        while s < animation_ref.samplers.len()
            invariant
                s <= animation_ref.samplers@.len(),
                samplers@.len() == s,
            decreases animation_ref.samplers@.len() - s,
        {
            samplers.push(GltfAnimationSampler::from_gltf(&animation_ref.samplers[s]));
            s = s + 1;
        }
        // Overall time range: the running minimum and maximum over every
        // sampler's timestamps, from the greatest-finite sentinels.
        let mut start: u32 = F32_GREATEST;
        let mut end: u32 = F32_LEAST;
        let mut t: usize = 0;
        proof {
            assert(animation_ref.samplers@.skip(0) =~= animation_ref.samplers@);
        }
        while t < animation_ref.samplers.len()
            invariant
                t <= animation_ref.samplers@.len(),
                spec_range_min(animation_ref.samplers@.skip(t as int), start) == spec_range_min(
                    animation_ref.samplers@,
                    F32_GREATEST,
                ),
                spec_range_max(animation_ref.samplers@.skip(t as int), end) == spec_range_max(
                    animation_ref.samplers@,
                    F32_LEAST,
                ),
            decreases animation_ref.samplers@.len() - t,
        {
            let inputs = &animation_ref.samplers[t].inputs;
            let ghost pre_start = start;
            let ghost pre_end = end;
            let mut u: usize = 0;
            proof {
                assert(inputs@.skip(0) =~= inputs@);
            }
            while u < inputs.len()
                invariant
                    u <= inputs@.len(),
                    spec_fold_min(inputs@.skip(u as int), start) == spec_fold_min(
                        inputs@,
                        pre_start,
                    ),
                    spec_fold_max(inputs@.skip(u as int), end) == spec_fold_max(inputs@, pre_end),
                decreases inputs@.len() - u,
            {
                proof {
                    assert(inputs@.skip(u as int).drop_first() =~= inputs@.skip(u as int + 1));
                }
                start = crate::fp::min_bits(start, inputs[u]);
                end = crate::fp::max_bits(end, inputs[u]);
                u = u + 1;
            }
            proof {
                assert(inputs@.skip(0) =~= inputs@);
                assert(inputs@.skip(inputs@.len() as int) =~= Seq::<u32>::empty());
                assert(animation_ref.samplers@.skip(t as int).drop_first()
                    =~= animation_ref.samplers@.skip(t as int + 1));
                assert(animation_ref.samplers@.skip(t as int).first() == animation_ref.samplers@[
                    t as int
                ]);
            }
            t = t + 1;
        }
        proof {
            assert(animation_ref.samplers@.skip(0) =~= animation_ref.samplers@);
            assert(animation_ref.samplers@.skip(animation_ref.samplers@.len() as int)
                =~= Seq::<SamplerDesc>::empty());
        }
        // Merge channels per target node.
        let ghost cs = animation_ref.channels@;
        let ghost sds = animation_ref.samplers@;
        let mut channels: Vec<GltfAnimationChannel> = Vec::new();
        let mut c: usize = 0;
        proof {
            assert(old(diagnostics)@.is_prefix_of(diagnostics@)) by {
                assert(old(diagnostics)@ =~= diagnostics@.subrange(
                    0,
                    old(diagnostics)@.len() as int,
                ));
            }
        }
        while c < animation_ref.channels.len()
            invariant
                c <= cs.len(),
                cs == animation_ref.channels@,
                sds == animation_ref.samplers@,
                old(diagnostics)@.is_prefix_of(diagnostics@),
                forall|j: int|
                    0 <= j < c ==> (#[trigger] cs[j]).sampler < sds.len(),
                forall|k: int|
                    0 <= k < channels@.len() ==> (#[trigger] channels@[k]).node
                        < model.nodes@.len(),
                (channels@.len() > 0) <==> (exists|j: int|
                    0 <= j < c && channel_resolvable(*model, #[trigger] cs[j])),
                channels@.len() == spec_merged(*model, cs, c as int).len(),
                forall|k: int|
                    0 <= k < channels@.len() ==> channel_matches(
                        #[trigger] channels@[k],
                        spec_merged(*model, cs, c as int)[k],
                        sds,
                    ),
                forall|i: int, j: int|
                    #![trigger channels@[i], channels@[j]]
                    0 <= i < j < channels@.len() ==> channels@[i].node != channels@[j].node,
                forall|j: int|
                    0 <= j < c && !channel_resolvable(*model, #[trigger] cs[j])
                        ==> diagnostics@.contains(
                        GltfDiagnostic::ChannelTargetNotFound {
                            animation_index,
                            node_index: cs[j].target_node,
                        },
                    ),
                forall|j: int|
                    0 <= j < c && channel_resolvable(*model, #[trigger] cs[j]) && cs[j].property
                        == TargetProperty::MorphTargetWeights ==> diagnostics@.contains(
                        GltfDiagnostic::MorphTargetChannel { animation_index },
                    ),
            decreases cs.len() - c,
        {
            let ghost prev_spec = spec_merged(*model, cs, c as int);
            let ghost pre_diags = diagnostics@;
            let channel_ref = &animation_ref.channels[c];
            if channel_ref.sampler >= animation_ref.samplers.len() {
                return Err(GltfError::InvalidReference);
            }
            match model.node_from_index(channel_ref.target_node) {
                Some(a) => {
                    proof {
                        crate::model::lemma_node_from_index_exists(
                            *model,
                            channel_ref.target_node,
                            0,
                        );
                        assert(channel_resolvable(*model, cs[c as int]));
                    }
                    // The node's single merged record: found, or opened.
                    let slot = find_channel(&channels, a);
                    let j: usize = match slot {
                        Some(j) => {
                            proof {
                                assert forall|k: int| 0 <= k < j implies (#[trigger] prev_spec[
                                    k
                                ]).node != a by {
                                    assert(channel_matches(channels@[k], prev_spec[k], sds));
                                }
                                assert(prev_spec[j as int].node == a) by {
                                    assert(channel_matches(
                                        channels@[j as int],
                                        prev_spec[j as int],
                                        sds,
                                    ));
                                }
                                lemma_slot_find_hits(prev_spec, a, j as int, 0);
                            }
                            j
                        },
                        None => {
                            proof {
                                assert forall|k: int|
                                    0 <= k < prev_spec.len() implies (#[trigger] prev_spec[
                                    k
                                ]).node != a by {
                                    assert(channel_matches(channels@[k], prev_spec[k], sds));
                                }
                                lemma_slot_find_misses(prev_spec, a, 0);
                            }
                            channels.push(
                                GltfAnimationChannel {
                                    node: a,
                                    rotation_sampler: None,
                                    translation_sampler: None,
                                    scale_sampler: None,
                                },
                            );
                            channels.len() - 1
                        },
                    };
                    let is_morph = match channel_ref.property {
                        TargetProperty::MorphTargetWeights => true,
                        _ => false,
                    };
                    if is_morph {
                        // Morph-target channels are outside scope: the
                        // record may have been opened, but no sampler
                        // slot is assigned.
                        diagnostics.push(GltfDiagnostic::MorphTargetChannel { animation_index });
                        proof {
                            assert(diagnostics@.contains(
                                GltfDiagnostic::MorphTargetChannel { animation_index },
                            )) by {
                                assert(diagnostics@[diagnostics@.len() - 1]
                                    == GltfDiagnostic::MorphTargetChannel { animation_index });
                            }
                            assert(pre_diags.is_prefix_of(diagnostics@)) by {
                                assert(pre_diags =~= diagnostics@.subrange(
                                    0,
                                    pre_diags.len() as int,
                                ));
                            }
                            crate::model::lemma_prefix_trans(
                                old(diagnostics)@,
                                pre_diags,
                                diagnostics@,
                            );
                            match spec_slot_find(prev_spec, a, 0) {
                                Some(sj) => {
                                    assert(prev_spec.update(sj, prev_spec[sj]) =~= prev_spec);
                                },
                                None => {},
                            }
                        }
                    } else {
                        let sampler = GltfAnimationSampler::from_gltf(
                            &animation_ref.samplers[channel_ref.sampler],
                        );
                        assign_slot(&mut channels, j, sampler, channel_ref.property);
                    }
                },
                None => {
                    proof {
                        crate::model::lemma_node_from_index_exists(
                            *model,
                            channel_ref.target_node,
                            0,
                        );
                        assert(!channel_resolvable(*model, cs[c as int]));
                    }
                    diagnostics.push(
                        GltfDiagnostic::ChannelTargetNotFound {
                            animation_index,
                            node_index: channel_ref.target_node,
                        },
                    );
                    proof {
                        assert(diagnostics@.contains(
                            GltfDiagnostic::ChannelTargetNotFound {
                                animation_index,
                                node_index: cs[c as int].target_node,
                            },
                        )) by {
                            assert(diagnostics@[diagnostics@.len() - 1]
                                == GltfDiagnostic::ChannelTargetNotFound {
                                animation_index,
                                node_index: cs[c as int].target_node,
                            });
                        }
                        assert(pre_diags.is_prefix_of(diagnostics@)) by {
                            assert(pre_diags =~= diagnostics@.subrange(
                                0,
                                pre_diags.len() as int,
                            ));
                        }
                        crate::model::lemma_prefix_trans(
                            old(diagnostics)@,
                            pre_diags,
                            diagnostics@,
                        );
                    }
                },
            }
            proof {
                assert forall|jj: int|
                    0 <= jj < pre_diags.len() implies diagnostics@.contains(
                    #[trigger] pre_diags[jj],
                ) by {
                    assert(diagnostics@[jj] == pre_diags[jj]);
                }
            }
            c = c + 1;
        }
        // The per-node channel lookup, in channel order.
        let mut node_to_channel: Vec<(GltfIndex, usize)> = Vec::new();
        let mut q: usize = 0;
        while q < channels.len()
            invariant
                q <= channels@.len(),
                node_to_channel@.len() == q,
                forall|k: int|
                    0 <= k < channels@.len() ==> (#[trigger] channels@[k]).node
                        < model.nodes@.len(),
                forall|k: int|
                    0 <= k < q ==> #[trigger] node_to_channel@[k] == (model.nodes@[
                        channels@[k].node as int
                    ].node_index, k as usize),
            decreases channels@.len() - q,
        {
            node_to_channel.push((model.nodes[channels[q].node].node_index, q));
            q = q + 1;
        }
        Ok(
            GltfAnimation {
                index: animation_index,
                name,
                samplers,
                channels,
                node_to_channel,
                start,
                end,
            },
        )
    }
}

/// The first merged channel carrying the given node, if any.
fn find_channel(channels: &Vec<GltfAnimationChannel>, a: usize) -> (r: Option<usize>)
    ensures
        match r {
            Some(j) => j < channels@.len() && channels@[j as int].node == a && (forall|k: int|
                0 <= k < j ==> (#[trigger] channels@[k]).node != a),
            None => forall|k: int|
                0 <= k < channels@.len() ==> (#[trigger] channels@[k]).node != a,
        },
{
    let mut w: usize = 0;
    while w < channels.len()
        invariant
            w <= channels@.len(),
            forall|k: int| 0 <= k < w ==> (#[trigger] channels@[k]).node != a,
        decreases channels@.len() - w,
    {
        if channels[w].node == a {
            return Some(w);
        }
        w = w + 1;
    }
    None
}

/// Assign one resolved sampler into the slot of its declared property
/// on the node's merged record, keeping the record's other slots.
fn assign_slot(
    channels: &mut Vec<GltfAnimationChannel>,
    j: usize,
    sampler: GltfAnimationSampler,
    property: TargetProperty,
)
    requires
        j < old(channels)@.len(),
        property != TargetProperty::MorphTargetWeights,
    ensures
        final(channels)@.len() == old(channels)@.len(),
        forall|k: int|
            0 <= k < old(channels)@.len() && k != j ==> final(channels)@[k] == old(channels)@[k],
        final(channels)@[j as int].node == old(channels)@[j as int].node,
        match property {
            TargetProperty::Translation => final(channels)@[j as int].translation_sampler
                == Some(sampler) && final(channels)@[j as int].rotation_sampler == old(
                channels,
            )@[j as int].rotation_sampler && final(channels)@[j as int].scale_sampler == old(
                channels,
            )@[j as int].scale_sampler,
            TargetProperty::Rotation => final(channels)@[j as int].rotation_sampler == Some(
                sampler,
            ) && final(channels)@[j as int].translation_sampler == old(
                channels,
            )@[j as int].translation_sampler && final(channels)@[j as int].scale_sampler == old(
                channels,
            )@[j as int].scale_sampler,
            TargetProperty::Scale => final(channels)@[j as int].scale_sampler == Some(sampler)
                && final(channels)@[j as int].translation_sampler == old(
                channels,
            )@[j as int].translation_sampler && final(channels)@[j as int].rotation_sampler
                == old(channels)@[j as int].rotation_sampler,
            TargetProperty::MorphTargetWeights => false,
        },
{
    let mut tmp = GltfAnimationChannel {
        node: 0,
        rotation_sampler: None,
        translation_sampler: None,
        scale_sampler: None,
    };
    channels.set_and_swap(j, &mut tmp);
    match property {
        TargetProperty::Translation => {
            tmp.translation_sampler = Some(sampler);
        },
        TargetProperty::Rotation => {
            tmp.rotation_sampler = Some(sampler);
        },
        TargetProperty::Scale => {
            tmp.scale_sampler = Some(sampler);
        },
        TargetProperty::MorphTargetWeights => {
        },
    }
    channels.set_and_swap(j, &mut tmp);
}

} // verus!
