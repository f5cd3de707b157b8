//! Per-primitive vertex-attribute assembly: triangulation through the
//! explicit index stream, reconciliation of every attribute through the
//! face list, synthesis of missing normals and texture coordinates, and
//! expansion into the model's global vertex and index buffers.

use vstd::prelude::*;
use crate::{GltfIndex, GltfError, GltfResult, GltfOptions, GltfDiagnostic};
use crate::desc::{PrimitiveDesc, PrimitiveMode, Joints4};
use crate::math::{Vector2, Vector3, Vector4, Dimensions, spec_dimensions_new, spec_v3_sub,
    spec_v3_cross, spec_v3_normalize};
use crate::fp::{f32_sub, F32_ONE, F32_POS_ZERO};
use crate::model::{GltfModel, GltfVertex};

verus! {

/// A primitive after attribute reconciliation.  The attribute lists are
/// the face-expanded streams; `index_start`/`index_count` locate the
/// primitive's triangles in the model's global index buffer and
/// `vertex_start` its first vertex in the global vertex buffer.
pub struct GltfPrimitive {
    pub mode: PrimitiveMode,
    pub mesh_index: GltfIndex,
    pub primitive_index: GltfIndex,
    pub material_index: Option<GltfIndex>,
    pub dimensions: Dimensions,

    pub faces: Option<Vec<usize>>,

    pub positions: Vec<Vector3>,
    pub normals: Vec<Vector3>,
    /// Expanded source tangents with the handedness component dropped;
    /// zero-filled, one per vertex, while synthesis is still owed
    /// (`needs_tangents`).
    pub tangents: Vec<Vector3>,
    /// True when the tangent kernel must supply this primitive's
    /// tangents: regeneration was requested or the source has none.
    pub needs_tangents: bool,

    pub color0: Option<Vec<Vector4>>,
    pub uv0: Vec<Vector2>,

    pub joints0: Option<Vec<Joints4>>,
    pub joints1: Option<Vec<Joints4>>,
    pub joints2: Option<Vec<Joints4>>,
    pub joints3: Option<Vec<Joints4>>,

    pub weights0: Option<Vec<Vector4>>,
    pub weights1: Option<Vec<Vector4>>,
    pub weights2: Option<Vec<Vector4>>,
    pub weights3: Option<Vec<Vector4>>,

    pub index_start: u32,
    pub index_count: u32,
    pub vertex_start: u32,
}

// ---------------------------------------------------------------------------
// Reconciliation, at the specification level.
// ---------------------------------------------------------------------------

/// The face list: explicit indices grouped into triangles of three,
/// with a trailing incomplete group dropped.
pub open spec fn spec_faces(idx: Seq<u32>) -> Seq<usize> {
    Seq::new(3 * (idx.len() / 3), |k: int| idx[k] as usize)
}

/// Reorder a source attribute list through the face list.
pub open spec fn spec_gather<T>(src: Seq<T>, f: Seq<usize>) -> Seq<T> {
    Seq::new(f.len(), |k: int| src[f[k] as int])
}

/// A present attribute list, expanded: gathered through the faces when
/// there are any, otherwise taken in source order.
pub open spec fn spec_expand<T>(src: Seq<T>, f: Option<Seq<usize>>) -> Seq<T> {
    match f {
        Some(fs) => spec_gather(src, fs),
        None => src,
    }
}

/// The flat normal of a triangle: the normalized cross product of its
/// two edge vectors from the first vertex.
pub open spec fn spec_flat_normal(p0: Vector3, p1: Vector3, p2: Vector3) -> Vector3 {
    spec_v3_normalize(spec_v3_cross(spec_v3_sub(p1, p0), spec_v3_sub(p2, p0)))
}

/// Synthesized normals over the expanded positions: every vertex of a
/// triangle receives that triangle's flat normal.
pub open spec fn spec_flat_normals(p: Seq<Vector3>) -> Seq<Vector3> {
    Seq::new(
        p.len(),
        |k: int| spec_flat_normal(p[3 * (k / 3)], p[3 * (k / 3) + 1], p[3 * (k / 3) + 2]),
    )
}

/// The V coordinate inverted against one.
pub open spec fn spec_flip_uv(uv: Vector2) -> Vector2 {
    Vector2 { x: uv.x, y: f32_sub(F32_ONE, uv.y) }
}

pub open spec fn spec_uv_out(uv: Vector2, flip: bool) -> Vector2 {
    if flip {
        spec_flip_uv(uv)
    } else {
        uv
    }
}

/// Texture coordinates after expansion and the optional uniform flip.
pub open spec fn spec_uv_stream(
    src: Option<Seq<Vector2>>,
    f: Option<Seq<usize>>,
    n: int,
    fallback: Vector2,
    flip: bool,
) -> Seq<Vector2> {
    match src {
        Some(uv) => Seq::new(spec_expand(uv, f).len(), |k: int| spec_uv_out(spec_expand(uv, f)[k], flip)),
        None => Seq::new(n as nat, |k: int| spec_uv_out(fallback, flip)),
    }
}

/// Every face entry indexes inside a list of the given length.
pub open spec fn faces_in_bounds(f: Seq<usize>, len: int) -> bool {
    forall|k: int| 0 <= k < f.len() ==> f[k] < len
}

// ---------------------------------------------------------------------------
// Reconciliation, executable.
// ---------------------------------------------------------------------------

/// Group the explicit indices into triangles, dropping a trailing
/// incomplete group.
fn extract_faces(idx: &Vec<u32>) -> (r: Vec<usize>)
    ensures
        r@ == spec_faces(idx@),
{
    let n: usize = 3 * (idx.len() / 3);
    let mut r: Vec<usize> = Vec::new();
    let mut k: usize = 0;
    while k < n
        invariant
            k <= n,
            n == 3 * (idx@.len() / 3),
            r@.len() == k,
            forall|j: int| 0 <= j < k ==> r@[j] == idx@[j] as usize,
        decreases n - k,
    {
        r.push(idx[k] as usize);
        k = k + 1;
    }
    proof {
        assert(r@ =~= spec_faces(idx@));
    }
    r
}

/// Reorder one attribute list through the face list.
fn gather_values<T: Copy>(src: &Vec<T>, f: &Vec<usize>) -> (r: Vec<T>)
    requires
        faces_in_bounds(f@, src@.len() as int),
    ensures
        r@ == spec_gather(src@, f@),
{
    let mut r: Vec<T> = Vec::new();
    let mut k: usize = 0;
    while k < f.len()
        invariant
            k <= f@.len(),
            faces_in_bounds(f@, src@.len() as int),
            r@.len() == k,
            forall|j: int| 0 <= j < k ==> r@[j] == src@[f@[j] as int],
        decreases f@.len() - k,
    {
        r.push(src[f[k]]);
        k = k + 1;
    }
    proof {
        assert(r@ =~= spec_gather(src@, f@));
    }
    r
}

/// Expand a present attribute list: gather it through the faces when
/// there are any, otherwise copy it in source order.
fn expand_values<T: Copy>(src: &Vec<T>, f: &Option<Vec<usize>>) -> (r: Vec<T>)
    requires
        match f {
            Some(fs) => faces_in_bounds(fs@, src@.len() as int),
            None => true,
        },
    ensures
        r@ == spec_expand(src@, spec_faces_view(f)),
{
    match f {
        Some(fs) => gather_values(src, fs),
        None => {
            let mut r: Vec<T> = Vec::new();
            let mut k: usize = 0;
            while k < src.len()
                invariant
                    k <= src@.len(),
                    r@.len() == k,
                    forall|j: int| 0 <= j < k ==> r@[j] == src@[j],
                decreases src@.len() - k,
            {
                r.push(src[k]);
                k = k + 1;
            }
            proof {
                assert(r@ =~= src@);
            }
            r
        },
    }
}

/// The view of an optional face list.
pub open spec fn spec_faces_view(f: &Option<Vec<usize>>) -> Option<Seq<usize>> {
    match f {
        Some(fs) => Some(fs@),
        None => None,
    }
}

/// Synthesize flat normals for expanded positions whose length is a
/// multiple of three.
fn flat_normals(p: &Vec<Vector3>) -> (r: Vec<Vector3>)
    requires
        p@.len() % 3 == 0,
    ensures
        r@ == spec_flat_normals(p@),
{
    let mut r: Vec<Vector3> = Vec::new();
    let mut t: usize = 0;
    let mut b: usize = 0;
    let len: usize = p.len();
    let n_tri: usize = len / 3;
    while t < n_tri
        invariant
            t <= n_tri,
            b == 3 * t,
            len == p@.len(),
            n_tri == p@.len() / 3,
            p@.len() % 3 == 0,
            r@.len() == 3 * t,
            forall|j: int|
                0 <= j < 3 * t ==> r@[j] == spec_flat_normal(
                    p@[3 * (j / 3)],
                    p@[3 * (j / 3) + 1],
                    p@[3 * (j / 3) + 2],
                ),
        decreases n_tri - t,
    {
        assert(b + 2 < len);
        let p0 = p[b];
        let p1 = p[b + 1];
        let p2 = p[b + 2];
        let ab = p1.sub(&p0);
        let ac = p2.sub(&p0);
        let normal = ab.cross(&ac).normalize();
        r.push(normal);
        r.push(normal);
        r.push(normal);
        t = t + 1;
        b = b + 3;
    }
    proof {
        assert(r@ =~= spec_flat_normals(p@));
    }
    r
}

/// Expand the texture coordinates, or fill every vertex with the
/// configured fallback pair, then apply the uniform V flip.
fn uv_stream(
    src: &Option<Vec<Vector2>>,
    f: &Option<Vec<usize>>,
    n: usize,
    fallback: Vector2,
    flip: bool,
) -> (r: Vec<Vector2>)
    requires
        match (src, f) {
            (Some(uv), Some(fs)) => faces_in_bounds(fs@, uv@.len() as int),
            _ => true,
        },
    ensures
        r@ == spec_uv_stream(spec_opt_view(src), spec_faces_view(f), n as int, fallback, flip),
{
    match src {
        Some(uv) => {
            let expanded = expand_values(uv, f);
            let mut r: Vec<Vector2> = Vec::new();
            let mut k: usize = 0;
            while k < expanded.len()
                invariant
                    k <= expanded@.len(),
                    r@.len() == k,
                    forall|j: int| 0 <= j < k ==> r@[j] == spec_uv_out(expanded@[j], flip),
                decreases expanded@.len() - k,
            {
                r.push(flip_check(expanded[k], flip));
                k = k + 1;
            }
            proof {
                assert(r@ =~= Seq::new(expanded@.len(), |j: int| spec_uv_out(expanded@[j], flip)));
            }
            r
        },
        None => {
            let mut r: Vec<Vector2> = Vec::new();
            let mut k: usize = 0;
            while k < n
                invariant
                    k <= n,
                    r@.len() == k,
                    forall|j: int| 0 <= j < k ==> r@[j] == spec_uv_out(fallback, flip),
                decreases n - k,
            {
                r.push(flip_check(fallback, flip));
                k = k + 1;
            }
            proof {
                assert(r@ =~= Seq::new(n as nat, |j: int| spec_uv_out(fallback, flip)));
            }
            r
        },
    }
}

/// The view of an optional attribute list.
pub open spec fn spec_opt_view<T>(v: &Option<Vec<T>>) -> Option<Seq<T>> {
    match v {
        Some(s) => Some(s@),
        None => None,
    }
}

/// Invert the V coordinate against one when the flip is configured.
pub fn flip_check(uv: Vector2, flip: bool) -> (r: Vector2)
    ensures
        r == spec_uv_out(uv, flip),
{
    if flip {
        Vector2 { x: uv.x, y: crate::fp::sub_bits(F32_ONE, uv.y) }
    } else {
        uv
    }
}

// ---------------------------------------------------------------------------
// The reconciled streams of one description.
// ---------------------------------------------------------------------------

pub open spec fn desc_faces(d: PrimitiveDesc) -> Option<Seq<usize>> {
    match d.indices {
        Some(i) => Some(spec_faces(i@)),
        None => None,
    }
}

/// The expanded positions; meaningful once positions are present.
pub open spec fn desc_positions(d: PrimitiveDesc) -> Seq<Vector3> {
    spec_expand(d.positions->0@, desc_faces(d))
}

/// The expanded normals: the source stream reordered, or flat normals
/// synthesized from the expanded positions.
pub open spec fn desc_normals(d: PrimitiveDesc) -> Seq<Vector3> {
    match d.normals {
        Some(ns) => spec_expand(ns@, desc_faces(d)).take(desc_vertex_count(d)),
        None => spec_flat_normals(desc_positions(d)),
    }
}

pub open spec fn desc_uv0(d: PrimitiveDesc, fallback: Vector2, flip: bool) -> Seq<Vector2> {
    spec_uv_stream(
        match d.tex_coords0 {
            Some(uv) => Some(uv@),
            None => None,
        },
        desc_faces(d),
        desc_positions(d).len() as int,
        fallback,
        flip,
    ).take(desc_vertex_count(d))
}

pub open spec fn desc_opt_expand<T>(src: Option<Vec<T>>, f: Option<Seq<usize>>, n: int) -> Option<
    Seq<T>,
> {
    match src {
        Some(s) => Some(spec_expand(s@, f).take(n)),
        None => None,
    }
}

/// Four influences per joint set the source provides.
pub open spec fn desc_influence(d: PrimitiveDesc) -> u32 {
    ((if d.joints0 is Some {
        4int
    } else {
        0int
    }) + (if d.joints1 is Some {
        4int
    } else {
        0int
    }) + (if d.joints2 is Some {
        4int
    } else {
        0int
    }) + (if d.joints3 is Some {
        4int
    } else {
        0int
    })) as u32
}

pub open spec fn spec_default_color() -> Vector4 {
    Vector4 { x: F32_POS_ZERO, y: F32_POS_ZERO, z: F32_POS_ZERO, w: F32_ONE }
}

pub open spec fn spec_zero_v4() -> Vector4 {
    Vector4 { x: F32_POS_ZERO, y: F32_POS_ZERO, z: F32_POS_ZERO, w: F32_POS_ZERO }
}

pub open spec fn spec_zero_v3() -> Vector3 {
    Vector3 { x: F32_POS_ZERO, y: F32_POS_ZERO, z: F32_POS_ZERO }
}

/// The vertex record the primitive appends for its `i`-th expanded
/// vertex: tangent and bitangent start zeroed and no skin is assigned.
pub open spec fn desc_vertex(d: PrimitiveDesc, fallback: Vector2, flip: bool, i: int) -> GltfVertex {
    GltfVertex {
        position: desc_positions(d)[i],
        normal: desc_normals(d)[i],
        uv0: desc_uv0(d, fallback, flip)[i],
        color0: match d.colors0 {
            Some(c) => spec_expand(c@, desc_faces(d)).take(desc_vertex_count(d))[i],
            None => spec_default_color(),
        },
        joint0: match d.joints0 {
            Some(j) => spec_expand(j@, desc_faces(d)).take(desc_vertex_count(d))[i],
            None => Joints4 { j0: 0, j1: 0, j2: 0, j3: 0 },
        },
        joint1: match d.joints1 {
            Some(j) => spec_expand(j@, desc_faces(d)).take(desc_vertex_count(d))[i],
            None => Joints4 { j0: 0, j1: 0, j2: 0, j3: 0 },
        },
        joint2: match d.joints2 {
            Some(j) => spec_expand(j@, desc_faces(d)).take(desc_vertex_count(d))[i],
            None => Joints4 { j0: 0, j1: 0, j2: 0, j3: 0 },
        },
        joint3: match d.joints3 {
            Some(j) => spec_expand(j@, desc_faces(d)).take(desc_vertex_count(d))[i],
            None => Joints4 { j0: 0, j1: 0, j2: 0, j3: 0 },
        },
        weight0: match d.weights0 {
            Some(w) => spec_expand(w@, desc_faces(d)).take(desc_vertex_count(d))[i],
            None => spec_zero_v4(),
        },
        weight1: match d.weights1 {
            Some(w) => spec_expand(w@, desc_faces(d)).take(desc_vertex_count(d))[i],
            None => spec_zero_v4(),
        },
        weight2: match d.weights2 {
            Some(w) => spec_expand(w@, desc_faces(d)).take(desc_vertex_count(d))[i],
            None => spec_zero_v4(),
        },
        weight3: match d.weights3 {
            Some(w) => spec_expand(w@, desc_faces(d)).take(desc_vertex_count(d))[i],
            None => spec_zero_v4(),
        },
        tangent: spec_zero_v3(),
        bitangent: spec_zero_v3(),
        influence_count: desc_influence(d),
        skin_index: (-1) as i32,
    }
}

/// An optional stream is long enough: under explicit faces every face
/// entry must index inside it, otherwise it must cover the positions.
pub open spec fn stream_len_ok<T>(src: Option<Seq<T>>, f: Option<Seq<usize>>, n_pos: int) -> bool {
    match src {
        Some(s) => match f {
            Some(fs) => faces_in_bounds(fs, s.len() as int),
            None => s.len() >= n_pos,
        },
        None => true,
    }
}

/// The description's cross-references hold together: every present
/// stream is long enough for the triangulation, and without explicit
/// indices the attribute count must be a multiple of three.
pub open spec fn desc_consistent(d: PrimitiveDesc) -> bool {
    let n_pos = d.positions->0@.len() as int;
    let f = desc_faces(d);
    &&& (match f {
        Some(fs) => faces_in_bounds(fs, n_pos),
        None => n_pos % 3 == 0,
    })
    &&& stream_len_ok(
        match d.normals {
            Some(ns) => Some(ns@),
            None => None,
        },
        f,
        n_pos,
    )
    &&& stream_len_ok(
        match d.tangents {
            Some(t) => Some(t@),
            None => None,
        },
        f,
        n_pos,
    )
    &&& stream_len_ok(
        match d.tex_coords0 {
            Some(uv) => Some(uv@),
            None => None,
        },
        f,
        n_pos,
    )
    &&& stream_len_ok(
        match d.colors0 {
            Some(c) => Some(c@),
            None => None,
        },
        f,
        n_pos,
    )
    &&& stream_len_ok(
        match d.joints0 {
            Some(j) => Some(j@),
            None => None,
        },
        f,
        n_pos,
    )
    &&& stream_len_ok(
        match d.joints1 {
            Some(j) => Some(j@),
            None => None,
        },
        f,
        n_pos,
    )
    &&& stream_len_ok(
        match d.joints2 {
            Some(j) => Some(j@),
            None => None,
        },
        f,
        n_pos,
    )
    &&& stream_len_ok(
        match d.joints3 {
            Some(j) => Some(j@),
            None => None,
        },
        f,
        n_pos,
    )
    &&& stream_len_ok(
        match d.weights0 {
            Some(w) => Some(w@),
            None => None,
        },
        f,
        n_pos,
    )
    &&& stream_len_ok(
        match d.weights1 {
            Some(w) => Some(w@),
            None => None,
        },
        f,
        n_pos,
    )
    &&& stream_len_ok(
        match d.weights2 {
            Some(w) => Some(w@),
            None => None,
        },
        f,
        n_pos,
    )
    &&& stream_len_ok(
        match d.weights3 {
            Some(w) => Some(w@),
            None => None,
        },
        f,
        n_pos,
    )
}

/// How many expanded vertices the description yields.
pub open spec fn desc_vertex_count(d: PrimitiveDesc) -> int {
    match desc_faces(d) {
        Some(fs) => fs.len() as int,
        None => d.positions->0@.len() as int,
    }
}

/// Both global buffers must stay within the 32-bit index space.
pub open spec fn desc_capacity_ok(m: GltfModel, n: int) -> bool {
    &&& m.vertex_buffer@.len() + n <= u32::MAX
    &&& m.index_buffer@.len() + n <= u32::MAX
}

/// The tangent part of a four-component stream, handedness dropped.
pub open spec fn spec_drop_w(s: Seq<Vector4>) -> Seq<Vector3> {
    Seq::new(s.len(), |k: int| Vector3 { x: s[k].x, y: s[k].y, z: s[k].z })
}

/// The fallback texture-coordinate pair of the options.
pub open spec fn spec_uv_fallback(o: GltfOptions) -> Vector2 {
    Vector2 { x: o.generate_tex_coords.0, y: o.generate_tex_coords.1 }
}

/// What a built primitive promises about its description: every
/// reconciled stream, the declared bounds, the face list and the
/// recorded triangle count.
pub open spec fn prim_from_desc(
    p: GltfPrimitive,
    d: PrimitiveDesc,
    primitive_index: GltfIndex,
    mesh_index: GltfIndex,
    fallback: Vector2,
    flip: bool,
    regenerate: bool,
) -> bool {
    &&& p.mode == PrimitiveMode::Triangles
    &&& p.mesh_index == mesh_index
    &&& p.primitive_index == primitive_index
    &&& p.material_index == d.material
    &&& p.dimensions == spec_dimensions_new(d.bounds_min, d.bounds_max)
    &&& spec_faces_view(&p.faces) == desc_faces(d)
    &&& p.positions@ == desc_positions(d)
    &&& p.normals@ == desc_normals(d)
    &&& p.uv0@ == desc_uv0(d, fallback, flip)
    &&& (p.needs_tangents <==> (regenerate || d.tangents is None))
    &&& (p.needs_tangents ==> p.tangents@ == Seq::new(
        desc_vertex_count(d) as nat,
        |q: int| spec_zero_v3(),
    ))
    &&& (!p.needs_tangents ==> p.tangents@ == spec_drop_w(
        spec_expand(d.tangents->0@, desc_faces(d)),
    ).take(desc_vertex_count(d)))
    &&& p.positions@.len() == desc_vertex_count(d)
    &&& p.normals@.len() == desc_vertex_count(d)
    &&& p.tangents@.len() == desc_vertex_count(d)
    &&& p.uv0@.len() == desc_vertex_count(d)
    &&& spec_opt_view(&p.color0) == desc_opt_expand(d.colors0, desc_faces(d), desc_vertex_count(d))
    &&& spec_opt_view(&p.joints0) == desc_opt_expand(d.joints0, desc_faces(d), desc_vertex_count(d))
    &&& spec_opt_view(&p.joints1) == desc_opt_expand(d.joints1, desc_faces(d), desc_vertex_count(d))
    &&& spec_opt_view(&p.joints2) == desc_opt_expand(d.joints2, desc_faces(d), desc_vertex_count(d))
    &&& spec_opt_view(&p.joints3) == desc_opt_expand(d.joints3, desc_faces(d), desc_vertex_count(d))
    &&& spec_opt_view(&p.weights0) == desc_opt_expand(d.weights0, desc_faces(d), desc_vertex_count(d))
    &&& spec_opt_view(&p.weights1) == desc_opt_expand(d.weights1, desc_faces(d), desc_vertex_count(d))
    &&& spec_opt_view(&p.weights2) == desc_opt_expand(d.weights2, desc_faces(d), desc_vertex_count(d))
    &&& spec_opt_view(&p.weights3) == desc_opt_expand(d.weights3, desc_faces(d), desc_vertex_count(d))
    &&& p.index_count == desc_vertex_count(d)
}

/// The first fatal condition a primitive description raises on its
/// own, independent of any buffer state: the topology, then the
/// required positions, then the cross-references.
pub open spec fn desc_static_error(
    d: PrimitiveDesc,
    mesh_index: GltfIndex,
    primitive_index: GltfIndex,
) -> Option<GltfError> {
    if d.mode != PrimitiveMode::Triangles {
        Some(GltfError::UnsupportedMode { mesh_index, primitive_index })
    } else if d.positions is None {
        Some(GltfError::MissingPositions { mesh_index, primitive_index })
    } else if !desc_consistent(d) {
        Some(GltfError::InvalidReference)
    } else {
        None
    }
}

/// The first fatal condition a primitive description raises against
/// the given buffer state: its own conditions first, then capacity.
pub open spec fn desc_error(
    d: PrimitiveDesc,
    mesh_index: GltfIndex,
    primitive_index: GltfIndex,
    m: GltfModel,
) -> Option<GltfError> {
    match desc_static_error(d, mesh_index, primitive_index) {
        Some(e) => Some(e),
        None => if !desc_capacity_ok(m, desc_vertex_count(d)) {
            Some(GltfError::CapacityExceeded)
        } else {
            None
        },
    }
}

// ---------------------------------------------------------------------------
// Consistency checks, executable.
// ---------------------------------------------------------------------------

fn check_bounds(f: &Vec<usize>, len: usize) -> (ok: bool)
    ensures
        ok == faces_in_bounds(f@, len as int),
{
    let mut k: usize = 0;
    while k < f.len()
        invariant
            k <= f@.len(),
            forall|j: int| 0 <= j < k ==> f@[j] < len,
        decreases f@.len() - k,
    {
        if f[k] >= len {
            assert(!faces_in_bounds(f@, len as int));
            return false;
        }
        k = k + 1;
    }
    true
}

fn check_stream<T>(src: &Option<Vec<T>>, f: &Option<Vec<usize>>, n_pos: usize) -> (ok: bool)
    ensures
        ok == stream_len_ok(spec_opt_view(src), spec_faces_view(f), n_pos as int),
{
    match src {
        Some(s) => match f {
            Some(fs) => check_bounds(fs, s.len()),
            None => s.len() >= n_pos,
        },
        None => true,
    }
}

fn drop_w(v: &Vec<Vector4>) -> (r: Vec<Vector3>)
    ensures
        r@ == spec_drop_w(v@),
{
    let mut r: Vec<Vector3> = Vec::new();
    let mut k: usize = 0;
    while k < v.len()
        invariant
            k <= v@.len(),
            r@.len() == k,
            forall|j: int| 0 <= j < k ==> r@[j] == (Vector3 { x: v@[j].x, y: v@[j].y, z: v@[j].z }),
        decreases v@.len() - k,
    {
        let t = v[k];
        r.push(Vector3 { x: t.x, y: t.y, z: t.z });
        k = k + 1;
    }
    proof {
        assert(r@ =~= spec_drop_w(v@));
    }
    r
}


/// Sequential global indices for one primitive's expanded vertices.
fn sequential_indices(vertex_start: u32, n: usize) -> (r: Vec<u32>)
    requires
        vertex_start + n <= u32::MAX,
    ensures
        r@ == Seq::new(n as nat, |i: int| (vertex_start + i) as u32),
{
    let mut r: Vec<u32> = Vec::new();
    let mut k: usize = 0;
    while k < n
        invariant
            k <= n,
            vertex_start + n <= u32::MAX,
            r@.len() == k,
            forall|j: int| 0 <= j < k ==> r@[j] == (vertex_start + j) as u32,
        decreases n - k,
    {
        r.push(vertex_start + k as u32);
        k = k + 1;
    }
    proof {
        assert(r@ =~= Seq::new(n as nat, |i: int| (vertex_start + i) as u32));
    }
    r
}

/// Build the vertex records of one primitive from its expanded
/// streams.
#[verifier::rlimit(60)]
#[verifier::loop_isolation(false)]
fn build_vertices(
    d: &PrimitiveDesc,
    options: &GltfOptions,
    positions: &Vec<Vector3>,
    normals: &Vec<Vector3>,
    uv0: &Vec<Vector2>,
    color0: &Option<Vec<Vector4>>,
    joints0: &Option<Vec<Joints4>>,
    joints1: &Option<Vec<Joints4>>,
    joints2: &Option<Vec<Joints4>>,
    joints3: &Option<Vec<Joints4>>,
    weights0: &Option<Vec<Vector4>>,
    weights1: &Option<Vec<Vector4>>,
    weights2: &Option<Vec<Vector4>>,
    weights3: &Option<Vec<Vector4>>,
    influence_count: u32,
    n: usize,
) -> (r: Vec<GltfVertex>)
    requires
        positions@ == desc_positions(*d),
        normals@ == desc_normals(*d),
        uv0@ == desc_uv0(*d, spec_uv_fallback(*options), options.flip_v_coord),
        spec_opt_view(color0) == desc_opt_expand(d.colors0, desc_faces(*d), desc_vertex_count(*d)),
        spec_opt_view(joints0) == desc_opt_expand(d.joints0, desc_faces(*d), desc_vertex_count(*d)),
        spec_opt_view(joints1) == desc_opt_expand(d.joints1, desc_faces(*d), desc_vertex_count(*d)),
        spec_opt_view(joints2) == desc_opt_expand(d.joints2, desc_faces(*d), desc_vertex_count(*d)),
        spec_opt_view(joints3) == desc_opt_expand(d.joints3, desc_faces(*d), desc_vertex_count(*d)),
        spec_opt_view(weights0) == desc_opt_expand(d.weights0, desc_faces(*d), desc_vertex_count(*d)),
        spec_opt_view(weights1) == desc_opt_expand(d.weights1, desc_faces(*d), desc_vertex_count(*d)),
        spec_opt_view(weights2) == desc_opt_expand(d.weights2, desc_faces(*d), desc_vertex_count(*d)),
        spec_opt_view(weights3) == desc_opt_expand(d.weights3, desc_faces(*d), desc_vertex_count(*d)),
        influence_count == desc_influence(*d),
        n == desc_vertex_count(*d),
        positions@.len() == n,
        normals@.len() >= n,
        uv0@.len() >= n,
        match color0 {
            Some(c) => c@.len() >= n,
            None => true,
        },
        match joints0 {
            Some(j) => j@.len() >= n,
            None => true,
        },
        match joints1 {
            Some(j) => j@.len() >= n,
            None => true,
        },
        match joints2 {
            Some(j) => j@.len() >= n,
            None => true,
        },
        match joints3 {
            Some(j) => j@.len() >= n,
            None => true,
        },
        match weights0 {
            Some(w) => w@.len() >= n,
            None => true,
        },
        match weights1 {
            Some(w) => w@.len() >= n,
            None => true,
        },
        match weights2 {
            Some(w) => w@.len() >= n,
            None => true,
        },
        match weights3 {
            Some(w) => w@.len() >= n,
            None => true,
        },
    ensures
        r@ == Seq::new(
            n as nat,
            |i: int| desc_vertex(*d, spec_uv_fallback(*options), options.flip_v_coord, i),
        ),
{
    let zero3 = Vector3 { x: F32_POS_ZERO, y: F32_POS_ZERO, z: F32_POS_ZERO };
    let default_color = Vector4 { x: F32_POS_ZERO, y: F32_POS_ZERO, z: F32_POS_ZERO, w: F32_ONE };
    let zero4 = Vector4 { x: F32_POS_ZERO, y: F32_POS_ZERO, z: F32_POS_ZERO, w: F32_POS_ZERO };
    let zero_joints = Joints4 { j0: 0, j1: 0, j2: 0, j3: 0 };
    let mut r: Vec<GltfVertex> = Vec::new();
    let mut i: usize = 0;
    while i < n
        invariant
            i <= n,
            r@.len() == i,
            forall|j: int|
                0 <= j < i ==> r@[j] == desc_vertex(
                    *d,
                    spec_uv_fallback(*options),
                    options.flip_v_coord,
                    j,
                ),
        decreases n - i,
    {
        let v = GltfVertex {
            position: positions[i],
            normal: normals[i],
            uv0: uv0[i],
            color0: match color0 {
                Some(c) => c[i],
                None => default_color,
            },
            joint0: match joints0 {
                Some(j) => j[i],
                None => zero_joints,
            },
            joint1: match joints1 {
                Some(j) => j[i],
                None => zero_joints,
            },
            joint2: match joints2 {
                Some(j) => j[i],
                None => zero_joints,
            },
            joint3: match joints3 {
                Some(j) => j[i],
                None => zero_joints,
            },
            weight0: match weights0 {
                Some(w) => w[i],
                None => zero4,
            },
            weight1: match weights1 {
                Some(w) => w[i],
                None => zero4,
            },
            weight2: match weights2 {
                Some(w) => w[i],
                None => zero4,
            },
            weight3: match weights3 {
                Some(w) => w[i],
                None => zero4,
            },
            tangent: zero3,
            bitangent: zero3,
            influence_count,
            skin_index: -1,
        };
        assert(v == desc_vertex(*d, spec_uv_fallback(*options), options.flip_v_coord, i as int));
        r.push(v);
        i = i + 1;
    }
    proof {
        assert(r@ =~= Seq::new(
            n as nat,
            |i: int| desc_vertex(*d, spec_uv_fallback(*options), options.flip_v_coord, i),
        ));
    }
    r
}

/// A zero tangent per expanded vertex: the placeholder the boundary
/// kernel overwrites when synthesis is owed.
fn zero_tangents(n: usize) -> (r: Vec<Vector3>)
    ensures
        r@ == Seq::new(n as nat, |q: int| spec_zero_v3()),
{
    let mut r: Vec<Vector3> = Vec::new();
    let mut k: usize = 0;
    while k < n
        invariant
            k <= n,
            r@.len() == k,
            forall|j: int| 0 <= j < k ==> r@[j] == spec_zero_v3(),
        decreases n - k,
    {
        r.push(Vector3 { x: F32_POS_ZERO, y: F32_POS_ZERO, z: F32_POS_ZERO });
        k = k + 1;
    }
    proof {
        assert(r@ =~= Seq::new(n as nat, |q: int| spec_zero_v3()));
    }
    r
}

impl GltfPrimitive {
    /// Assemble one primitive: triangulate through the explicit index
    /// stream, reconcile every attribute through the face list,
    /// synthesize missing normals and texture coordinates, and append
    /// the expanded vertices with their sequential indices to the
    /// model's global buffers.  Tangent synthesis is left to the caller
    /// when regeneration is forced or the source carries none
    /// (`needs_tangents`).  On any fatal condition the model is left
    /// untouched.
    #[verifier::loop_isolation(false)]
    #[verifier::rlimit(60)]
    pub fn from_gltf(
        primitive_ref: &PrimitiveDesc,
        primitive_index: GltfIndex,
        mesh_index: GltfIndex,
        model: &mut GltfModel,
        options: &GltfOptions,
    ) -> (r: GltfResult<GltfPrimitive>)
        ensures
            match r {
                Ok(p) => {
                    &&& desc_error(*primitive_ref, mesh_index, primitive_index, *old(model))
                        is None
                    &&& prim_from_desc(
                        p,
                        *primitive_ref,
                        primitive_index,
                        mesh_index,
                        spec_uv_fallback(*options),
                        options.flip_v_coord,
                        options.regenerate_tangents,
                    )
                    &&& p.mode == PrimitiveMode::Triangles
                    &&& p.mesh_index == mesh_index
                    &&& p.primitive_index == primitive_index
                    &&& p.material_index == primitive_ref.material
                    &&& p.dimensions == spec_dimensions_new(
                        primitive_ref.bounds_min,
                        primitive_ref.bounds_max,
                    )
                    &&& spec_faces_view(&p.faces) == desc_faces(*primitive_ref)
                    &&& p.positions@ == desc_positions(*primitive_ref)
                    &&& p.normals@ == desc_normals(*primitive_ref)
                    &&& p.uv0@ == desc_uv0(
                        *primitive_ref,
                        spec_uv_fallback(*options),
                        options.flip_v_coord,
                    )
                    &&& (p.needs_tangents <==> (options.regenerate_tangents
                        || primitive_ref.tangents is None))
                    &&& (p.needs_tangents ==> p.tangents@ == Seq::new(
                        desc_vertex_count(*primitive_ref) as nat,
                        |q: int| spec_zero_v3(),
                    ))
                    &&& (!p.needs_tangents ==> p.tangents@ == spec_drop_w(
                        spec_expand(primitive_ref.tangents->0@, desc_faces(*primitive_ref)),
                    ).take(desc_vertex_count(*primitive_ref)))
                    &&& spec_opt_view(&p.color0) == desc_opt_expand(
                        primitive_ref.colors0,
                        desc_faces(*primitive_ref),
                        desc_vertex_count(*primitive_ref),
                    )
                    &&& spec_opt_view(&p.joints0) == desc_opt_expand(
                        primitive_ref.joints0,
                        desc_faces(*primitive_ref),
                        desc_vertex_count(*primitive_ref),
                    )
                    &&& spec_opt_view(&p.joints1) == desc_opt_expand(
                        primitive_ref.joints1,
                        desc_faces(*primitive_ref),
                        desc_vertex_count(*primitive_ref),
                    )
                    &&& spec_opt_view(&p.joints2) == desc_opt_expand(
                        primitive_ref.joints2,
                        desc_faces(*primitive_ref),
                        desc_vertex_count(*primitive_ref),
                    )
                    &&& spec_opt_view(&p.joints3) == desc_opt_expand(
                        primitive_ref.joints3,
                        desc_faces(*primitive_ref),
                        desc_vertex_count(*primitive_ref),
                    )
                    &&& spec_opt_view(&p.weights0) == desc_opt_expand(
                        primitive_ref.weights0,
                        desc_faces(*primitive_ref),
                        desc_vertex_count(*primitive_ref),
                    )
                    &&& spec_opt_view(&p.weights1) == desc_opt_expand(
                        primitive_ref.weights1,
                        desc_faces(*primitive_ref),
                        desc_vertex_count(*primitive_ref),
                    )
                    &&& spec_opt_view(&p.weights2) == desc_opt_expand(
                        primitive_ref.weights2,
                        desc_faces(*primitive_ref),
                        desc_vertex_count(*primitive_ref),
                    )
                    &&& spec_opt_view(&p.weights3) == desc_opt_expand(
                        primitive_ref.weights3,
                        desc_faces(*primitive_ref),
                        desc_vertex_count(*primitive_ref),
                    )
                    &&& p.vertex_start == old(model).vertex_buffer@.len()
                    &&& p.index_start == old(model).index_buffer@.len()
                    &&& p.index_count == desc_vertex_count(*primitive_ref)
                    &&& final(model).vertex_buffer@ == old(model).vertex_buffer@ + Seq::new(
                        desc_vertex_count(*primitive_ref) as nat,
                        |i: int| desc_vertex(
                            *primitive_ref,
                            spec_uv_fallback(*options),
                            options.flip_v_coord,
                            i,
                        ),
                    )
                    &&& final(model).index_buffer@ == old(model).index_buffer@ + Seq::new(
                        desc_vertex_count(*primitive_ref) as nat,
                        |i: int| (old(model).vertex_buffer@.len() + i) as u32,
                    )
                    &&& final(model).diagnostics@ == old(model).diagnostics@ + (if primitive_ref.extra_tex_coord_sets > 0 {
                        seq![GltfDiagnostic::ExtraTexCoordSetsIgnored {
                            mesh_index,
                            primitive_index,
                            count: primitive_ref.extra_tex_coord_sets,
                        }]
                    } else {
                        Seq::empty()
                    }) + (if primitive_ref.extra_joint_sets > 0 {
                        seq![GltfDiagnostic::ExtraJointSetsIgnored {
                            mesh_index,
                            primitive_index,
                            count: primitive_ref.extra_joint_sets,
                        }]
                    } else {
                        Seq::empty()
                    })
                    &&& final(model).nodes@ == old(model).nodes@
                    &&& final(model).root_nodes@ == old(model).root_nodes@
                    &&& final(model).linear_nodes@ == old(model).linear_nodes@
                    &&& final(model).meshes@ == old(model).meshes@
                    &&& final(model).textures@ == old(model).textures@
                    &&& final(model).materials@ == old(model).materials@
                    &&& final(model).animations@ == old(model).animations@
                    &&& final(model).skins@ == old(model).skins@
                    &&& final(model).dimensions == old(model).dimensions
                    &&& final(model).has_geometry == old(model).has_geometry
                },
                Err(e) => {
                    &&& desc_error(*primitive_ref, mesh_index, primitive_index, *old(model))
                        == Some(e)
                    &&& *final(model) == *old(model)
                },
            },
    {
        match primitive_ref.mode {
            PrimitiveMode::Triangles => {},
            _ => {
                return Err(GltfError::UnsupportedMode { mesh_index, primitive_index });
            },
        }
        let pos_raw: &Vec<Vector3> = match &primitive_ref.positions {
            Some(p) => p,
            None => {
                return Err(GltfError::MissingPositions { mesh_index, primitive_index });
            },
        };
        let faces: Option<Vec<usize>> = match &primitive_ref.indices {
            Some(idx) => Some(extract_faces(idx)),
            None => None,
        };
        proof {
            assert(spec_faces_view(&faces) == desc_faces(*primitive_ref));
        }
        let n_pos: usize = pos_raw.len();
        let base_ok: bool = match &faces {
            Some(fs) => check_bounds(fs, n_pos),
            None => n_pos % 3 == 0,
        };
        let consistent: bool = base_ok && check_stream(&primitive_ref.normals, &faces, n_pos)
            && check_stream(&primitive_ref.tangents, &faces, n_pos) && check_stream(
            &primitive_ref.tex_coords0,
            &faces,
            n_pos,
        ) && check_stream(&primitive_ref.colors0, &faces, n_pos) && check_stream(
            &primitive_ref.joints0,
            &faces,
            n_pos,
        ) && check_stream(&primitive_ref.joints1, &faces, n_pos) && check_stream(
            &primitive_ref.joints2,
            &faces,
            n_pos,
        ) && check_stream(&primitive_ref.joints3, &faces, n_pos) && check_stream(
            &primitive_ref.weights0,
            &faces,
            n_pos,
        ) && check_stream(&primitive_ref.weights1, &faces, n_pos) && check_stream(
            &primitive_ref.weights2,
            &faces,
            n_pos,
        ) && check_stream(&primitive_ref.weights3, &faces, n_pos);
        proof {
            assert(consistent == desc_consistent(*primitive_ref));
        }
        if !consistent {
            return Err(GltfError::InvalidReference);
        }
        let n: usize = match &faces {
            Some(fs) => fs.len(),
            None => n_pos,
        };
        proof {
            assert(n == desc_vertex_count(*primitive_ref));
        }
        if n > u32::MAX as usize {
            return Err(GltfError::CapacityExceeded);
        }
        if model.vertex_buffer.len() > u32::MAX as usize - n || model.index_buffer.len()
            > u32::MAX as usize - n {
            return Err(GltfError::CapacityExceeded);
        }
        let positions: Vec<Vector3> = expand_values(pos_raw, &faces);
        assert(positions@.len() == n);
        let mut normals: Vec<Vector3> = match &primitive_ref.normals {
            Some(ns) => expand_values(ns, &faces),
            None => flat_normals(&positions),
        };
        assert(normals@.len() >= n);
        normals.truncate(n);
        proof {
            assert(normals@ =~= desc_normals(*primitive_ref));
        }
        let fallback = Vector2 {
            x: options.generate_tex_coords.0,
            y: options.generate_tex_coords.1,
        };
        let mut uv0: Vec<Vector2> = uv_stream(
            &primitive_ref.tex_coords0,
            &faces,
            positions.len(),
            fallback,
            options.flip_v_coord,
        );
        assert(uv0@.len() >= n);
        uv0.truncate(n);
        proof {
            assert(uv0@ =~= desc_uv0(
                *primitive_ref,
                spec_uv_fallback(*options),
                options.flip_v_coord,
            ));
        }
        let (tangents, needs_tangents): (Vec<Vector3>, bool) = if options.regenerate_tangents {
            (zero_tangents(n), true)
        } else {
            match &primitive_ref.tangents {
                Some(ts) => {
                    let mut dropped = drop_w(&expand_values(ts, &faces));
                    dropped.truncate(n);
                    proof {
                        assert(dropped@ =~= spec_drop_w(
                            spec_expand(ts@, desc_faces(*primitive_ref)),
                        ).take(n as int));
                    }
                    (dropped, false)
                },
                None => (zero_tangents(n), true),
            }
        };
        let color0: Option<Vec<Vector4>> = match &primitive_ref.colors0 {
            Some(src_list) => {
                let mut expanded = expand_values(src_list, &faces);
                expanded.truncate(n);
                proof {
                    assert(expanded@ =~= spec_expand(src_list@, desc_faces(*primitive_ref)).take(
                        n as int,
                    ));
                }
                Some(expanded)
            },
            None => None,
        };
        let joints0: Option<Vec<Joints4>> = match &primitive_ref.joints0 {
            Some(src_list) => {
                let mut expanded = expand_values(src_list, &faces);
                expanded.truncate(n);
                proof {
                    assert(expanded@ =~= spec_expand(src_list@, desc_faces(*primitive_ref)).take(
                        n as int,
                    ));
                }
                Some(expanded)
            },
            None => None,
        };
        let joints1: Option<Vec<Joints4>> = match &primitive_ref.joints1 {
            Some(src_list) => {
                let mut expanded = expand_values(src_list, &faces);
                expanded.truncate(n);
                proof {
                    assert(expanded@ =~= spec_expand(src_list@, desc_faces(*primitive_ref)).take(
                        n as int,
                    ));
                }
                Some(expanded)
            },
            None => None,
        };
        let joints2: Option<Vec<Joints4>> = match &primitive_ref.joints2 {
            Some(src_list) => {
                let mut expanded = expand_values(src_list, &faces);
                expanded.truncate(n);
                proof {
                    assert(expanded@ =~= spec_expand(src_list@, desc_faces(*primitive_ref)).take(
                        n as int,
                    ));
                }
                Some(expanded)
            },
            None => None,
        };
        let joints3: Option<Vec<Joints4>> = match &primitive_ref.joints3 {
            Some(src_list) => {
                let mut expanded = expand_values(src_list, &faces);
                expanded.truncate(n);
                proof {
                    assert(expanded@ =~= spec_expand(src_list@, desc_faces(*primitive_ref)).take(
                        n as int,
                    ));
                }
                Some(expanded)
            },
            None => None,
        };
        let weights0: Option<Vec<Vector4>> = match &primitive_ref.weights0 {
            Some(src_list) => {
                let mut expanded = expand_values(src_list, &faces);
                expanded.truncate(n);
                proof {
                    assert(expanded@ =~= spec_expand(src_list@, desc_faces(*primitive_ref)).take(
                        n as int,
                    ));
                }
                Some(expanded)
            },
            None => None,
        };
        let weights1: Option<Vec<Vector4>> = match &primitive_ref.weights1 {
            Some(src_list) => {
                let mut expanded = expand_values(src_list, &faces);
                expanded.truncate(n);
                proof {
                    assert(expanded@ =~= spec_expand(src_list@, desc_faces(*primitive_ref)).take(
                        n as int,
                    ));
                }
                Some(expanded)
            },
            None => None,
        };
        let weights2: Option<Vec<Vector4>> = match &primitive_ref.weights2 {
            Some(src_list) => {
                let mut expanded = expand_values(src_list, &faces);
                expanded.truncate(n);
                proof {
                    assert(expanded@ =~= spec_expand(src_list@, desc_faces(*primitive_ref)).take(
                        n as int,
                    ));
                }
                Some(expanded)
            },
            None => None,
        };
        let weights3: Option<Vec<Vector4>> = match &primitive_ref.weights3 {
            Some(src_list) => {
                let mut expanded = expand_values(src_list, &faces);
                expanded.truncate(n);
                proof {
                    assert(expanded@ =~= spec_expand(src_list@, desc_faces(*primitive_ref)).take(
                        n as int,
                    ));
                }
                Some(expanded)
            },
            None => None,
        };
        let mut influence_count: u32 = 0;
        if primitive_ref.joints0.is_some() {
            influence_count = influence_count + 4;
        }
        if primitive_ref.joints1.is_some() {
            influence_count = influence_count + 4;
        }
        if primitive_ref.joints2.is_some() {
            influence_count = influence_count + 4;
        }
        if primitive_ref.joints3.is_some() {
            influence_count = influence_count + 4;
        }
        assert(influence_count == desc_influence(*primitive_ref));
        if primitive_ref.extra_tex_coord_sets > 0 {
            model.diagnostics.push(
                GltfDiagnostic::ExtraTexCoordSetsIgnored {
                    mesh_index,
                    primitive_index,
                    count: primitive_ref.extra_tex_coord_sets,
                },
            );
        }
        if primitive_ref.extra_joint_sets > 0 {
            model.diagnostics.push(
                GltfDiagnostic::ExtraJointSetsIgnored {
                    mesh_index,
                    primitive_index,
                    count: primitive_ref.extra_joint_sets,
                },
            );
        }
        let vertex_start: u32 = model.vertex_buffer.len() as u32;
        let index_start: u32 = model.index_buffer.len() as u32;
        let mut new_vertices: Vec<GltfVertex> = build_vertices(
            primitive_ref,
            options,
            &positions,
            &normals,
            &uv0,
            &color0,
            &joints0,
            &joints1,
            &joints2,
            &joints3,
            &weights0,
            &weights1,
            &weights2,
            &weights3,
            influence_count,
            n,
        );
        let mut new_indices: Vec<u32> = sequential_indices(vertex_start, n);
        let ghost old_vb = model.vertex_buffer@;
        let ghost old_ib = model.index_buffer@;
        model.vertex_buffer.append(&mut new_vertices);
        model.index_buffer.append(&mut new_indices);
        proof {
            assert(model.vertex_buffer@ =~= old_vb + Seq::new(
                desc_vertex_count(*primitive_ref) as nat,
                |i: int| desc_vertex(
                    *primitive_ref,
                    spec_uv_fallback(*options),
                    options.flip_v_coord,
                    i,
                ),
            ));
            assert(model.index_buffer@ =~= old_ib + Seq::new(
                desc_vertex_count(*primitive_ref) as nat,
                |i: int| (old_vb.len() + i) as u32,
            ));
        }
        Ok(
            GltfPrimitive {
                mode: PrimitiveMode::Triangles,
                mesh_index,
                primitive_index,
                material_index: primitive_ref.material,
                dimensions: Dimensions::new(primitive_ref.bounds_min, primitive_ref.bounds_max),
                faces,
                positions,
                normals,
                tangents,
                needs_tangents,
                color0,
                uv0,
                joints0,
                joints1,
                joints2,
                joints3,
                weights0,
                weights1,
                weights2,
                weights3,
                index_start,
                index_count: n as u32,
                vertex_start,
            },
        )
    }
}


/// Every vertex of a triangle receives the identical flat normal: the
/// normalized cross product of the triangle's two edge vectors from its
/// first vertex.
pub proof fn lemma_flat_normals_per_triangle(p: Seq<Vector3>, t: int)
    requires
        0 <= t,
        3 * t + 2 < p.len(),
    ensures
        spec_flat_normals(p)[3 * t] == spec_flat_normal(p[3 * t], p[3 * t + 1], p[3 * t + 2]),
        spec_flat_normals(p)[3 * t + 1] == spec_flat_normal(p[3 * t], p[3 * t + 1], p[3 * t + 2]),
        spec_flat_normals(p)[3 * t + 2] == spec_flat_normal(p[3 * t], p[3 * t + 1], p[3 * t + 2]),
{
    assert((3 * t) / 3 == t) by (nonlinear_arith);
    assert((3 * t + 1) / 3 == t) by (nonlinear_arith);
    assert((3 * t + 2) / 3 == t) by (nonlinear_arith);
}

} // verus!
