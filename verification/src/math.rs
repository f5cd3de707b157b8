//! Vectors, matrices, quaternions and bounding dimensions over IEEE-754
//! bit patterns.
//!
//! Each executable operation is specified by a spec-level mirror written
//! over the scalar functions of `crate::fp`; the composition order of
//! every product and sum is part of the contract.

use vstd::prelude::*;
use crate::fp::{
    f32_add, f32_sub, f32_mul, f32_div, f32_min, f32_max, f32_sqrt, is_plain, is_nan,
    add_bits, sub_bits, mul_bits, div_bits, min_bits, max_bits, sqrt_bits, lemma_sqrt_one,
    F32_POS_ZERO, F32_ONE, F32_TWO, F32_POS_INF, F32_NEG_INF,
};

verus! {

#[derive(Clone, Copy, PartialEq, Eq, Structural, Debug)]
pub struct Vector2 {
    pub x: u32,
    pub y: u32,
}

#[derive(Clone, Copy, PartialEq, Eq, Structural, Debug)]
pub struct Vector3 {
    pub x: u32,
    pub y: u32,
    pub z: u32,
}

#[derive(Clone, Copy, PartialEq, Eq, Structural, Debug)]
pub struct Vector4 {
    pub x: u32,
    pub y: u32,
    pub z: u32,
    pub w: u32,
}

/// A 4x4 matrix; `m_rc` is the entry of row `r` and column `c`.
#[derive(Clone, Copy, PartialEq, Eq, Structural, Debug)]
pub struct Matrix4 {
    pub m00: u32, pub m01: u32, pub m02: u32, pub m03: u32,
    pub m10: u32, pub m11: u32, pub m12: u32, pub m13: u32,
    pub m20: u32, pub m21: u32, pub m22: u32, pub m23: u32,
    pub m30: u32, pub m31: u32, pub m32: u32, pub m33: u32,
}

/// A quaternion in `w + xi + yj + zk` form.
#[derive(Clone, Copy, PartialEq, Eq, Structural, Debug)]
pub struct Quaternion {
    pub w: u32,
    pub x: u32,
    pub y: u32,
    pub z: u32,
}

pub open spec fn v3_plain(v: Vector3) -> bool {
    is_plain(v.x) && is_plain(v.y) && is_plain(v.z)
}

// ---------------------------------------------------------------------------
// Vector arithmetic.
// ---------------------------------------------------------------------------

pub open spec fn spec_v3_add(a: Vector3, b: Vector3) -> Vector3 {
    Vector3 { x: f32_add(a.x, b.x), y: f32_add(a.y, b.y), z: f32_add(a.z, b.z) }
}

pub open spec fn spec_v3_sub(a: Vector3, b: Vector3) -> Vector3 {
    Vector3 { x: f32_sub(a.x, b.x), y: f32_sub(a.y, b.y), z: f32_sub(a.z, b.z) }
}

/// Dot product, summed left to right.
pub open spec fn spec_v3_dot(a: Vector3, b: Vector3) -> u32 {
    f32_add(f32_add(f32_mul(a.x, b.x), f32_mul(a.y, b.y)), f32_mul(a.z, b.z))
}

pub open spec fn spec_v3_cross(a: Vector3, b: Vector3) -> Vector3 {
    Vector3 {
        x: f32_sub(f32_mul(a.y, b.z), f32_mul(a.z, b.y)),
        y: f32_sub(f32_mul(a.z, b.x), f32_mul(a.x, b.z)),
        z: f32_sub(f32_mul(a.x, b.y), f32_mul(a.y, b.x)),
    }
}

/// Euclidean length: the square root of the dot product with itself.
pub open spec fn spec_v3_norm(a: Vector3) -> u32 {
    f32_sqrt(spec_v3_dot(a, a))
}

/// Each component divided by the length.
pub open spec fn spec_v3_normalize(a: Vector3) -> Vector3 {
    let n = spec_v3_norm(a);
    Vector3 { x: f32_div(a.x, n), y: f32_div(a.y, n), z: f32_div(a.z, n) }
}

pub open spec fn spec_v4_dot(a: Vector4, b: Vector4) -> u32 {
    f32_add(
        f32_add(f32_add(f32_mul(a.x, b.x), f32_mul(a.y, b.y)), f32_mul(a.z, b.z)),
        f32_mul(a.w, b.w),
    )
}

pub open spec fn spec_v4_norm(a: Vector4) -> u32 {
    f32_sqrt(spec_v4_dot(a, a))
}

pub open spec fn spec_v4_normalize(a: Vector4) -> Vector4 {
    let n = spec_v4_norm(a);
    Vector4 {
        x: f32_div(a.x, n),
        y: f32_div(a.y, n),
        z: f32_div(a.z, n),
        w: f32_div(a.w, n),
    }
}

/// Component-wise minimum, as folding `f32_min` over each axis does.
pub open spec fn spec_v3_min(a: Vector3, b: Vector3) -> Vector3 {
    Vector3 { x: f32_min(a.x, b.x), y: f32_min(a.y, b.y), z: f32_min(a.z, b.z) }
}

pub open spec fn spec_v3_max(a: Vector3, b: Vector3) -> Vector3 {
    Vector3 { x: f32_max(a.x, b.x), y: f32_max(a.y, b.y), z: f32_max(a.z, b.z) }
}

impl Vector3 {
    pub fn new(x: u32, y: u32, z: u32) -> (r: Vector3)
        ensures
            r == (Vector3 { x, y, z }),
    {
        Vector3 { x, y, z }
    }

    pub fn zero() -> (r: Vector3)
        ensures
            r == (Vector3 { x: F32_POS_ZERO, y: F32_POS_ZERO, z: F32_POS_ZERO }),
    {
        Vector3 { x: F32_POS_ZERO, y: F32_POS_ZERO, z: F32_POS_ZERO }
    }

    pub fn add(&self, o: &Vector3) -> (r: Vector3)
        ensures
            r == spec_v3_add(*self, *o),
    {
        Vector3 {
            x: add_bits(self.x, o.x),
            y: add_bits(self.y, o.y),
            z: add_bits(self.z, o.z),
        }
    }

    pub fn sub(&self, o: &Vector3) -> (r: Vector3)
        ensures
            r == spec_v3_sub(*self, *o),
    {
        Vector3 {
            x: sub_bits(self.x, o.x),
            y: sub_bits(self.y, o.y),
            z: sub_bits(self.z, o.z),
        }
    }

    pub fn dot(&self, o: &Vector3) -> (r: u32)
        ensures
            r == spec_v3_dot(*self, *o),
    {
        add_bits(add_bits(mul_bits(self.x, o.x), mul_bits(self.y, o.y)), mul_bits(self.z, o.z))
    }

    pub fn cross(&self, o: &Vector3) -> (r: Vector3)
        ensures
            r == spec_v3_cross(*self, *o),
    {
        Vector3 {
            x: sub_bits(mul_bits(self.y, o.z), mul_bits(self.z, o.y)),
            y: sub_bits(mul_bits(self.z, o.x), mul_bits(self.x, o.z)),
            z: sub_bits(mul_bits(self.x, o.y), mul_bits(self.y, o.x)),
        }
    }

    pub fn norm(&self) -> (r: u32)
        ensures
            r == spec_v3_norm(*self),
    {
        sqrt_bits(self.dot(self))
    }

    pub fn normalize(&self) -> (r: Vector3)
        ensures
            r == spec_v3_normalize(*self),
    {
        let n = self.norm();
        Vector3 { x: div_bits(self.x, n), y: div_bits(self.y, n), z: div_bits(self.z, n) }
    }

    pub fn component_min(&self, o: &Vector3) -> (r: Vector3)
        ensures
            r == spec_v3_min(*self, *o),
    {
        Vector3 {
            x: min_bits(self.x, o.x),
            y: min_bits(self.y, o.y),
            z: min_bits(self.z, o.z),
        }
    }

    pub fn component_max(&self, o: &Vector3) -> (r: Vector3)
        ensures
            r == spec_v3_max(*self, *o),
    {
        Vector3 {
            x: max_bits(self.x, o.x),
            y: max_bits(self.y, o.y),
            z: max_bits(self.z, o.z),
        }
    }
}

impl Vector4 {
    pub fn new(x: u32, y: u32, z: u32, w: u32) -> (r: Vector4)
        ensures
            r == (Vector4 { x, y, z, w }),
    {
        Vector4 { x, y, z, w }
    }

    pub fn dot(&self, o: &Vector4) -> (r: u32)
        ensures
            r == spec_v4_dot(*self, *o),
    {
        add_bits(
            add_bits(
                add_bits(mul_bits(self.x, o.x), mul_bits(self.y, o.y)),
                mul_bits(self.z, o.z),
            ),
            mul_bits(self.w, o.w),
        )
    }

    pub fn norm(&self) -> (r: u32)
        ensures
            r == spec_v4_norm(*self),
    {
        sqrt_bits(self.dot(self))
    }

    pub fn normalize(&self) -> (r: Vector4)
        ensures
            r == spec_v4_normalize(*self),
    {
        let n = self.norm();
        Vector4 {
            x: div_bits(self.x, n),
            y: div_bits(self.y, n),
            z: div_bits(self.z, n),
            w: div_bits(self.w, n),
        }
    }
}

// ---------------------------------------------------------------------------
// Matrices.
// ---------------------------------------------------------------------------

pub open spec fn mat4_identity() -> Matrix4 {
    Matrix4 {
        m00: F32_ONE, m01: F32_POS_ZERO, m02: F32_POS_ZERO, m03: F32_POS_ZERO,
        m10: F32_POS_ZERO, m11: F32_ONE, m12: F32_POS_ZERO, m13: F32_POS_ZERO,
        m20: F32_POS_ZERO, m21: F32_POS_ZERO, m22: F32_ONE, m23: F32_POS_ZERO,
        m30: F32_POS_ZERO, m31: F32_POS_ZERO, m32: F32_POS_ZERO, m33: F32_ONE,
    }
}

pub open spec fn mat4_plain(m: Matrix4) -> bool {
    &&& is_plain(m.m00) &&& is_plain(m.m01) &&& is_plain(m.m02) &&& is_plain(m.m03)
    &&& is_plain(m.m10) &&& is_plain(m.m11) &&& is_plain(m.m12) &&& is_plain(m.m13)
    &&& is_plain(m.m20) &&& is_plain(m.m21) &&& is_plain(m.m22) &&& is_plain(m.m23)
    &&& is_plain(m.m30) &&& is_plain(m.m31) &&& is_plain(m.m32) &&& is_plain(m.m33)
}

/// One entry of a matrix product: the dot product of a row with a
/// column, summed left to right.
pub open spec fn spec_mat4_entry(a0: u32, b0: u32, a1: u32, b1: u32, a2: u32, b2: u32, a3: u32, b3: u32) -> u32 {
    f32_add(
        f32_add(f32_add(f32_mul(a0, b0), f32_mul(a1, b1)), f32_mul(a2, b2)),
        f32_mul(a3, b3),
    )
}

pub open spec fn spec_mat4_mul(a: Matrix4, b: Matrix4) -> Matrix4 {
    Matrix4 {
        m00: spec_mat4_entry(a.m00, b.m00, a.m01, b.m10, a.m02, b.m20, a.m03, b.m30),
        m01: spec_mat4_entry(a.m00, b.m01, a.m01, b.m11, a.m02, b.m21, a.m03, b.m31),
        m02: spec_mat4_entry(a.m00, b.m02, a.m01, b.m12, a.m02, b.m22, a.m03, b.m32),
        m03: spec_mat4_entry(a.m00, b.m03, a.m01, b.m13, a.m02, b.m23, a.m03, b.m33),
        m10: spec_mat4_entry(a.m10, b.m00, a.m11, b.m10, a.m12, b.m20, a.m13, b.m30),
        m11: spec_mat4_entry(a.m10, b.m01, a.m11, b.m11, a.m12, b.m21, a.m13, b.m31),
        m12: spec_mat4_entry(a.m10, b.m02, a.m11, b.m12, a.m12, b.m22, a.m13, b.m32),
        m13: spec_mat4_entry(a.m10, b.m03, a.m11, b.m13, a.m12, b.m23, a.m13, b.m33),
        m20: spec_mat4_entry(a.m20, b.m00, a.m21, b.m10, a.m22, b.m20, a.m23, b.m30),
        m21: spec_mat4_entry(a.m20, b.m01, a.m21, b.m11, a.m22, b.m21, a.m23, b.m31),
        m22: spec_mat4_entry(a.m20, b.m02, a.m21, b.m12, a.m22, b.m22, a.m23, b.m32),
        m23: spec_mat4_entry(a.m20, b.m03, a.m21, b.m13, a.m22, b.m23, a.m23, b.m33),
        m30: spec_mat4_entry(a.m30, b.m00, a.m31, b.m10, a.m32, b.m20, a.m33, b.m30),
        m31: spec_mat4_entry(a.m30, b.m01, a.m31, b.m11, a.m32, b.m21, a.m33, b.m31),
        m32: spec_mat4_entry(a.m30, b.m02, a.m31, b.m12, a.m32, b.m22, a.m33, b.m32),
        m33: spec_mat4_entry(a.m30, b.m03, a.m31, b.m13, a.m32, b.m23, a.m33, b.m33),
    }
}

/// The product of the matrix with a homogeneous column vector.
pub open spec fn spec_mat4_mul_v4(m: Matrix4, v: Vector4) -> Vector4 {
    Vector4 {
        x: spec_mat4_entry(m.m00, v.x, m.m01, v.y, m.m02, v.z, m.m03, v.w),
        y: spec_mat4_entry(m.m10, v.x, m.m11, v.y, m.m12, v.z, m.m13, v.w),
        z: spec_mat4_entry(m.m20, v.x, m.m21, v.y, m.m22, v.z, m.m23, v.w),
        w: spec_mat4_entry(m.m30, v.x, m.m31, v.y, m.m32, v.z, m.m33, v.w),
    }
}

/// The upper-left 3x3 block applied to a vector: translation does not
/// move direction vectors.
pub open spec fn spec_transform_vector(m: Matrix4, v: Vector3) -> Vector3 {
    Vector3 {
        x: f32_add(f32_add(f32_mul(m.m00, v.x), f32_mul(m.m01, v.y)), f32_mul(m.m02, v.z)),
        y: f32_add(f32_add(f32_mul(m.m10, v.x), f32_mul(m.m11, v.y)), f32_mul(m.m12, v.z)),
        z: f32_add(f32_add(f32_mul(m.m20, v.x), f32_mul(m.m21, v.y)), f32_mul(m.m22, v.z)),
    }
}

/// The full affine transform applied to a point: the 3x3 block plus the
/// translation column, with a unit homogeneous coordinate implied.
pub open spec fn spec_transform_point(m: Matrix4, v: Vector3) -> Vector3 {
    Vector3 {
        x: f32_add(
            f32_add(f32_add(f32_mul(m.m00, v.x), f32_mul(m.m01, v.y)), f32_mul(m.m02, v.z)),
            m.m03,
        ),
        y: f32_add(
            f32_add(f32_add(f32_mul(m.m10, v.x), f32_mul(m.m11, v.y)), f32_mul(m.m12, v.z)),
            m.m13,
        ),
        z: f32_add(
            f32_add(f32_add(f32_mul(m.m20, v.x), f32_mul(m.m21, v.y)), f32_mul(m.m22, v.z)),
            m.m23,
        ),
    }
}

pub open spec fn spec_new_translation(t: Vector3) -> Matrix4 {
    Matrix4 {
        m00: F32_ONE, m01: F32_POS_ZERO, m02: F32_POS_ZERO, m03: t.x,
        m10: F32_POS_ZERO, m11: F32_ONE, m12: F32_POS_ZERO, m13: t.y,
        m20: F32_POS_ZERO, m21: F32_POS_ZERO, m22: F32_ONE, m23: t.z,
        m30: F32_POS_ZERO, m31: F32_POS_ZERO, m32: F32_POS_ZERO, m33: F32_ONE,
    }
}

pub open spec fn spec_new_nonuniform_scaling(s: Vector3) -> Matrix4 {
    Matrix4 {
        m00: s.x, m01: F32_POS_ZERO, m02: F32_POS_ZERO, m03: F32_POS_ZERO,
        m10: F32_POS_ZERO, m11: s.y, m12: F32_POS_ZERO, m13: F32_POS_ZERO,
        m20: F32_POS_ZERO, m21: F32_POS_ZERO, m22: s.z, m23: F32_POS_ZERO,
        m30: F32_POS_ZERO, m31: F32_POS_ZERO, m32: F32_POS_ZERO, m33: F32_ONE,
    }
}

impl Matrix4 {
    pub fn identity() -> (r: Matrix4)
        ensures
            r == mat4_identity(),
    {
        Matrix4 {
            m00: F32_ONE, m01: F32_POS_ZERO, m02: F32_POS_ZERO, m03: F32_POS_ZERO,
            m10: F32_POS_ZERO, m11: F32_ONE, m12: F32_POS_ZERO, m13: F32_POS_ZERO,
            m20: F32_POS_ZERO, m21: F32_POS_ZERO, m22: F32_ONE, m23: F32_POS_ZERO,
            m30: F32_POS_ZERO, m31: F32_POS_ZERO, m32: F32_POS_ZERO, m33: F32_ONE,
        }
    }

    pub fn new_translation(t: &Vector3) -> (r: Matrix4)
        ensures
            r == spec_new_translation(*t),
            t.x == F32_POS_ZERO && t.y == F32_POS_ZERO && t.z == F32_POS_ZERO ==> r
                == mat4_identity(),
    {
        Matrix4 {
            m00: F32_ONE, m01: F32_POS_ZERO, m02: F32_POS_ZERO, m03: t.x,
            m10: F32_POS_ZERO, m11: F32_ONE, m12: F32_POS_ZERO, m13: t.y,
            m20: F32_POS_ZERO, m21: F32_POS_ZERO, m22: F32_ONE, m23: t.z,
            m30: F32_POS_ZERO, m31: F32_POS_ZERO, m32: F32_POS_ZERO, m33: F32_ONE,
        }
    }

    pub fn new_nonuniform_scaling(s: &Vector3) -> (r: Matrix4)
        ensures
            r == spec_new_nonuniform_scaling(*s),
            s.x == F32_ONE && s.y == F32_ONE && s.z == F32_ONE ==> r == mat4_identity(),
    {
        Matrix4 {
            m00: s.x, m01: F32_POS_ZERO, m02: F32_POS_ZERO, m03: F32_POS_ZERO,
            m10: F32_POS_ZERO, m11: s.y, m12: F32_POS_ZERO, m13: F32_POS_ZERO,
            m20: F32_POS_ZERO, m21: F32_POS_ZERO, m22: s.z, m23: F32_POS_ZERO,
            m30: F32_POS_ZERO, m31: F32_POS_ZERO, m32: F32_POS_ZERO, m33: F32_ONE,
        }
    }

    /// Matrix product; multiplying by the identity on the left returns
    /// the right operand exactly, provided its entries are plain.
    pub fn matmul(&self, o: &Matrix4) -> (r: Matrix4)
        ensures
            r == spec_mat4_mul(*self, *o),
            *self == mat4_identity() && mat4_plain(*o) ==> r == *o,
    {
        Matrix4 {
            m00: mat4_entry(self.m00, o.m00, self.m01, o.m10, self.m02, o.m20, self.m03, o.m30),
            m01: mat4_entry(self.m00, o.m01, self.m01, o.m11, self.m02, o.m21, self.m03, o.m31),
            m02: mat4_entry(self.m00, o.m02, self.m01, o.m12, self.m02, o.m22, self.m03, o.m32),
            m03: mat4_entry(self.m00, o.m03, self.m01, o.m13, self.m02, o.m23, self.m03, o.m33),
            m10: mat4_entry(self.m10, o.m00, self.m11, o.m10, self.m12, o.m20, self.m13, o.m30),
            m11: mat4_entry(self.m10, o.m01, self.m11, o.m11, self.m12, o.m21, self.m13, o.m31),
            m12: mat4_entry(self.m10, o.m02, self.m11, o.m12, self.m12, o.m22, self.m13, o.m32),
            m13: mat4_entry(self.m10, o.m03, self.m11, o.m13, self.m12, o.m23, self.m13, o.m33),
            m20: mat4_entry(self.m20, o.m00, self.m21, o.m10, self.m22, o.m20, self.m23, o.m30),
            m21: mat4_entry(self.m20, o.m01, self.m21, o.m11, self.m22, o.m21, self.m23, o.m31),
            m22: mat4_entry(self.m20, o.m02, self.m21, o.m12, self.m22, o.m22, self.m23, o.m32),
            m23: mat4_entry(self.m20, o.m03, self.m21, o.m13, self.m22, o.m23, self.m23, o.m33),
            m30: mat4_entry(self.m30, o.m00, self.m31, o.m10, self.m32, o.m20, self.m33, o.m30),
            m31: mat4_entry(self.m30, o.m01, self.m31, o.m11, self.m32, o.m21, self.m33, o.m31),
            m32: mat4_entry(self.m30, o.m02, self.m31, o.m12, self.m32, o.m22, self.m33, o.m32),
            m33: mat4_entry(self.m30, o.m03, self.m31, o.m13, self.m32, o.m23, self.m33, o.m33),
        }
    }

    /// Product with a homogeneous column vector; the identity matrix
    /// returns the vector exactly, provided its entries are plain.
    pub fn mul_v4(&self, v: &Vector4) -> (r: Vector4)
        ensures
            r == spec_mat4_mul_v4(*self, *v),
            *self == mat4_identity() && is_plain(v.x) && is_plain(v.y) && is_plain(v.z)
                && is_plain(v.w) ==> r == *v,
    {
        Vector4 {
            x: mat4_entry(self.m00, v.x, self.m01, v.y, self.m02, v.z, self.m03, v.w),
            y: mat4_entry(self.m10, v.x, self.m11, v.y, self.m12, v.z, self.m13, v.w),
            z: mat4_entry(self.m20, v.x, self.m21, v.y, self.m22, v.z, self.m23, v.w),
            w: mat4_entry(self.m30, v.x, self.m31, v.y, self.m32, v.z, self.m33, v.w),
        }
    }

    /// The full affine transform applied to a point, translation
    /// included.
    pub fn transform_point(&self, v: &Vector3) -> (r: Vector3)
        ensures
            r == spec_transform_point(*self, *v),
    {
        Vector3 {
            x: add_bits(
                add_bits(
                    add_bits(mul_bits(self.m00, v.x), mul_bits(self.m01, v.y)),
                    mul_bits(self.m02, v.z),
                ),
                self.m03,
            ),
            y: add_bits(
                add_bits(
                    add_bits(mul_bits(self.m10, v.x), mul_bits(self.m11, v.y)),
                    mul_bits(self.m12, v.z),
                ),
                self.m13,
            ),
            z: add_bits(
                add_bits(
                    add_bits(mul_bits(self.m20, v.x), mul_bits(self.m21, v.y)),
                    mul_bits(self.m22, v.z),
                ),
                self.m23,
            ),
        }
    }

    /// The upper-left 3x3 block applied to a direction vector.
    pub fn transform_vector(&self, v: &Vector3) -> (r: Vector3)
        ensures
            r == spec_transform_vector(*self, *v),
    {
        Vector3 {
            x: add_bits(
                add_bits(mul_bits(self.m00, v.x), mul_bits(self.m01, v.y)),
                mul_bits(self.m02, v.z),
            ),
            y: add_bits(
                add_bits(mul_bits(self.m10, v.x), mul_bits(self.m11, v.y)),
                mul_bits(self.m12, v.z),
            ),
            z: add_bits(
                add_bits(mul_bits(self.m20, v.x), mul_bits(self.m21, v.y)),
                mul_bits(self.m22, v.z),
            ),
        }
    }
}

fn mat4_entry(a0: u32, b0: u32, a1: u32, b1: u32, a2: u32, b2: u32, a3: u32, b3: u32) -> (r: u32)
    ensures
        r == spec_mat4_entry(a0, b0, a1, b1, a2, b2, a3, b3),
        a0 == F32_ONE && a1 == F32_POS_ZERO && a2 == F32_POS_ZERO && a3 == F32_POS_ZERO
            && is_plain(b0) && is_plain(b1) && is_plain(b2) && is_plain(b3) ==> r == b0,
        a0 == F32_POS_ZERO && a1 == F32_ONE && a2 == F32_POS_ZERO && a3 == F32_POS_ZERO
            && is_plain(b0) && is_plain(b1) && is_plain(b2) && is_plain(b3) ==> r == b1,
        a0 == F32_POS_ZERO && a1 == F32_POS_ZERO && a2 == F32_ONE && a3 == F32_POS_ZERO
            && is_plain(b0) && is_plain(b1) && is_plain(b2) && is_plain(b3) ==> r == b2,
        a0 == F32_POS_ZERO && a1 == F32_POS_ZERO && a2 == F32_POS_ZERO && a3 == F32_ONE
            && is_plain(b0) && is_plain(b1) && is_plain(b2) && is_plain(b3) ==> r == b3,
{
    add_bits(
        add_bits(add_bits(mul_bits(a0, b0), mul_bits(a1, b1)), mul_bits(a2, b2)),
        mul_bits(a3, b3),
    )
}

// ---------------------------------------------------------------------------
// Quaternions.
// ---------------------------------------------------------------------------

/// The identity rotation.
pub open spec fn quat_identity() -> Quaternion {
    Quaternion { w: F32_ONE, x: F32_POS_ZERO, y: F32_POS_ZERO, z: F32_POS_ZERO }
}

/// Quaternion length: the coordinates are summed in `x, y, z, w` order.
pub open spec fn spec_quat_norm(q: Quaternion) -> u32 {
    f32_sqrt(
        f32_add(
            f32_add(f32_add(f32_mul(q.x, q.x), f32_mul(q.y, q.y)), f32_mul(q.z, q.z)),
            f32_mul(q.w, q.w),
        ),
    )
}

pub open spec fn spec_quat_normalize(q: Quaternion) -> Quaternion {
    let n = spec_quat_norm(q);
    Quaternion {
        w: f32_div(q.w, n),
        x: f32_div(q.x, n),
        y: f32_div(q.y, n),
        z: f32_div(q.z, n),
    }
}

/// The homogeneous rotation matrix of a unit quaternion, with the entry
/// formulas `ww+ii-jj-kk`, `ij-wk`, ... evaluated left to right.
pub open spec fn spec_quat_to_homogeneous(q: Quaternion) -> Matrix4 {
    let ww = f32_mul(q.w, q.w);
    let ii = f32_mul(q.x, q.x);
    let jj = f32_mul(q.y, q.y);
    let kk = f32_mul(q.z, q.z);
    let ij = f32_mul(f32_mul(q.x, q.y), F32_TWO);
    let wk = f32_mul(f32_mul(q.w, q.z), F32_TWO);
    let wj = f32_mul(f32_mul(q.w, q.y), F32_TWO);
    let ik = f32_mul(f32_mul(q.x, q.z), F32_TWO);
    let jk = f32_mul(f32_mul(q.y, q.z), F32_TWO);
    let wi = f32_mul(f32_mul(q.w, q.x), F32_TWO);
    Matrix4 {
        m00: f32_sub(f32_sub(f32_add(ww, ii), jj), kk),
        m01: f32_sub(ij, wk),
        m02: f32_add(wj, ik),
        m03: F32_POS_ZERO,
        m10: f32_add(wk, ij),
        m11: f32_sub(f32_add(f32_sub(ww, ii), jj), kk),
        m12: f32_sub(jk, wi),
        m13: F32_POS_ZERO,
        m20: f32_sub(ik, wj),
        m21: f32_add(wi, jk),
        m22: f32_add(f32_sub(f32_sub(ww, ii), jj), kk),
        m23: F32_POS_ZERO,
        m30: F32_POS_ZERO,
        m31: F32_POS_ZERO,
        m32: F32_POS_ZERO,
        m33: F32_ONE,
    }
}

impl Quaternion {
    /// Arguments in `w, x, y, z` order.
    pub fn new(w: u32, x: u32, y: u32, z: u32) -> (r: Quaternion)
        ensures
            r == (Quaternion { w, x, y, z }),
    {
        Quaternion { w, x, y, z }
    }

    /// Scale to unit length; the identity quaternion is returned
    /// unchanged.
    pub fn normalize(&self) -> (r: Quaternion)
        ensures
            r == spec_quat_normalize(*self),
            *self == quat_identity() ==> r == quat_identity(),
    {
        proof {
            lemma_sqrt_one();
        }
        let n = sqrt_bits(
            add_bits(
                add_bits(
                    add_bits(mul_bits(self.x, self.x), mul_bits(self.y, self.y)),
                    mul_bits(self.z, self.z),
                ),
                mul_bits(self.w, self.w),
            ),
        );
        Quaternion {
            w: div_bits(self.w, n),
            x: div_bits(self.x, n),
            y: div_bits(self.y, n),
            z: div_bits(self.z, n),
        }
    }

    /// The homogeneous rotation matrix; the identity quaternion yields
    /// the identity matrix.
    pub fn to_homogeneous(&self) -> (r: Matrix4)
        ensures
            r == spec_quat_to_homogeneous(*self),
            *self == quat_identity() ==> r == mat4_identity(),
    {
        let ww = mul_bits(self.w, self.w);
        let ii = mul_bits(self.x, self.x);
        let jj = mul_bits(self.y, self.y);
        let kk = mul_bits(self.z, self.z);
        let ij = mul_bits(mul_bits(self.x, self.y), F32_TWO);
        let wk = mul_bits(mul_bits(self.w, self.z), F32_TWO);
        let wj = mul_bits(mul_bits(self.w, self.y), F32_TWO);
        let ik = mul_bits(mul_bits(self.x, self.z), F32_TWO);
        let jk = mul_bits(mul_bits(self.y, self.z), F32_TWO);
        let wi = mul_bits(mul_bits(self.w, self.x), F32_TWO);
        Matrix4 {
            m00: sub_bits(sub_bits(add_bits(ww, ii), jj), kk),
            m01: sub_bits(ij, wk),
            m02: add_bits(wj, ik),
            m03: F32_POS_ZERO,
            m10: add_bits(wk, ij),
            m11: sub_bits(add_bits(sub_bits(ww, ii), jj), kk),
            m12: sub_bits(jk, wi),
            m13: F32_POS_ZERO,
            m20: sub_bits(ik, wj),
            m21: add_bits(wi, jk),
            m22: add_bits(sub_bits(sub_bits(ww, ii), jj), kk),
            m23: F32_POS_ZERO,
            m30: F32_POS_ZERO,
            m31: F32_POS_ZERO,
            m32: F32_POS_ZERO,
            m33: F32_ONE,
        }
    }
}

// ---------------------------------------------------------------------------
// Bounding dimensions.
// ---------------------------------------------------------------------------

/// Scene or primitive bounds: the extreme corners together with derived
/// size, center and radius.
#[derive(Clone, Copy, PartialEq, Eq, Structural, Debug)]
pub struct Dimensions {
    pub min: Vector3,
    pub max: Vector3,
    pub size: Vector3,
    pub center: Vector3,
    pub radius: u32,
}

/// The untouched accumulator state: min at positive infinity and max at
/// negative infinity, so that any folded corner replaces both.
pub open spec fn dimensions_sentinel_min() -> Vector3 {
    Vector3 { x: F32_POS_INF, y: F32_POS_INF, z: F32_POS_INF }
}

pub open spec fn dimensions_sentinel_max() -> Vector3 {
    Vector3 { x: F32_NEG_INF, y: F32_NEG_INF, z: F32_NEG_INF }
}

pub open spec fn spec_dimensions_new(min: Vector3, max: Vector3) -> Dimensions {
    let diff = spec_v3_sub(max, min);
    Dimensions {
        min,
        max,
        size: diff,
        center: Vector3 {
            x: f32_div(f32_add(min.x, max.x), F32_TWO),
            y: f32_div(f32_add(min.y, max.y), F32_TWO),
            z: f32_div(f32_add(min.z, max.z), F32_TWO),
        },
        radius: f32_div(spec_v3_norm(diff), F32_TWO),
    }
}

impl Dimensions {
    /// Derive size, center and radius from the two extreme corners.
    pub fn new(min: Vector3, max: Vector3) -> (r: Dimensions)
        ensures
            r == spec_dimensions_new(min, max),
    {
        let diff = max.sub(&min);
        let distance = diff.norm();
        Dimensions {
            min,
            max,
            size: diff,
            center: Vector3 {
                x: div_bits(add_bits(min.x, max.x), F32_TWO),
                y: div_bits(add_bits(min.y, max.y), F32_TWO),
                z: div_bits(add_bits(min.z, max.z), F32_TWO),
            },
            radius: div_bits(distance, F32_TWO),
        }
    }
}

impl Default for Dimensions {
    /// The empty state: sentinel corners and zero size, center, radius.
    fn default() -> (r: Dimensions)
        ensures
            r.min == dimensions_sentinel_min(),
            r.max == dimensions_sentinel_max(),
            r.size == (Vector3 { x: F32_POS_ZERO, y: F32_POS_ZERO, z: F32_POS_ZERO }),
            r.center == (Vector3 { x: F32_POS_ZERO, y: F32_POS_ZERO, z: F32_POS_ZERO }),
            r.radius == F32_POS_ZERO,
    {
        Dimensions {
            min: Vector3 { x: F32_POS_INF, y: F32_POS_INF, z: F32_POS_INF },
            max: Vector3 { x: F32_NEG_INF, y: F32_NEG_INF, z: F32_NEG_INF },
            size: Vector3 { x: F32_POS_ZERO, y: F32_POS_ZERO, z: F32_POS_ZERO },
            center: Vector3 { x: F32_POS_ZERO, y: F32_POS_ZERO, z: F32_POS_ZERO },
            radius: F32_POS_ZERO,
        }
    }
}

} // verus!
