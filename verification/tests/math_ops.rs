//! The vector and matrix layer against hand-computed hardware floats,
//! mirroring the library's fixed evaluation order.

use gltf_flatten::math::{Vector3, Vector4, Matrix4, Quaternion, Dimensions};

fn b(x: f32) -> u32 {
    x.to_bits()
}

fn v3(x: f32, y: f32, z: f32) -> Vector3 {
    Vector3 { x: b(x), y: b(y), z: b(z) }
}

fn mat(rows: [[f32; 4]; 4]) -> Matrix4 {
    Matrix4 {
        m00: b(rows[0][0]), m01: b(rows[0][1]), m02: b(rows[0][2]), m03: b(rows[0][3]),
        m10: b(rows[1][0]), m11: b(rows[1][1]), m12: b(rows[1][2]), m13: b(rows[1][3]),
        m20: b(rows[2][0]), m21: b(rows[2][1]), m22: b(rows[2][2]), m23: b(rows[2][3]),
        m30: b(rows[3][0]), m31: b(rows[3][1]), m32: b(rows[3][2]), m33: b(rows[3][3]),
    }
}

fn entry(a: [f32; 4], c: [f32; 4]) -> f32 {
    ((a[0] * c[0] + a[1] * c[1]) + a[2] * c[2]) + a[3] * c[3]
}

#[test]
fn cross_product_of_axes() {
    let x = v3(1.0, 0.0, 0.0);
    let y = v3(0.0, 1.0, 0.0);
    let r = x.cross(&y);
    assert_eq!((r.x, r.y, r.z), (b(0.0), b(0.0), b(1.0)));
}

#[test]
fn dot_product_matches_hardware() {
    let a = v3(1.5, -2.0, 0.25);
    let c = v3(4.0, 0.5, 8.0);
    let expected = (1.5f32 * 4.0 + (-2.0f32) * 0.5) + 0.25f32 * 8.0;
    assert_eq!(a.dot(&c), expected.to_bits());
}

#[test]
fn normalization_scales_to_unit_length() {
    let a = v3(0.0, 0.0, 3.0);
    let n = a.normalize();
    assert_eq!((n.x, n.y, n.z), (b(0.0), b(0.0), b(1.0)));
    let d = v3(3.0, 4.0, 0.0).normalize();
    assert_eq!((d.x, d.y, d.z), (b(0.6), b(0.8), b(0.0)));
}

#[test]
fn matrix_product_matches_hardware_order() {
    let a_rows = [
        [1.0f32, 2.0, 3.0, 4.0],
        [0.5, -1.0, 2.5, 0.0],
        [7.0, 0.25, -3.0, 1.0],
        [0.0, 0.0, 0.0, 1.0],
    ];
    let b_rows = [
        [2.0f32, 0.0, 1.0, -1.0],
        [1.5, 3.0, 0.0, 2.0],
        [0.0, -2.0, 4.0, 0.5],
        [1.0, 1.0, 1.0, 1.0],
    ];
    let r = mat(a_rows).matmul(&mat(b_rows));
    let col = |j: usize| [b_rows[0][j], b_rows[1][j], b_rows[2][j], b_rows[3][j]];
    assert_eq!(r.m00, entry(a_rows[0], col(0)).to_bits());
    assert_eq!(r.m01, entry(a_rows[0], col(1)).to_bits());
    assert_eq!(r.m12, entry(a_rows[1], col(2)).to_bits());
    assert_eq!(r.m23, entry(a_rows[2], col(3)).to_bits());
    assert_eq!(r.m33, entry(a_rows[3], col(3)).to_bits());
}

#[test]
fn identity_product_returns_operand() {
    let m = mat([
        [1.0f32, 2.0, 3.0, 4.0],
        [0.5, -1.0, 2.5, 0.0],
        [7.0, 0.25, -3.0, 1.0],
        [0.0, 0.0, 0.0, 1.0],
    ]);
    let r = Matrix4::identity().matmul(&m);
    assert_eq!(r, m);
    let v = Vector4 { x: b(1.5), y: b(-2.0), z: b(0.25), w: b(1.0) };
    let t = Matrix4::identity().mul_v4(&v);
    assert_eq!(t, v);
}

#[test]
fn translation_does_not_move_vectors() {
    let t = Matrix4::new_translation(&v3(5.0, 6.0, 7.0));
    let moved = t.transform_vector(&v3(1.0, 2.0, 3.0));
    assert_eq!((moved.x, moved.y, moved.z), (b(1.0), b(2.0), b(3.0)));
}

#[test]
fn identity_quaternion_rotates_nothing() {
    let q = Quaternion::new(b(1.0), b(0.0), b(0.0), b(0.0));
    let unit = q.normalize();
    assert_eq!(unit, q);
    assert_eq!(unit.to_homogeneous(), Matrix4::identity());
}

#[test]
fn quarter_turn_quaternion_matches_hardware() {
    // Rotation of 90 degrees about Z.
    let h = (0.5f32).sqrt();
    let q = Quaternion::new(b(h), b(0.0), b(0.0), b(h)).normalize();
    let m = q.to_homogeneous();
    // The rotated X axis is very nearly Y.
    let r = m.transform_vector(&v3(1.0, 0.0, 0.0));
    assert!(f32::from_bits(r.x).abs() < 1.0e-6);
    assert!((f32::from_bits(r.y) - 1.0).abs() < 1.0e-6);
    assert_eq!(r.z, b(0.0));
}

#[test]
fn dimensions_derive_size_center_radius() {
    let d = Dimensions::new(v3(-1.0, -2.0, -3.0), v3(1.0, 2.0, 3.0));
    assert_eq!((d.size.x, d.size.y, d.size.z), (b(2.0), b(4.0), b(6.0)));
    assert_eq!((d.center.x, d.center.y, d.center.z), (b(0.0), b(0.0), b(0.0)));
    let diag = (2.0f32 * 2.0 + 4.0 * 4.0 + 6.0 * 6.0).sqrt();
    assert_eq!(d.radius, (diag / 2.0).to_bits());
}

#[test]
fn default_dimensions_hold_sentinels() {
    let d = Dimensions::default();
    assert_eq!(d.min.x, f32::INFINITY.to_bits());
    assert_eq!(d.max.x, f32::NEG_INFINITY.to_bits());
    assert_eq!(d.radius, b(0.0));
}
