//! The 4x4 transform matrix handed to the vertex stage.
//!
//! The shader multiplies each vertex position by a uniform 4x4 matrix; this
//! design only ever uses the identity, so the matrix is modelled over exact
//! integers and the no-op character of the transform is proved, not assumed.

use vstd::prelude::*;

verus! {

/// A column of four integer components, also used for homogeneous positions.
#[derive(Clone, Copy, Debug, PartialEq, Eq, Structural)]
pub struct Vec4 {
    pub x: i32,
    pub y: i32,
    pub z: i32,
    pub w: i32,
}

/// A 4x4 matrix in row-major order, with exact integer entries.
#[derive(Clone, Copy, Debug, PartialEq, Eq, Structural)]
pub struct Mat4 {
    pub r0: Vec4,
    pub r1: Vec4,
    pub r2: Vec4,
    pub r3: Vec4,
}

/// The dot product of two rows/columns, over unbounded integers.
pub open spec fn dot(a: Vec4, b: Vec4) -> int {
    a.x * b.x + a.y * b.y + a.z * b.z + a.w * b.w
}

/// The matrix-vector product `m * v`, over unbounded integers.
pub open spec fn mul_vec_spec(m: Mat4, v: Vec4) -> (int, int, int, int) {
    (dot(m.r0, v), dot(m.r1, v), dot(m.r2, v), dot(m.r3, v))
}

/// The identity matrix.
pub open spec fn identity_spec() -> Mat4 {
    Mat4 {
        r0: Vec4 { x: 1, y: 0, z: 0, w: 0 },
        r1: Vec4 { x: 0, y: 1, z: 0, w: 0 },
        r2: Vec4 { x: 0, y: 0, z: 1, w: 0 },
        r3: Vec4 { x: 0, y: 0, z: 0, w: 1 },
    }
}

impl Mat4 {
    /// The identity matrix, as a value.
    pub fn identity() -> (m: Mat4)
        ensures
            m == identity_spec(),
    {
        Mat4 {
            r0: Vec4 { x: 1, y: 0, z: 0, w: 0 },
            r1: Vec4 { x: 0, y: 1, z: 0, w: 0 },
            r2: Vec4 { x: 0, y: 0, z: 1, w: 0 },
            r3: Vec4 { x: 0, y: 0, z: 0, w: 1 },
        }
    }

    /// Multiplies this matrix by a vector. The products of two `i32` values
    /// and their four-term sums always fit in an `i128`, so the result is
    /// exact for every input.
    pub fn mul_vec(&self, v: &Vec4) -> (r: (i128, i128, i128, i128))
        ensures
            (r.0 as int, r.1 as int, r.2 as int, r.3 as int) == mul_vec_spec(*self, *v),
    {
        let x = *v;
        (
            row_dot(&self.r0, &x),
            row_dot(&self.r1, &x),
            row_dot(&self.r2, &x),
            row_dot(&self.r3, &x),
        )
    }
}

/// The exact dot product of two `i32` vectors, computed in `i128`.
fn row_dot(a: &Vec4, b: &Vec4) -> (r: i128)
    ensures
        r as int == dot(*a, *b),
{
    proof {
        lemma_dot_bounded(*a, *b);
    }
    (a.x as i128) * (b.x as i128) + (a.y as i128) * (b.y as i128) + (a.z as i128) * (b.z as i128)
        + (a.w as i128) * (b.w as i128)
}

/// Each pairwise product of `i32` components stays far inside the `i128`
/// range, so the four-term dot product cannot overflow.
proof fn lemma_dot_bounded(a: Vec4, b: Vec4)
    ensures
        -0x4000000000000000int <= a.x * b.x <= 0x4000000000000000int,
        -0x4000000000000000int <= a.y * b.y <= 0x4000000000000000int,
        -0x4000000000000000int <= a.z * b.z <= 0x4000000000000000int,
        -0x4000000000000000int <= a.w * b.w <= 0x4000000000000000int,
{
    assert(a.x * b.x <= 0x4000000000000000int && a.x * b.x >= -0x4000000000000000int)
        by (nonlinear_arith)
        requires
            -0x80000000 <= a.x <= 0x7fffffff,
            -0x80000000 <= b.x <= 0x7fffffff,
    ;
    assert(a.y * b.y <= 0x4000000000000000int && a.y * b.y >= -0x4000000000000000int)
        by (nonlinear_arith)
        requires
            -0x80000000 <= a.y <= 0x7fffffff,
            -0x80000000 <= b.y <= 0x7fffffff,
    ;
    assert(a.z * b.z <= 0x4000000000000000int && a.z * b.z >= -0x4000000000000000int)
        by (nonlinear_arith)
        requires
            -0x80000000 <= a.z <= 0x7fffffff,
            -0x80000000 <= b.z <= 0x7fffffff,
    ;
    assert(a.w * b.w <= 0x4000000000000000int && a.w * b.w >= -0x4000000000000000int)
        by (nonlinear_arith)
        requires
            -0x80000000 <= a.w <= 0x7fffffff,
            -0x80000000 <= b.w <= 0x7fffffff,
    ;
}

/// The identity transform is a no-op: `identity * v == v` for every vector.
pub proof fn lemma_identity_mul_vec(v: Vec4)
    ensures
        mul_vec_spec(identity_spec(), v) == (v.x as int, v.y as int, v.z as int, v.w as int),
{
}

} // verus!
