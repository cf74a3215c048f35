//! 4x4 matrices of single-precision bit patterns, in column-major order.
//!
//! The sixteen entries are stored flat, column after column, the layout a
//! GPU uniform buffer expects for a `float4x4`.  Entry `(row i, column j)`
//! sits at index `4 * j + i`.  Multiplication follows the common
//! linear-combination-of-columns form: each entry is a four-term dot
//! product summed left to right, so every bit of the result is determined
//! by the named rounding operations.

use crate::fbits::{
    abs_bits, add_bits, f32_add, f32_mul, f32_neg, is_finite_bits, mul_bits, neg_bits,
    F32_ONE_BITS, F32_ZERO_BITS,
};
use vstd::prelude::*;

verus! {

/// A 4x4 matrix; `e[4 * j + i]` is row `i` of column `j`.
#[derive(Clone, Copy)]
pub struct Mat4 {
    pub e: [u32; 16],
}

impl View for Mat4 {
    type V = Seq<u32>;

    open spec fn view(&self) -> Seq<u32> {
        self.e@
    }
}

/// Entry `k` of the product `a * b`: with `k = 4 * j + i`, the dot product
/// of row `i` of `a` with column `j` of `b`, summed left to right.
pub open spec fn mm_entry(a: Seq<u32>, b: Seq<u32>, k: int) -> u32 {
    let j = k / 4;
    let i = k % 4;
    add_bits(
        add_bits(
            add_bits(
                mul_bits(a[i], b[4 * j]),
                mul_bits(a[4 + i], b[4 * j + 1]),
            ),
            mul_bits(a[8 + i], b[4 * j + 2]),
        ),
        mul_bits(a[12 + i], b[4 * j + 3]),
    )
}

/// The matrix product `a * b`.
pub open spec fn mat_mul_spec(a: Seq<u32>, b: Seq<u32>) -> Seq<u32> {
    Seq::new(16, |k: int| mm_entry(a, b, k))
}

/// Ones on the diagonal and zeros of either sign elsewhere.  A rotation
/// whose angle has sine zero and cosine one is such a matrix, its negative
/// zero included; multiplying by it changes nothing but zero signs.
pub open spec fn near_identity(b: Seq<u32>) -> bool {
    forall|k: int|
        0 <= k < 16 ==> (if k % 5 == 0 {
            (#[trigger] b[k]) == F32_ONE_BITS
        } else {
            abs_bits(b[k]) == 0
        })
}

/// Finite entries with no negative zero among them.  A translation matrix
/// of finite components is such a matrix, and multiplying it by a
/// [`near_identity`] factor returns it exactly.
pub open spec fn plain_entries(a: Seq<u32>) -> bool {
    forall|k: int| 0 <= k < 16 ==> is_finite_bits(#[trigger] a[k]) && a[k] != 0x8000_0000u32
}

/// The identity's exact bit pattern: ones on the diagonal, positive zeros
/// elsewhere.  As a left factor it hands a [`diagonal_entries`] matrix
/// back unchanged.
pub open spec fn identity_entries(a: Seq<u32>) -> bool {
    forall|k: int|
        0 <= k < 16 ==> (if k % 5 == 0 {
            (#[trigger] a[k]) == F32_ONE_BITS
        } else {
            a[k] == F32_ZERO_BITS
        })
}

/// A finite diagonal with no negative zero on it and positive zeros
/// elsewhere.  A scale matrix of finite factors is such a matrix, and an
/// [`identity_entries`] factor on the left leaves it exactly as it is.
pub open spec fn diagonal_entries(b: Seq<u32>) -> bool {
    forall|k: int|
        0 <= k < 16 ==> (if k % 5 == 0 {
            is_finite_bits(#[trigger] b[k]) && b[k] != 0x8000_0000u32
        } else {
            b[k] == F32_ZERO_BITS
        })
}

/// The translation matrix: identity with the vector in the last column.
pub open spec fn translation_spec(t: Seq<u32>) -> Seq<u32> {
    seq![
        F32_ONE_BITS, F32_ZERO_BITS, F32_ZERO_BITS, F32_ZERO_BITS,
        F32_ZERO_BITS, F32_ONE_BITS, F32_ZERO_BITS, F32_ZERO_BITS,
        F32_ZERO_BITS, F32_ZERO_BITS, F32_ONE_BITS, F32_ZERO_BITS,
        t[0], t[1], t[2], F32_ONE_BITS,
    ]
}

/// The scale matrix: the three factors on the diagonal, one in the corner.
pub open spec fn scale_spec(s: Seq<u32>) -> Seq<u32> {
    seq![
        s[0], F32_ZERO_BITS, F32_ZERO_BITS, F32_ZERO_BITS,
        F32_ZERO_BITS, s[1], F32_ZERO_BITS, F32_ZERO_BITS,
        F32_ZERO_BITS, F32_ZERO_BITS, s[2], F32_ZERO_BITS,
        F32_ZERO_BITS, F32_ZERO_BITS, F32_ZERO_BITS, F32_ONE_BITS,
    ]
}

/// Rotation about the x axis, from the sine and cosine of the angle.
pub open spec fn rotation_x_spec(sin_t: u32, cos_t: u32) -> Seq<u32> {
    seq![
        F32_ONE_BITS, F32_ZERO_BITS, F32_ZERO_BITS, F32_ZERO_BITS,
        F32_ZERO_BITS, cos_t, sin_t, F32_ZERO_BITS,
        F32_ZERO_BITS, neg_bits(sin_t), cos_t, F32_ZERO_BITS,
        F32_ZERO_BITS, F32_ZERO_BITS, F32_ZERO_BITS, F32_ONE_BITS,
    ]
}

/// Rotation about the y axis, from the sine and cosine of the angle.
pub open spec fn rotation_y_spec(sin_t: u32, cos_t: u32) -> Seq<u32> {
    seq![
        cos_t, F32_ZERO_BITS, neg_bits(sin_t), F32_ZERO_BITS,
        F32_ZERO_BITS, F32_ONE_BITS, F32_ZERO_BITS, F32_ZERO_BITS,
        sin_t, F32_ZERO_BITS, cos_t, F32_ZERO_BITS,
        F32_ZERO_BITS, F32_ZERO_BITS, F32_ZERO_BITS, F32_ONE_BITS,
    ]
}

/// Rotation about the z axis, from the sine and cosine of the angle.
pub open spec fn rotation_z_spec(sin_t: u32, cos_t: u32) -> Seq<u32> {
    seq![
        cos_t, sin_t, F32_ZERO_BITS, F32_ZERO_BITS,
        neg_bits(sin_t), cos_t, F32_ZERO_BITS, F32_ZERO_BITS,
        F32_ZERO_BITS, F32_ZERO_BITS, F32_ONE_BITS, F32_ZERO_BITS,
        F32_ZERO_BITS, F32_ZERO_BITS, F32_ZERO_BITS, F32_ONE_BITS,
    ]
}

impl Mat4 {
    /// The sixteen entries, flat and column-major.
    pub fn entries(&self) -> (r: [u32; 16])
        ensures
            r@ == self@,
    {
        self.e
    }

    /// A matrix from sixteen flat column-major entries.
    pub fn from_entries(e: [u32; 16]) -> (r: Mat4)
        ensures
            r@ == e@,
    {
        Mat4 { e }
    }

    /// A translation matrix.
    pub fn from_translation(t: &[u32; 3]) -> (r: Mat4)
        ensures
            r@ == translation_spec(t@),
    {
        let r = Mat4 {
            e: [
                F32_ONE_BITS, F32_ZERO_BITS, F32_ZERO_BITS, F32_ZERO_BITS,
                F32_ZERO_BITS, F32_ONE_BITS, F32_ZERO_BITS, F32_ZERO_BITS,
                F32_ZERO_BITS, F32_ZERO_BITS, F32_ONE_BITS, F32_ZERO_BITS,
                t[0], t[1], t[2], F32_ONE_BITS,
            ],
        };
        proof {
            assert(r@ =~= translation_spec(t@));
        }
        r
    }

    /// A non-uniform scale matrix.
    pub fn from_nonuniform_scale(s: &[u32; 3]) -> (r: Mat4)
        ensures
            r@ == scale_spec(s@),
    {
        let r = Mat4 {
            e: [
                s[0], F32_ZERO_BITS, F32_ZERO_BITS, F32_ZERO_BITS,
                F32_ZERO_BITS, s[1], F32_ZERO_BITS, F32_ZERO_BITS,
                F32_ZERO_BITS, F32_ZERO_BITS, s[2], F32_ZERO_BITS,
                F32_ZERO_BITS, F32_ZERO_BITS, F32_ZERO_BITS, F32_ONE_BITS,
            ],
        };
        proof {
            assert(r@ =~= scale_spec(s@));
        }
        r
    }

    /// A rotation about the x axis, from the sine and cosine of the angle.
    pub fn rotation_x(sin_t: u32, cos_t: u32) -> (r: Mat4)
        ensures
            r@ == rotation_x_spec(sin_t, cos_t),
    {
        let n = f32_neg(sin_t);
        let r = Mat4 {
            e: [
                F32_ONE_BITS, F32_ZERO_BITS, F32_ZERO_BITS, F32_ZERO_BITS,
                F32_ZERO_BITS, cos_t, sin_t, F32_ZERO_BITS,
                F32_ZERO_BITS, n, cos_t, F32_ZERO_BITS,
                F32_ZERO_BITS, F32_ZERO_BITS, F32_ZERO_BITS, F32_ONE_BITS,
            ],
        };
        proof {
            assert(r@ =~= rotation_x_spec(sin_t, cos_t));
        }
        r
    }

    /// A rotation about the y axis, from the sine and cosine of the angle.
    pub fn rotation_y(sin_t: u32, cos_t: u32) -> (r: Mat4)
        ensures
            r@ == rotation_y_spec(sin_t, cos_t),
    {
        let n = f32_neg(sin_t);
        let r = Mat4 {
            e: [
                cos_t, F32_ZERO_BITS, n, F32_ZERO_BITS,
                F32_ZERO_BITS, F32_ONE_BITS, F32_ZERO_BITS, F32_ZERO_BITS,
                sin_t, F32_ZERO_BITS, cos_t, F32_ZERO_BITS,
                F32_ZERO_BITS, F32_ZERO_BITS, F32_ZERO_BITS, F32_ONE_BITS,
            ],
        };
        proof {
            assert(r@ =~= rotation_y_spec(sin_t, cos_t));
        }
        r
    }

    /// A rotation about the z axis, from the sine and cosine of the angle.
    pub fn rotation_z(sin_t: u32, cos_t: u32) -> (r: Mat4)
        ensures
            r@ == rotation_z_spec(sin_t, cos_t),
    {
        let n = f32_neg(sin_t);
        let r = Mat4 {
            e: [
                cos_t, sin_t, F32_ZERO_BITS, F32_ZERO_BITS,
                n, cos_t, F32_ZERO_BITS, F32_ZERO_BITS,
                F32_ZERO_BITS, F32_ZERO_BITS, F32_ONE_BITS, F32_ZERO_BITS,
                F32_ZERO_BITS, F32_ZERO_BITS, F32_ZERO_BITS, F32_ONE_BITS,
            ],
        };
        proof {
            assert(r@ =~= rotation_z_spec(sin_t, cos_t));
        }
        r
    }

    /// The matrix product `self * other`.  The two conditional clauses
    /// carry the exact cancellation laws of the format through the
    /// product: a near-identity right factor hands a plain matrix back
    /// unchanged, and the exact identity on the left hands a diagonal
    /// matrix back unchanged.
    #[verifier::rlimit(100)]
    pub fn multiply(&self, other: &Mat4) -> (r: Mat4)
        ensures
            r@ == mat_mul_spec(self@, other@),
            near_identity(other@) && plain_entries(self@) ==> r@ == self@,
            identity_entries(self@) && diagonal_entries(other@) ==> r@ == other@,
    {
        let a = &self.e;
        let b = &other.e;
        let e: [u32; 16] = [
            dot4(a[0], a[4], a[8], a[12], b[0], b[1], b[2], b[3]),
            dot4(a[1], a[5], a[9], a[13], b[0], b[1], b[2], b[3]),
            dot4(a[2], a[6], a[10], a[14], b[0], b[1], b[2], b[3]),
            dot4(a[3], a[7], a[11], a[15], b[0], b[1], b[2], b[3]),
            dot4(a[0], a[4], a[8], a[12], b[4], b[5], b[6], b[7]),
            dot4(a[1], a[5], a[9], a[13], b[4], b[5], b[6], b[7]),
            dot4(a[2], a[6], a[10], a[14], b[4], b[5], b[6], b[7]),
            dot4(a[3], a[7], a[11], a[15], b[4], b[5], b[6], b[7]),
            dot4(a[0], a[4], a[8], a[12], b[8], b[9], b[10], b[11]),
            dot4(a[1], a[5], a[9], a[13], b[8], b[9], b[10], b[11]),
            dot4(a[2], a[6], a[10], a[14], b[8], b[9], b[10], b[11]),
            dot4(a[3], a[7], a[11], a[15], b[8], b[9], b[10], b[11]),
            dot4(a[0], a[4], a[8], a[12], b[12], b[13], b[14], b[15]),
            dot4(a[1], a[5], a[9], a[13], b[12], b[13], b[14], b[15]),
            dot4(a[2], a[6], a[10], a[14], b[12], b[13], b[14], b[15]),
            dot4(a[3], a[7], a[11], a[15], b[12], b[13], b[14], b[15]),
        ];
        let r = Mat4 { e };
        proof {
            assert(r@ =~= mat_mul_spec(self@, other@));
            if near_identity(other@) && plain_entries(self@) {
                assert(r@ =~= self@);
            }
            if identity_entries(self@) && diagonal_entries(other@) {
                assert(r@ =~= other@);
            }
        }
        r
    }
}

/// One entry of a matrix product: the four-term dot product, summed left
/// to right.  The conditional clauses state the exact cancellations the
/// format grants: a unit vector on one side picks out the matching entry
/// of the other, provided that entry is finite and, when it is a zero, a
/// positive one — the remaining terms are then zeros that round away.
fn dot4(a0: u32, a1: u32, a2: u32, a3: u32, b0: u32, b1: u32, b2: u32, b3: u32) -> (r: u32)
    ensures
        r == add_bits(
            add_bits(add_bits(mul_bits(a0, b0), mul_bits(a1, b1)), mul_bits(a2, b2)),
            mul_bits(a3, b3),
        ),
        b0 == F32_ONE_BITS && abs_bits(b1) == 0 && abs_bits(b2) == 0 && abs_bits(b3) == 0
            && is_finite_bits(a0) && is_finite_bits(a1) && is_finite_bits(a2) && is_finite_bits(a3)
            && a0 != 0x8000_0000u32 ==> r == a0,
        b1 == F32_ONE_BITS && abs_bits(b0) == 0 && abs_bits(b2) == 0 && abs_bits(b3) == 0
            && is_finite_bits(a0) && is_finite_bits(a1) && is_finite_bits(a2) && is_finite_bits(a3)
            && a1 != 0x8000_0000u32 ==> r == a1,
        b2 == F32_ONE_BITS && abs_bits(b0) == 0 && abs_bits(b1) == 0 && abs_bits(b3) == 0
            && is_finite_bits(a0) && is_finite_bits(a1) && is_finite_bits(a2) && is_finite_bits(a3)
            && a2 != 0x8000_0000u32 ==> r == a2,
        b3 == F32_ONE_BITS && abs_bits(b0) == 0 && abs_bits(b1) == 0 && abs_bits(b2) == 0
            && is_finite_bits(a0) && is_finite_bits(a1) && is_finite_bits(a2) && is_finite_bits(a3)
            && a3 != 0x8000_0000u32 ==> r == a3,
        a0 == F32_ONE_BITS && a1 == F32_ZERO_BITS && a2 == F32_ZERO_BITS && a3 == F32_ZERO_BITS
            && is_finite_bits(b0) && is_finite_bits(b1) && is_finite_bits(b2) && is_finite_bits(b3)
            && b0 != 0x8000_0000u32 ==> r == b0,
        a1 == F32_ONE_BITS && a0 == F32_ZERO_BITS && a2 == F32_ZERO_BITS && a3 == F32_ZERO_BITS
            && is_finite_bits(b0) && is_finite_bits(b1) && is_finite_bits(b2) && is_finite_bits(b3)
            && b1 != 0x8000_0000u32 ==> r == b1,
        a2 == F32_ONE_BITS && a0 == F32_ZERO_BITS && a1 == F32_ZERO_BITS && a3 == F32_ZERO_BITS
            && is_finite_bits(b0) && is_finite_bits(b1) && is_finite_bits(b2) && is_finite_bits(b3)
            && b2 != 0x8000_0000u32 ==> r == b2,
        a3 == F32_ONE_BITS && a0 == F32_ZERO_BITS && a1 == F32_ZERO_BITS && a2 == F32_ZERO_BITS
            && is_finite_bits(b0) && is_finite_bits(b1) && is_finite_bits(b2) && is_finite_bits(b3)
            && b3 != 0x8000_0000u32 ==> r == b3,
{
    let p0 = f32_mul(a0, b0);
    let p1 = f32_mul(a1, b1);
    let p2 = f32_mul(a2, b2);
    let p3 = f32_mul(a3, b3);
    f32_add(f32_add(f32_add(p0, p1), p2), p3)
}

} // verus!
