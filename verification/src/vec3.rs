//! Three-component vectors of single-precision bit patterns.
//!
//! The operations mirror the usual component conventions of a right-handed
//! 3D toolkit: the dot product folds left over the components, the cross
//! product follows the right-hand rule, and normalisation multiplies each
//! component by the reciprocal of the vector's length.  Every result is
//! pinned exactly, as a composition of the named rounding operations.

use crate::fbits::{
    add_bits, div_bits, f32_add, f32_div, f32_mul, f32_sub, mul_bits, sub_bits, F32_ONE_BITS,
    F32_ZERO_BITS,
};
use crate::sqrt::{f32_sqrt, sqrt_bits};
use vstd::prelude::*;

verus! {

/// The zero vector.
pub open spec fn zero3() -> Seq<u32> {
    seq![F32_ZERO_BITS, F32_ZERO_BITS, F32_ZERO_BITS]
}

/// The all-ones vector, the unit scale.
pub open spec fn one3() -> Seq<u32> {
    seq![F32_ONE_BITS, F32_ONE_BITS, F32_ONE_BITS]
}

/// Componentwise difference `a - b`.
pub open spec fn sub3_spec(a: Seq<u32>, b: Seq<u32>) -> Seq<u32> {
    seq![
        sub_bits(a[0], b[0]),
        sub_bits(a[1], b[1]),
        sub_bits(a[2], b[2]),
    ]
}

/// The dot product, summed left to right:
/// `(a.x * b.x + a.y * b.y) + a.z * b.z`.
pub open spec fn dot3_spec(a: Seq<u32>, b: Seq<u32>) -> u32 {
    add_bits(
        add_bits(mul_bits(a[0], b[0]), mul_bits(a[1], b[1])),
        mul_bits(a[2], b[2]),
    )
}

/// The cross product `a x b`, by the right-hand rule.
pub open spec fn cross3_spec(a: Seq<u32>, b: Seq<u32>) -> Seq<u32> {
    seq![
        sub_bits(mul_bits(a[1], b[2]), mul_bits(a[2], b[1])),
        sub_bits(mul_bits(a[2], b[0]), mul_bits(a[0], b[2])),
        sub_bits(mul_bits(a[0], b[1]), mul_bits(a[1], b[0])),
    ]
}

/// Each component multiplied by the reciprocal of the length
/// `sqrt(v . v)`.  A zero or overflowing length is not special-cased: the
/// division then yields infinities or NaNs, as the format prescribes.
pub open spec fn normalize3_spec(v: Seq<u32>) -> Seq<u32> {
    let k = div_bits(F32_ONE_BITS, sqrt_bits(dot3_spec(v, v)));
    seq![
        mul_bits(v[0], k),
        mul_bits(v[1], k),
        mul_bits(v[2], k),
    ]
}

/// Componentwise difference.
pub fn vec3_sub(a: &[u32; 3], b: &[u32; 3]) -> (r: [u32; 3])
    ensures
        r@ == sub3_spec(a@, b@),
{
    let r = [f32_sub(a[0], b[0]), f32_sub(a[1], b[1]), f32_sub(a[2], b[2])];
    proof {
        assert(r@ =~= sub3_spec(a@, b@));
    }
    r
}

/// The dot product, summed left to right.
pub fn vec3_dot(a: &[u32; 3], b: &[u32; 3]) -> (r: u32)
    ensures
        r == dot3_spec(a@, b@),
{
    f32_add(
        f32_add(f32_mul(a[0], b[0]), f32_mul(a[1], b[1])),
        f32_mul(a[2], b[2]),
    )
}

/// The cross product, by the right-hand rule.
pub fn vec3_cross(a: &[u32; 3], b: &[u32; 3]) -> (r: [u32; 3])
    ensures
        r@ == cross3_spec(a@, b@),
{
    let r = [
        f32_sub(f32_mul(a[1], b[2]), f32_mul(a[2], b[1])),
        f32_sub(f32_mul(a[2], b[0]), f32_mul(a[0], b[2])),
        f32_sub(f32_mul(a[0], b[1]), f32_mul(a[1], b[0])),
    ];
    proof {
        assert(r@ =~= cross3_spec(a@, b@));
    }
    r
}

/// The vector scaled to length one (up to rounding), by multiplying each
/// component with the reciprocal of the length.
pub fn vec3_normalize(v: &[u32; 3]) -> (r: [u32; 3])
    ensures
        r@ == normalize3_spec(v@),
{
    let len = f32_sqrt(vec3_dot(v, v));
    let k = f32_div(F32_ONE_BITS, len);
    let r = [f32_mul(v[0], k), f32_mul(v[1], k), f32_mul(v[2], k)];
    proof {
        assert(r@ =~= normalize3_spec(v@));
    }
    r
}

} // verus!
