//! Model, view and projection matrix builders.
//!
//! The model matrix is the product `translate * Rz * Ry * Rx * scale`, in
//! that fixed order.  The view matrix is a right-handed look-at transform.
//! The projection is either a perspective with a fixed vertical field of
//! view of 72 degrees and fixed near and far planes, or a fixed
//! orthographic box; both are premultiplied by a depth-remap matrix that
//! turns the [-1, 1] clip-space depth convention into the [0, 1] convention
//! of the target graphics interface.
//!
//! Sines, cosines and tangents are the one thing the library does not
//! compute: the language leaves their last bit open to the platform, so the
//! builders take the needed trigonometric values as arguments, already
//! rounded to single precision, and pin everything built from them exactly.

use crate::fbits::{
    abs_bits, add_bits, div_bits, f32_add, f32_div, f32_le, f32_mul, f32_neg, f32_sub,
    is_finite_bits, mul_bits, neg_bits, spec_f32_le, sub_bits, F32_EPSILON_BITS, F32_HALF_BITS,
    F32_NEG_ONE_BITS, F32_ONE_BITS, F32_TWO_BITS, F32_ZERO_BITS,
};
use crate::mat4::{diagonal_entries, identity_entries, mat_mul_spec, near_identity, plain_entries,
    rotation_x_spec, rotation_y_spec, rotation_z_spec, scale_spec, translation_spec, Mat4};
use crate::vec3::{
    cross3_spec, dot3_spec, normalize3_spec, one3, sub3_spec, vec3_cross, vec3_dot, vec3_normalize,
    vec3_sub, zero3,
};
use vstd::prelude::*;

verus! {

/// The fixed vertical field of view, 72 degrees: the bits of `2 * pi / 5`
/// evaluated in single precision (1.2566371).
pub const FOV_RADIANS_BITS: u32 = 0x3FA0_D97C;

/// Half the field of view (0.62831855); its tangent is what
/// [`create_projection`] takes as an argument.  Halving only lowers the
/// exponent, so these are exactly the bits of [`FOV_RADIANS_BITS`] halved.
pub const HALF_FOV_RADIANS_BITS: u32 = 0x3F20_D97C;

/// The near plane of the perspective projection, 0.1.
pub const PERSPECTIVE_NEAR_BITS: u32 = 0x3DCC_CCCD;

/// The far plane of the perspective projection, 100.0.
pub const PERSPECTIVE_FAR_BITS: u32 = 0x42C8_0000;

/// The orthographic box: -4.0 and 4.0 horizontally.
pub const ORTHO_LEFT_BITS: u32 = 0xC080_0000;

pub const ORTHO_RIGHT_BITS: u32 = 0x4080_0000;

/// The orthographic box: -3.0 and 3.0 vertically.
pub const ORTHO_BOTTOM_BITS: u32 = 0xC040_0000;

pub const ORTHO_TOP_BITS: u32 = 0x4040_0000;

/// The orthographic box: -1.0 to 6.0 in depth.
pub const ORTHO_NEAR_BITS: u32 = 0xBF80_0000;

pub const ORTHO_FAR_BITS: u32 = 0x40C0_0000;

/// The depth-remap matrix: identity on x and y, `z' = 0.5 * z + 0.5 * w`,
/// turning depth in [-1, 1] into depth in [0, 1].
pub open spec fn opengl_to_wgpu_spec() -> Seq<u32> {
    seq![
        F32_ONE_BITS, F32_ZERO_BITS, F32_ZERO_BITS, F32_ZERO_BITS,
        F32_ZERO_BITS, F32_ONE_BITS, F32_ZERO_BITS, F32_ZERO_BITS,
        F32_ZERO_BITS, F32_ZERO_BITS, F32_HALF_BITS, F32_ZERO_BITS,
        F32_ZERO_BITS, F32_ZERO_BITS, F32_HALF_BITS, F32_ONE_BITS,
    ]
}

/// The model matrix `translate * Rz * Ry * Rx * scale`, from the sines and
/// cosines of the three rotation angles.
pub open spec fn model_matrix_spec(
    t: Seq<u32>,
    rot_sin: Seq<u32>,
    rot_cos: Seq<u32>,
    s: Seq<u32>,
) -> Seq<u32> {
    mat_mul_spec(
        mat_mul_spec(
            mat_mul_spec(
                mat_mul_spec(
                    translation_spec(t),
                    rotation_z_spec(rot_sin[2], rot_cos[2]),
                ),
                rotation_y_spec(rot_sin[1], rot_cos[1]),
            ),
            rotation_x_spec(rot_sin[0], rot_cos[0]),
        ),
        scale_spec(s),
    )
}

/// The right-handed look-toward matrix: orthonormal camera axes from the
/// direction and the up hint, and the eye position folded into the last
/// column.  A direction parallel to `up`, or of length zero, degenerates
/// silently, as the format's divisions prescribe.
pub open spec fn look_to_spec(eye: Seq<u32>, dir: Seq<u32>, up: Seq<u32>) -> Seq<u32> {
    let f = normalize3_spec(dir);
    let s = normalize3_spec(cross3_spec(f, up));
    let u = cross3_spec(s, f);
    seq![
        s[0], u[0], neg_bits(f[0]), F32_ZERO_BITS,
        s[1], u[1], neg_bits(f[1]), F32_ZERO_BITS,
        s[2], u[2], neg_bits(f[2]), F32_ZERO_BITS,
        neg_bits(dot3_spec(eye, s)), neg_bits(dot3_spec(eye, u)), dot3_spec(eye, f), F32_ONE_BITS,
    ]
}

/// The right-handed look-at matrix: look toward `target - eye`.
pub open spec fn view_matrix_spec(eye: Seq<u32>, target: Seq<u32>, up: Seq<u32>) -> Seq<u32> {
    look_to_spec(eye, sub3_spec(target, eye), up)
}

/// The perspective projection before the depth remap, from the tangent of
/// half the field of view: `f = 1 / tan` on the diagonal, divided by the
/// aspect ratio in x, and the fixed near and far planes folded into the
/// third and fourth columns.
pub open spec fn perspective_base_spec(aspect: u32, tan_half_fov: u32) -> Seq<u32> {
    let f = div_bits(F32_ONE_BITS, tan_half_fov);
    seq![
        div_bits(f, aspect), F32_ZERO_BITS, F32_ZERO_BITS, F32_ZERO_BITS,
        F32_ZERO_BITS, f, F32_ZERO_BITS, F32_ZERO_BITS,
        F32_ZERO_BITS, F32_ZERO_BITS,
        div_bits(
            add_bits(PERSPECTIVE_FAR_BITS, PERSPECTIVE_NEAR_BITS),
            sub_bits(PERSPECTIVE_NEAR_BITS, PERSPECTIVE_FAR_BITS),
        ),
        F32_NEG_ONE_BITS,
        F32_ZERO_BITS, F32_ZERO_BITS,
        div_bits(
            mul_bits(mul_bits(F32_TWO_BITS, PERSPECTIVE_FAR_BITS), PERSPECTIVE_NEAR_BITS),
            sub_bits(PERSPECTIVE_NEAR_BITS, PERSPECTIVE_FAR_BITS),
        ),
        F32_ZERO_BITS,
    ]
}

/// The fixed orthographic box before the depth remap.  It depends on
/// nothing: the box is a constant of the design.
pub open spec fn ortho_base_spec() -> Seq<u32> {
    seq![
        div_bits(F32_TWO_BITS, sub_bits(ORTHO_RIGHT_BITS, ORTHO_LEFT_BITS)),
        F32_ZERO_BITS, F32_ZERO_BITS, F32_ZERO_BITS,
        F32_ZERO_BITS,
        div_bits(F32_TWO_BITS, sub_bits(ORTHO_TOP_BITS, ORTHO_BOTTOM_BITS)),
        F32_ZERO_BITS, F32_ZERO_BITS,
        F32_ZERO_BITS, F32_ZERO_BITS,
        div_bits(neg_bits(F32_TWO_BITS), sub_bits(ORTHO_FAR_BITS, ORTHO_NEAR_BITS)),
        F32_ZERO_BITS,
        div_bits(
            neg_bits(add_bits(ORTHO_RIGHT_BITS, ORTHO_LEFT_BITS)),
            sub_bits(ORTHO_RIGHT_BITS, ORTHO_LEFT_BITS),
        ),
        div_bits(
            neg_bits(add_bits(ORTHO_TOP_BITS, ORTHO_BOTTOM_BITS)),
            sub_bits(ORTHO_TOP_BITS, ORTHO_BOTTOM_BITS),
        ),
        div_bits(
            neg_bits(add_bits(ORTHO_FAR_BITS, ORTHO_NEAR_BITS)),
            sub_bits(ORTHO_FAR_BITS, ORTHO_NEAR_BITS),
        ),
        F32_ONE_BITS,
    ]
}

/// The full projection matrix: the chosen base, premultiplied by the depth
/// remap.  The orthographic branch ignores the aspect ratio and the
/// tangent entirely.
pub open spec fn projection_matrix_spec(aspect: u32, is_perspective: bool, tan_half_fov: u32)
    -> Seq<u32> {
    if is_perspective {
        mat_mul_spec(opengl_to_wgpu_spec(), perspective_base_spec(aspect, tan_half_fov))
    } else {
        mat_mul_spec(opengl_to_wgpu_spec(), ortho_base_spec())
    }
}

/// The perspective branch rejects an aspect ratio whose magnitude does not
/// exceed the format's epsilon; a NaN aspect is let through and degenerates
/// silently.
pub open spec fn aspect_admissible(aspect: u32) -> bool {
    !spec_f32_le(abs_bits(aspect), F32_EPSILON_BITS)
}

/// Whether [`create_projection`] accepts this aspect ratio for the
/// perspective branch.
pub fn aspect_is_admissible(aspect: u32) -> (r: bool)
    ensures
        r == aspect_admissible(aspect),
{
    !f32_le(aspect % 0x8000_0000u32, F32_EPSILON_BITS)
}

/// The depth-remap matrix, `z' = 0.5 * z + 0.5 * w`.
pub fn opengl_to_wgpu_matrix() -> (r: Mat4)
    ensures
        r@ == opengl_to_wgpu_spec(),
{
    let r = Mat4 {
        e: [
            F32_ONE_BITS, F32_ZERO_BITS, F32_ZERO_BITS, F32_ZERO_BITS,
            F32_ZERO_BITS, F32_ONE_BITS, F32_ZERO_BITS, F32_ZERO_BITS,
            F32_ZERO_BITS, F32_ZERO_BITS, F32_HALF_BITS, F32_ZERO_BITS,
            F32_ZERO_BITS, F32_ZERO_BITS, F32_HALF_BITS, F32_ONE_BITS,
        ],
    };
    proof {
        assert(r@ =~= opengl_to_wgpu_spec());
    }
    r
}

/// Finite components with no negative zero among them: the inputs for
/// which a pure translation or a pure scale survives the full product
/// without even its zero signs moving.
pub open spec fn plain3(v: Seq<u32>) -> bool {
    is_finite_bits(v[0]) && v[0] != 0x8000_0000u32 && is_finite_bits(v[1]) && v[1]
        != 0x8000_0000u32 && is_finite_bits(v[2]) && v[2] != 0x8000_0000u32
}

/// The model matrix `translate * Rz * Ry * Rx * scale`.  The caller hands
/// in the sines and cosines of the intrinsic rotation angles about x, y
/// and z, each rounded to single precision.
///
/// The last two clauses are laws of the composition.  With no rotation
/// (sines zero, cosines one) and unit scale, the result is exactly the
/// translation matrix; with no translation and no rotation, exactly the
/// scale matrix.  Both ask for components that are finite and not negative
/// zeros: an infinite component turns the zero products NaN, and a
/// negative zero is washed out to a positive one by the additions.
#[verifier::rlimit(100)]
pub fn create_transforms_from_sin_cos(
    translation: [u32; 3],
    rotation_sin: [u32; 3],
    rotation_cos: [u32; 3],
    scaling: [u32; 3],
) -> (r: Mat4)
    ensures
        r@ == model_matrix_spec(translation@, rotation_sin@, rotation_cos@, scaling@),
        rotation_sin@ == zero3() && rotation_cos@ == one3() && scaling@ == one3() && plain3(
            translation@,
        ) ==> r@ == translation_spec(translation@),
        translation@ == zero3() && rotation_sin@ == zero3() && rotation_cos@ == one3() && plain3(
            scaling@,
        ) ==> r@ == scale_spec(scaling@),
{
    let trans_mat = Mat4::from_translation(&translation);
    let rotate_mat_x = Mat4::rotation_x(rotation_sin[0], rotation_cos[0]);
    let rotate_mat_y = Mat4::rotation_y(rotation_sin[1], rotation_cos[1]);
    let rotate_mat_z = Mat4::rotation_z(rotation_sin[2], rotation_cos[2]);
    let scale_mat = Mat4::from_nonuniform_scale(&scaling);

    let model_mat = trans_mat
        .multiply(&rotate_mat_z)
        .multiply(&rotate_mat_y)
        .multiply(&rotate_mat_x)
        .multiply(&scale_mat);

    proof {
        if rotation_sin@ == zero3() && rotation_cos@ == one3() {
            assert(near_identity(rotate_mat_x@));
            assert(near_identity(rotate_mat_y@));
            assert(near_identity(rotate_mat_z@));
            if scaling@ == one3() && plain3(translation@) {
                assert(plain_entries(trans_mat@));
                assert(near_identity(scale_mat@));
            }
            if translation@ == zero3() && plain3(scaling@) {
                assert(plain_entries(trans_mat@));
                assert(identity_entries(trans_mat@));
                assert(diagonal_entries(scale_mat@));
            }
        }
    }
    model_mat
}

/// The right-handed look-toward matrix, facing along `dir` from `eye`.
pub fn create_look_to(eye: [u32; 3], dir: [u32; 3], up: [u32; 3]) -> (r: Mat4)
    ensures
        r@ == look_to_spec(eye@, dir@, up@),
{
    let f = vec3_normalize(&dir);
    let fxu = vec3_cross(&f, &up);
    let s = vec3_normalize(&fxu);
    let u = vec3_cross(&s, &f);
    let nf0 = f32_neg(f[0]);
    let nf1 = f32_neg(f[1]);
    let nf2 = f32_neg(f[2]);
    let ds = f32_neg(vec3_dot(&eye, &s));
    let du = f32_neg(vec3_dot(&eye, &u));
    let df = vec3_dot(&eye, &f);
    let r = Mat4 {
        e: [
            s[0], u[0], nf0, F32_ZERO_BITS,
            s[1], u[1], nf1, F32_ZERO_BITS,
            s[2], u[2], nf2, F32_ZERO_BITS,
            ds, du, df, F32_ONE_BITS,
        ],
    };
    proof {
        assert(r@ =~= look_to_spec(eye@, dir@, up@));
    }
    r
}

/// The right-handed look-at view matrix, toward `look_direction` from
/// `camera_position`.
pub fn create_view(
    camera_position: [u32; 3],
    look_direction: [u32; 3],
    up_direction: [u32; 3],
) -> (r: Mat4)
    ensures
        r@ == view_matrix_spec(camera_position@, look_direction@, up_direction@),
{
    let dir = vec3_sub(&look_direction, &camera_position);
    create_look_to(camera_position, dir, up_direction)
}

/// The projection matrix.  `tan_half_fov` is the tangent of
/// [`HALF_FOV_RADIANS_BITS`], rounded to single precision; the caller
/// computes it because the platform's tangent owns its last bit.  The
/// orthographic branch ignores both that tangent and the aspect ratio.
pub fn create_projection(aspect_ratio: u32, is_perspective: bool, tan_half_fov: u32) -> (r: Mat4)
    requires
        is_perspective ==> aspect_admissible(aspect_ratio),
    ensures
        r@ == projection_matrix_spec(aspect_ratio, is_perspective, tan_half_fov),
{
    let remap = opengl_to_wgpu_matrix();
    if is_perspective {
        let f = f32_div(F32_ONE_BITS, tan_half_fov);
        let c0r0 = f32_div(f, aspect_ratio);
        let c2r2 = f32_div(
            f32_add(PERSPECTIVE_FAR_BITS, PERSPECTIVE_NEAR_BITS),
            f32_sub(PERSPECTIVE_NEAR_BITS, PERSPECTIVE_FAR_BITS),
        );
        let c3r2 = f32_div(
            f32_mul(f32_mul(F32_TWO_BITS, PERSPECTIVE_FAR_BITS), PERSPECTIVE_NEAR_BITS),
            f32_sub(PERSPECTIVE_NEAR_BITS, PERSPECTIVE_FAR_BITS),
        );
        let base = Mat4 {
            e: [
                c0r0, F32_ZERO_BITS, F32_ZERO_BITS, F32_ZERO_BITS,
                F32_ZERO_BITS, f, F32_ZERO_BITS, F32_ZERO_BITS,
                F32_ZERO_BITS, F32_ZERO_BITS, c2r2, F32_NEG_ONE_BITS,
                F32_ZERO_BITS, F32_ZERO_BITS, c3r2, F32_ZERO_BITS,
            ],
        };
        proof {
            assert(base@ =~= perspective_base_spec(aspect_ratio, tan_half_fov));
        }
        remap.multiply(&base)
    } else {
        let c0r0 = f32_div(F32_TWO_BITS, f32_sub(ORTHO_RIGHT_BITS, ORTHO_LEFT_BITS));
        let c1r1 = f32_div(F32_TWO_BITS, f32_sub(ORTHO_TOP_BITS, ORTHO_BOTTOM_BITS));
        let c2r2 = f32_div(f32_neg(F32_TWO_BITS), f32_sub(ORTHO_FAR_BITS, ORTHO_NEAR_BITS));
        let c3r0 = f32_div(
            f32_neg(f32_add(ORTHO_RIGHT_BITS, ORTHO_LEFT_BITS)),
            f32_sub(ORTHO_RIGHT_BITS, ORTHO_LEFT_BITS),
        );
        let c3r1 = f32_div(
            f32_neg(f32_add(ORTHO_TOP_BITS, ORTHO_BOTTOM_BITS)),
            f32_sub(ORTHO_TOP_BITS, ORTHO_BOTTOM_BITS),
        );
        let c3r2 = f32_div(
            f32_neg(f32_add(ORTHO_FAR_BITS, ORTHO_NEAR_BITS)),
            f32_sub(ORTHO_FAR_BITS, ORTHO_NEAR_BITS),
        );
        let base = Mat4 {
            e: [
                c0r0, F32_ZERO_BITS, F32_ZERO_BITS, F32_ZERO_BITS,
                F32_ZERO_BITS, c1r1, F32_ZERO_BITS, F32_ZERO_BITS,
                F32_ZERO_BITS, F32_ZERO_BITS, c2r2, F32_ZERO_BITS,
                c3r0, c3r1, c3r2, F32_ONE_BITS,
            ],
        };
        proof {
            assert(base@ =~= ortho_base_spec());
        }
        remap.multiply(&base)
    }
}

/// The view matrix, the projection matrix, and their product
/// `projection * view`.
pub fn create_view_projection(
    camera_position: [u32; 3],
    look_direction: [u32; 3],
    up_direction: [u32; 3],
    aspect_ratio: u32,
    is_perspective: bool,
    tan_half_fov: u32,
) -> (r: (Mat4, Mat4, Mat4))
    requires
        is_perspective ==> aspect_admissible(aspect_ratio),
    ensures
        r.0@ == view_matrix_spec(camera_position@, look_direction@, up_direction@),
        r.1@ == projection_matrix_spec(aspect_ratio, is_perspective, tan_half_fov),
        r.2@ == mat_mul_spec(r.1@, r.0@),
{
    let view_matrix = create_view(camera_position, look_direction, up_direction);
    let projection_matrix = create_projection(aspect_ratio, is_perspective, tan_half_fov);
    let view_projection_matrix = projection_matrix.multiply(&view_matrix);

    (view_matrix, projection_matrix, view_projection_matrix)
}

/// The orthographic projection ignores the aspect ratio and the tangent:
/// any two calls of [`create_projection`] with `is_perspective` false
/// return the same matrix, bit for bit.
pub proof fn lemma_orthographic_ignores_aspect(a1: u32, t1: u32, a2: u32, t2: u32)
    ensures
        projection_matrix_spec(a1, false, t1) == projection_matrix_spec(a2, false, t2),
{
}

} // verus!
