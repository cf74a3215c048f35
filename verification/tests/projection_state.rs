//! The stateful object: the combined matrix is always exactly the product
//! of the three parts, and a fresh object matches the reference pipeline.

use cgmath::{perspective, Matrix4, Point3, Rad, Vector3};
use mvp_math::mat4::Mat4;
use mvp_math::projection::Projection;
use mvp_math::transform::HALF_FOV_RADIANS_BITS;

fn b(x: f32) -> u32 {
    x.to_bits()
}

fn b3(v: [f32; 3]) -> [u32; 3] {
    [b(v[0]), b(v[1]), b(v[2])]
}

fn from_cg(m: Matrix4<f32>) -> [u32; 16] {
    let a: &[f32; 16] = m.as_ref();
    let mut r = [0u32; 16];
    for k in 0..16 {
        r[k] = a[k].to_bits();
    }
    r
}

fn tan_half_fov() -> u32 {
    f32::from_bits(HALF_FOV_RADIANS_BITS).tan().to_bits()
}

fn sin3(v: [f32; 3]) -> [u32; 3] {
    b3([v[0].sin(), v[1].sin(), v[2].sin()])
}

fn cos3(v: [f32; 3]) -> [u32; 3] {
    b3([v[0].cos(), v[1].cos(), v[2].cos()])
}

/// The combined matrix must equal the product of the three accessors,
/// recomputed outside the object, bit for bit.
fn assert_composite(p: &Projection) {
    let recomputed = p
        .projection_matrix()
        .multiply(&p.view_matrix())
        .multiply(&p.model_matrix());
    assert_eq!(p.mvp_matrix_slice(), recomputed.entries());
}

#[test]
fn fresh_projection_matches_reference_pipeline() {
    let p = Projection::new(b(800.0), b(600.0), tan_half_fov());
    assert_eq!(p.aspect_ratio(), b(800.0 / 600.0));
    assert!(p.is_perspective());

    // The reference pipeline: identity model, look-at from (3, 1.5, 3) at
    // the origin with y up, perspective with the fixed field of view, all
    // premultiplied by the depth remap.
    let remap = Matrix4::new(
        1.0, 0.0, 0.0, 0.0, 0.0, 1.0, 0.0, 0.0, 0.0, 0.0, 0.5f32, 0.0, 0.0, 0.0, 0.5, 1.0,
    );
    let model = Matrix4::from_translation(Vector3::new(0.0, 0.0, 0.0))
        * Matrix4::from_angle_z(Rad(0.0))
        * Matrix4::from_angle_y(Rad(0.0))
        * Matrix4::from_angle_x(Rad(0.0))
        * Matrix4::from_nonuniform_scale(1.0, 1.0, 1.0);
    let view = Matrix4::look_at_rh(
        Point3::new(3.0, 1.5, 3.0),
        Point3::new(0.0, 0.0, 0.0),
        Vector3::new(0.0, 1.0, 0.0),
    );
    let proj = remap * perspective(Rad(2.0 * std::f32::consts::PI / 5.0), 800.0 / 600.0, 0.1, 100.0);
    let mvp = proj * view * model;

    assert_eq!(p.model_matrix_slice(), from_cg(model));
    assert_eq!(p.view_matrix_slice(), from_cg(view));
    assert_eq!(p.projection_matrix_slice(), from_cg(proj));
    assert_eq!(p.mvp_matrix_slice(), from_cg(mvp));

    // The bottom row of the perspective matrix reads (0, 0, -1, 0): the
    // third entry carries the perspective divide, the fourth is zero.
    let slice = p.projection_matrix_slice().map(f32::from_bits);
    assert_eq!(slice[3], 0.0);
    assert_eq!(slice[7], 0.0);
    assert_eq!(slice[11], -1.0);
    assert_eq!(slice[15], 0.0);

    assert_composite(&p);
}

#[test]
fn composite_stays_consistent_through_setters() {
    let mut p = Projection::new(b(800.0), b(600.0), tan_half_fov());
    assert_composite(&p);

    p.set_model_translation(b3([1.0, -2.0, 0.5]));
    assert_composite(&p);
    assert_eq!(p.model_translation(), b3([1.0, -2.0, 0.5]));

    let rotation = [0.3f32, -0.8, 1.2];
    p.set_model_rotation(b3(rotation), sin3(rotation), cos3(rotation));
    assert_composite(&p);
    assert_eq!(p.model_rotation(), b3(rotation));

    p.set_model_scale(b3([2.0, 2.0, 0.5]));
    assert_composite(&p);
    assert_eq!(p.model_scale(), b3([2.0, 2.0, 0.5]));

    p.set_camera_position(b3([0.0, 4.0, -6.0]));
    assert_composite(&p);
    assert_eq!(p.camera_position(), b3([0.0, 4.0, -6.0]));

    p.set_look_direction(b3([0.5, 0.0, 0.0]));
    assert_composite(&p);

    p.set_up_direction(b3([0.0, 0.9, 0.1]));
    assert_composite(&p);

    p.set_aspect_ratio(b(2.0));
    assert_composite(&p);
    assert_eq!(p.aspect_ratio(), b(2.0));

    p.set_is_perspective(false);
    assert_composite(&p);
    assert!(!p.is_perspective());

    p.set_is_perspective(true);
    assert_composite(&p);
}

#[test]
fn replace_setters_keep_composite_consistent() {
    let mut p = Projection::new(b(640.0), b(480.0), tan_half_fov());

    let custom = Mat4::from_entries([b(1.0); 16]);
    p.replace_model_matrix(custom);
    assert_composite(&p);
    assert_eq!(p.model_matrix().entries(), [b(1.0); 16]);
    // The stored parameters are untouched by the replacement.
    assert_eq!(p.model_translation(), b3([0.0, 0.0, 0.0]));

    p.replace_view_matrix(custom);
    assert_composite(&p);

    p.replace_projection_matrix(custom);
    assert_composite(&p);
}

#[test]
fn rebuild_setters_recompute_from_given_parameters() {
    let mut p = Projection::new(b(640.0), b(480.0), tan_half_fov());
    let rotation = [0.0f32, 0.5, 0.0];
    p.set_model_matrix(
        b3([3.0, 0.0, 0.0]),
        sin3(rotation),
        cos3(rotation),
        b3([1.0, 1.0, 1.0]),
    );
    assert_composite(&p);
    // The parameters handed in are not stored.
    assert_eq!(p.model_translation(), b3([0.0, 0.0, 0.0]));

    p.set_view_matrix(b3([1.0, 1.0, 1.0]), b3([0.0, 0.0, 0.0]), b3([0.0, 1.0, 0.0]));
    assert_composite(&p);
    assert_eq!(p.camera_position(), b3([3.0, 1.5, 3.0]));

    p.set_projection_matrix(b(1.25), false);
    assert_composite(&p);
    assert_eq!(p.aspect_ratio(), b(640.0 / 480.0));
}

#[test]
fn try_new_rejects_inadmissible_aspect() {
    // A zero width gives a zero aspect ratio, which the perspective branch
    // rejects.
    assert!(Projection::try_new(b(0.0), b(600.0), tan_half_fov()).is_none());
    // An aspect ratio below the format's epsilon is rejected too.
    assert!(Projection::try_new(b(1.0e-8), b(1.0), tan_half_fov()).is_none());
    // An ordinary surface is accepted.
    let p = Projection::try_new(b(800.0), b(600.0), tan_half_fov());
    assert!(p.is_some());
    assert_eq!(p.unwrap().aspect_ratio(), b(800.0 / 600.0));
}
