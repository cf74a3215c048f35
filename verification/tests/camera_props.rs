//! The yaw-and-pitch camera and its controller against the reference
//! construction.

use cgmath::{Deg, InnerSpace, Matrix4, Point3, Rad, Vector3};
use mvp_math::camera::{Camera, CameraController, DEG_TO_RAD_BITS, PITCH_LIMIT_BITS};

fn b(x: f32) -> u32 {
    x.to_bits()
}

fn b3(v: [f32; 3]) -> [u32; 3] {
    [b(v[0]), b(v[1]), b(v[2])]
}

fn from_cg(m: Matrix4<f32>) -> [u32; 16] {
    let a: &[f32; 16] = m.as_ref();
    let mut r = [0u32; 16];
    for k in 0..16 {
        r[k] = a[k].to_bits();
    }
    r
}

#[test]
fn angle_constants_match_their_derivations() {
    assert_eq!(
        DEG_TO_RAD_BITS,
        ((std::f64::consts::PI / 180.0) as f32).to_bits()
    );
    assert_eq!(
        PITCH_LIMIT_BITS,
        (89.0f32 * std::f32::consts::PI / 180.0).to_bits()
    );
}

#[test]
fn degree_conversion_matches_reference() {
    for deg in [0.0f32, 45.0, 90.0, -30.5, 180.0, 359.0] {
        let cam = Camera::new(b3([0.0, 0.0, 0.0]), b(deg), b(deg));
        let reference: Rad<f32> = Deg(deg).into();
        assert_eq!(cam.yaw(), b(reference.0), "yaw of {deg} degrees");
        assert_eq!(cam.pitch(), b(reference.0), "pitch of {deg} degrees");
    }
}

#[test]
fn camera_view_matrix_matches_reference_bits() {
    let cases = [
        ([0.0f32, 2.0, 5.0], -90.0f32, -20.0f32),
        ([3.0, 1.5, 3.0], 30.0, 10.0),
        ([-4.0, 0.5, 2.0], 120.0, -45.0),
    ];
    for (position, yaw_deg, pitch_deg) in cases {
        let cam = Camera::new(b3(position), b(yaw_deg), b(pitch_deg));
        let yaw = f32::from_bits(cam.yaw());
        let pitch = f32::from_bits(cam.pitch());
        let ours = cam
            .view_matrix(
                b(yaw.sin()),
                b(yaw.cos()),
                b(pitch.sin()),
                b(pitch.cos()),
            )
            .entries();
        let reference = from_cg(Matrix4::look_to_rh(
            Point3::new(position[0], position[1], position[2]),
            Vector3::new(
                pitch.cos() * yaw.cos(),
                pitch.sin(),
                pitch.cos() * yaw.sin(),
            )
            .normalize(),
            Vector3::unit_y(),
        ));
        assert_eq!(ours, reference);
    }
}

#[test]
fn mut_accessors_write_through() {
    let mut cam = Camera::new(b3([1.0, 2.0, 3.0]), b(10.0), b(20.0));
    *cam.mut_position() = b3([4.0, 5.0, 6.0]);
    assert_eq!(cam.position(), b3([4.0, 5.0, 6.0]));
    *cam.mut_yaw() = b(0.5);
    assert_eq!(cam.yaw(), b(0.5));
    *cam.mut_pitch() = b(-0.25);
    assert_eq!(cam.pitch(), b(-0.25));
}

#[test]
fn controller_applies_scaled_rotation_and_resets() {
    let mut cam = Camera::new(b3([0.0, 0.0, 0.0]), b(0.0), b(0.0));
    let mut controller = CameraController::new(b(0.5));
    controller.set_rotation(b(0.2), b(-0.3));
    controller.update_camera(&mut cam);

    assert_eq!(cam.yaw(), b(0.0f32 + 0.2f32 * 0.5));
    assert_eq!(cam.pitch(), b(0.0f32 + -0.3f32 * 0.5));
    // The pending rotation is cleared: a second update changes nothing.
    let yaw_before = cam.yaw();
    let pitch_before = cam.pitch();
    controller.update_camera(&mut cam);
    assert_eq!(cam.yaw(), yaw_before);
    assert_eq!(cam.pitch(), pitch_before);
}

#[test]
fn controller_clamps_pitch_to_just_under_a_quarter_turn() {
    let limit = f32::from_bits(PITCH_LIMIT_BITS);
    assert!((limit - 89.0f32 * std::f32::consts::PI / 180.0).abs() < 1.0e-6);

    let mut cam = Camera::new(b3([0.0, 0.0, 0.0]), b(0.0), b(0.0));
    let mut controller = CameraController::new(b(1.0));
    controller.set_rotation(b(0.0), b(100.0));
    controller.update_camera(&mut cam);
    assert_eq!(cam.pitch(), PITCH_LIMIT_BITS);

    controller.set_rotation(b(0.0), b(-200.0));
    controller.update_camera(&mut cam);
    assert_eq!(cam.pitch(), b(-limit));
}
